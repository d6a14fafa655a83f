//! Character-level text operations with their specifications.
use vstd::prelude::*;

verus! {

// ── Specifications ────────────────────────────────────────

/// The character of a decimal digit.
pub open spec fn digit_char(d: nat) -> char {
    if d == 0 { '0' }
    else if d == 1 { '1' }
    else if d == 2 { '2' }
    else if d == 3 { '3' }
    else if d == 4 { '4' }
    else if d == 5 { '5' }
    else if d == 6 { '6' }
    else if d == 7 { '7' }
    else if d == 8 { '8' }
    else { '9' }
}

/// The decimal notation of `n`, without leading zeros.
pub open spec fn decimal(n: nat) -> Seq<char>
    decreases n,
{
    if n < 10 {
        seq![digit_char(n)]
    } else {
        decimal(n / 10).push(digit_char(n % 10))
    }
}

/// The Unicode `White_Space` characters.
pub open spec fn is_white_space(c: char) -> bool {
    let u = c as u32;
    ||| 0x9 <= u <= 0xD
    ||| u == 0x20
    ||| u == 0x85
    ||| u == 0xA0
    ||| u == 0x1680
    ||| 0x2000 <= u <= 0x200A
    ||| u == 0x2028
    ||| u == 0x2029
    ||| u == 0x202F
    ||| u == 0x205F
    ||| u == 0x3000
}

/// `s` without its leading white space.
pub open spec fn trim_start(s: Seq<char>) -> Seq<char>
    decreases s.len(),
{
    if s.len() > 0 && is_white_space(s[0]) {
        trim_start(s.drop_first())
    } else {
        s
    }
}

/// `s` without its trailing white space.
pub open spec fn trim_end(s: Seq<char>) -> Seq<char>
    decreases s.len(),
{
    if s.len() > 0 && is_white_space(s.last()) {
        trim_end(s.drop_last())
    } else {
        s
    }
}

/// `s` without leading and trailing white space.
pub open spec fn trim(s: Seq<char>) -> Seq<char> {
    trim_end(trim_start(s))
}

/// `p` occurs in `s` at position `i`.
pub open spec fn occurs_at(s: Seq<char>, p: Seq<char>, i: int) -> bool {
    &&& 0 <= i
    &&& i + p.len() <= s.len()
    &&& s.subrange(i, i + p.len()) == p
}

/// `p` occurs somewhere in `s`.
pub open spec fn contains_text(s: Seq<char>, p: Seq<char>) -> bool {
    exists|i: int| occurs_at(s, p, i)
}

/// `s` with every occurrence of `p`, scanned from the left without overlap,
/// replaced by `r`.
pub open spec fn replace_all(s: Seq<char>, p: Seq<char>, r: Seq<char>) -> Seq<char>
    decreases s.len(),
{
    if p.len() == 0 || s.len() < p.len() {
        s
    } else if s.take(p.len() as int) == p {
        r + replace_all(s.skip(p.len() as int), p, r)
    } else {
        seq![s[0]] + replace_all(s.drop_first(), p, r)
    }
}

/// The ASCII lower-case form of `c`; other characters are unchanged.
pub open spec fn ascii_lower(c: char) -> char {
    if 'A' <= c && c <= 'Z' {
        ((c as u32) + 32) as char
    } else {
        c
    }
}

/// The ASCII upper-case form of `c`; other characters are unchanged.
pub open spec fn ascii_upper(c: char) -> char {
    if 'a' <= c && c <= 'z' {
        ((c as u32) - 32) as char
    } else {
        c
    }
}

/// Whether every character of `s` is ASCII.
pub open spec fn is_ascii_text(s: Seq<char>) -> bool {
    forall|i: int| 0 <= i < s.len() ==> (#[trigger] s[i] as u32) < 128
}

/// `a` and `b` are equal when ASCII letters are compared without case.
pub open spec fn eq_ignore_ascii_case(a: Seq<char>, b: Seq<char>) -> bool {
    &&& a.len() == b.len()
    &&& forall|i: int| 0 <= i < a.len() ==> ascii_lower(#[trigger] a[i]) == ascii_lower(b[i])
}

/// The position of the first `'\n'` in `s` at or after `from`, if any.
pub open spec fn first_newline_from(s: Seq<char>, from: int) -> Option<int>
    decreases s.len() - from,
{
    if from < 0 || from >= s.len() {
        None
    } else if s[from] == '\n' {
        Some(from)
    } else {
        first_newline_from(s, from + 1)
    }
}

/// A line that was ended by `'\n'` loses one trailing `'\r'`.
pub open spec fn strip_cr(line: Seq<char>) -> Seq<char> {
    if line.len() > 0 && line.last() == '\r' {
        line.drop_last()
    } else {
        line
    }
}

/// The lines of `s`: split at `'\n'`; a line ended by `'\n'` drops one
/// trailing `'\r'`; a final line ending adds no empty line.
pub open spec fn lines(s: Seq<char>) -> Seq<Seq<char>>
    decreases s.len(),
{
    if s.len() == 0 {
        seq![]
    } else {
        match first_newline_from(s, 0) {
            None => seq![s],
            Some(k) => {
                if 0 <= k < s.len() {
                    seq![strip_cr(s.take(k))] + lines(s.skip(k + 1))
                } else {
                    seq![]
                }
            },
        }
    }
}

// ── Lemmas ────────────────────────────────────────────────

proof fn lemma_first_newline_from(s: Seq<char>, from: int)
    requires
        0 <= from <= s.len(),
    ensures
        match first_newline_from(s, from) {
            None => forall|j: int| from <= j < s.len() ==> s[j] != '\n',
            Some(k) => from <= k < s.len() && s[k] == '\n' && forall|j: int|
                from <= j < k ==> s[j] != '\n',
        },
    decreases s.len() - from,
{
    if from < s.len() && s[from] != '\n' {
        lemma_first_newline_from(s, from + 1);
    }
}

// ── Executable operations ─────────────────────────────────

/// Calls `String::push`; claimed: `c` is appended to `s`, as its
/// documentation says.
#[verifier::external_body]
pub(crate) fn push_char(s: &mut String, c: char)
    ensures
        final(s)@ == old(s)@.push(c),
{
    s.push(c);
}

/// The characters of `s`, in order.
pub fn chars_of(s: &str) -> (v: Vec<char>)
    ensures
        v@ == s@,
{
    broadcast use vstd::string::group_string_axioms;

    let mut v: Vec<char> = Vec::new();
    for c in it: s.chars()
        invariant
            it.seq() == s@,
            v@ == it.seq().take(it.index() as int),
    {
        v.push(c);
    }
    v
}

/// The text made of `v[from..to]`.
pub fn text_of_range(v: &Vec<char>, from: usize, to: usize) -> (s: String)
    requires
        from <= to <= v.len(),
    ensures
        s@ == v@.subrange(from as int, to as int),
{
    let mut s = String::new();
    let mut i = from;
    while i < to
        invariant
            from <= i <= to <= v.len(),
            s@ == v@.subrange(from as int, i as int),
        decreases to - i,
    {
        push_char(&mut s, v[i]);
        assert(v@.subrange(from as int, i + 1) =~= v@.subrange(from as int, i as int).push(v@[i as int]));
        i = i + 1;
    }
    s
}

/// The text made of the characters `v`.
pub fn text_of(v: &Vec<char>) -> (s: String)
    ensures
        s@ == v@,
{
    let s = text_of_range(v, 0, v.len());
    assert(v@.subrange(0, v@.len() as int) =~= v@);
    s
}

/// `a` and `b` hold the same characters.
pub fn same_text(a: &str, b: &str) -> (r: bool)
    ensures
        r == (a@ == b@),
{
    let x = a.to_owned();
    let y = b.to_owned();
    x == y
}

/// `a` followed by `b`.
pub fn join2(a: &str, b: &str) -> (s: String)
    ensures
        s@ == a@ + b@,
{
    let s = a.to_owned();
    s.concat(b)
}

/// `a`, `b` and `c` in turn.
pub fn join3(a: &str, b: &str, c: &str) -> (s: String)
    ensures
        s@ == a@ + b@ + c@,
{
    let s = a.to_owned();
    let s = s.concat(b);
    s.concat(c)
}

/// `a`, `b`, `c` and `d` in turn.
pub fn join4(a: &str, b: &str, c: &str, d: &str) -> (s: String)
    ensures
        s@ == a@ + b@ + c@ + d@,
{
    let s = join3(a, b, c);
    s.concat(d)
}

/// The character of the decimal digit `d`.
pub fn digit(d: u64) -> (c: char)
    requires
        d < 10,
    ensures
        c == digit_char(d as nat),
{
    if d == 0 { '0' }
    else if d == 1 { '1' }
    else if d == 2 { '2' }
    else if d == 3 { '3' }
    else if d == 4 { '4' }
    else if d == 5 { '5' }
    else if d == 6 { '6' }
    else if d == 7 { '7' }
    else if d == 8 { '8' }
    else { '9' }
}

fn append_decimal(s: &mut String, n: u64)
    ensures
        final(s)@ == old(s)@ + decimal(n as nat),
    decreases n,
{
    if n >= 10 {
        append_decimal(s, n / 10);
    }
    push_char(s, digit(n % 10));
    proof {
        if n >= 10 {
            assert(decimal(n as nat) == decimal((n / 10) as nat).push(digit_char((n % 10) as nat)));
        } else {
            assert(decimal(n as nat) == seq![digit_char(n as nat)]);
        }
    }
}

/// The decimal notation of `n`.
pub fn decimal_text(n: u64) -> (s: String)
    ensures
        s@ == decimal(n as nat),
{
    let mut s = String::new();
    append_decimal(&mut s, n);
    s
}

/// Whether `c` is a Unicode white space character.
pub fn white_space(c: char) -> (r: bool)
    ensures
        r == is_white_space(c),
{
    let u = c as u32;
    (0x9 <= u && u <= 0xD) || u == 0x20 || u == 0x85 || u == 0xA0 || u == 0x1680
        || (0x2000 <= u && u <= 0x200A) || u == 0x2028 || u == 0x2029 || u == 0x202F
        || u == 0x205F || u == 0x3000
}

/// `s` without leading and trailing white space.
pub fn trim_text(s: &str) -> (r: String)
    ensures
        r@ == trim(s@),
{
    let v = chars_of(s);
    let n = v.len();
    let mut lo: usize = 0;
    assert(v@.skip(0) =~= v@);
    while lo < n && white_space(v[lo])
        invariant
            n == v@.len(),
            0 <= lo <= n,
            trim_start(v@) == trim_start(v@.skip(lo as int)),
        decreases n - lo,
    {
        assert(v@.skip(lo as int).drop_first() =~= v@.skip(lo + 1));
        lo = lo + 1;
    }
    assert(trim_start(v@) == v@.subrange(lo as int, n as int)) by {
        assert(v@.skip(lo as int) =~= v@.subrange(lo as int, n as int));
    }
    let mut hi: usize = n;
    while hi > lo && white_space(v[hi - 1])
        invariant
            n == v@.len(),
            0 <= lo <= hi <= n,
            trim(v@) == trim_end(v@.subrange(lo as int, hi as int)),
        decreases hi - lo,
    {
        assert(v@.subrange(lo as int, hi as int).drop_last() =~= v@.subrange(lo as int, hi - 1));
        hi = hi - 1;
    }
    text_of_range(&v, lo, hi)
}

/// Whether `p` occurs in `v` at position `i`.
pub fn occurs_at_pos(v: &Vec<char>, p: &Vec<char>, i: usize) -> (r: bool)
    ensures
        r == occurs_at(v@, p@, i as int),
{
    if i > v.len() || p.len() > v.len() - i {
        return false;
    }
    let mut j: usize = 0;
    while j < p.len()
        invariant
            i + p.len() <= v.len(),
            0 <= j <= p.len(),
            forall|k: int| 0 <= k < j ==> v@[i + k] == p@[k],
        decreases p.len() - j,
    {
        if v[i + j] != p[j] {
            assert(v@.subrange(i as int, i + p.len())[j as int] != p@[j as int]);
            return false;
        }
        j = j + 1;
    }
    assert(v@.subrange(i as int, i + p.len()) =~= p@);
    true
}

/// Whether `p` occurs in `s`.
pub fn contains_str(s: &str, p: &str) -> (r: bool)
    ensures
        r == contains_text(s@, p@),
{
    let v = chars_of(s);
    let w = chars_of(p);
    if w.len() > v.len() {
        assert forall|i: int| !occurs_at(s@, p@, i) by {}
        return false;
    }
    let last = v.len() - w.len();
    let mut i: usize = 0;
    while i < last
        invariant
            v@ == s@,
            w@ == p@,
            last == v.len() - w.len(),
            0 <= i <= last,
            forall|k: int| 0 <= k < i ==> !occurs_at(s@, p@, k),
        decreases last - i,
    {
        if occurs_at_pos(&v, &w, i) {
            return true;
        }
        i = i + 1;
    }
    if occurs_at_pos(&v, &w, last) {
        return true;
    }
    assert forall|k: int| !occurs_at(s@, p@, k) by {
        if 0 <= k && k + p@.len() <= s@.len() {
            assert(k <= last);
        }
    }
    false
}

proof fn lemma_replace_step_match(s: Seq<char>, p: Seq<char>, r: Seq<char>, i: int)
    requires
        p.len() > 0,
        0 <= i,
        occurs_at(s, p, i),
    ensures
        replace_all(s.skip(i), p, r) == r + replace_all(s.skip(i + p.len()), p, r),
{
    assert(s.skip(i).take(p.len() as int) =~= s.subrange(i, i + p.len()));
    assert(s.skip(i).skip(p.len() as int) =~= s.skip(i + p.len()));
}

proof fn lemma_replace_step_miss(s: Seq<char>, p: Seq<char>, r: Seq<char>, i: int)
    requires
        p.len() > 0,
        0 <= i,
        i + p.len() <= s.len(),
        !occurs_at(s, p, i),
    ensures
        replace_all(s.skip(i), p, r) == seq![s[i]] + replace_all(s.skip(i + 1), p, r),
{
    assert(s.skip(i).take(p.len() as int) =~= s.subrange(i, i + p.len()));
    assert(s.skip(i).drop_first() =~= s.skip(i + 1));
}

/// `s` with every occurrence of `p` (left to right, without overlap)
/// replaced by `r`.
pub fn replace_text(s: &str, p: &str, r: &str) -> (out: String)
    requires
        p@.len() > 0,
    ensures
        out@ == replace_all(s@, p@, r@),
{
    let v = chars_of(s);
    let w = chars_of(p);
    let mut out = String::new();
    let mut i: usize = 0;
    assert(s@.skip(0) =~= s@);
    while i < v.len()
        invariant
            v@ == s@,
            w@ == p@,
            w.len() > 0,
            0 <= i <= v.len(),
            out@ + replace_all(s@.skip(i as int), p@, r@) == replace_all(s@, p@, r@),
        decreases v.len() - i,
    {
        if w.len() <= v.len() - i && occurs_at_pos(&v, &w, i) {
            proof { lemma_replace_step_match(s@, p@, r@, i as int); }
            out.append(r);
            i = i + w.len();
        } else if w.len() <= v.len() - i {
            proof { lemma_replace_step_miss(s@, p@, r@, i as int); }
            push_char(&mut out, v[i]);
            i = i + 1;
        } else {
            // too short for another occurrence: the rest is copied as it is
            assert(replace_all(s@.skip(i as int), p@, r@) == s@.skip(i as int));
            let rest = text_of_range(&v, i, v.len());
            assert(s@.skip(i as int) =~= v@.subrange(i as int, v.len() as int));
            out.append(rest.as_str());
            i = v.len();
            assert(s@.skip(i as int) =~= Seq::<char>::empty());
        }
    }
    assert(s@.skip(v.len() as int) =~= Seq::<char>::empty());
    out
}

/// The ASCII lower-case form of `c`.
pub fn to_ascii_lower(c: char) -> (r: char)
    ensures
        r == ascii_lower(c),
{
    if 'A' <= c && c <= 'Z' {
        let u = (c as u32) + 32;
        assert(u < 0xD800);
        char_of(u)
    } else {
        c
    }
}

/// Calls `char::from_u32`; claimed: below 0xD800 every code is a character,
/// and the one given back has code `u`, as its documentation says.
#[verifier::external_body]
fn char_of(u: u32) -> (c: char)
    requires
        u < 0xD800,
    ensures
        c as u32 == u,
{
    char::from_u32(u).unwrap()
}

/// Whether `a` and `b` are equal when ASCII letters are compared without case.
pub fn same_ignoring_ascii_case(a: &str, b: &str) -> (r: bool)
    ensures
        r == eq_ignore_ascii_case(a@, b@),
{
    let x = chars_of(a);
    let y = chars_of(b);
    if x.len() != y.len() {
        return false;
    }
    let mut i: usize = 0;
    while i < x.len()
        invariant
            x@ == a@,
            y@ == b@,
            x.len() == y.len(),
            0 <= i <= x.len(),
            forall|k: int| 0 <= k < i ==> ascii_lower(#[trigger] x@[k]) == ascii_lower(y@[k]),
        decreases x.len() - i,
    {
        if to_ascii_lower(x[i]) != to_ascii_lower(y[i]) {
            return false;
        }
        i = i + 1;
    }
    true
}

/// The views of a sequence of strings.
pub open spec fn views(v: Seq<String>) -> Seq<Seq<char>> {
    v.map_values(|x: String| x@)
}

/// The lines of `s`, as `str::lines` splits them.
pub fn lines_of(s: &str) -> (out: Vec<String>)
    ensures
        views(out@) == lines(s@),
{
    let v = chars_of(s);
    let mut out: Vec<String> = Vec::new();
    let mut start: usize = 0;
    assert(s@.skip(0) =~= s@);
    assert(views(out@) + lines(s@) =~= lines(s@));
    while start < v.len()
        invariant
            v@ == s@,
            0 <= start <= v.len(),
            views(out@) + lines(s@.skip(start as int)) == lines(s@),
        decreases v.len() - start,
    {
        let ghost rest = s@.skip(start as int);
        let ghost before = views(out@);
        let mut k = start;
        while k < v.len() && v[k] != '\n'
            invariant
                v@ == s@,
                start <= k <= v.len(),
                forall|j: int| start <= j < k ==> v@[j] != '\n',
            decreases v.len() - k,
        {
            k = k + 1;
        }
        proof { lemma_first_newline_from(rest, 0); }
        if k == v.len() {
            assert(first_newline_from(rest, 0) is None) by {
                if first_newline_from(rest, 0) is Some {
                    let q = first_newline_from(rest, 0)->0;
                    assert(rest[q] == v@[start + q]);
                }
            }
            let line = text_of_range(&v, start, k);
            assert(line@ =~= rest);
            assert(lines(rest) == seq![rest]);
            out.push(line);
            start = k;
            assert(s@.skip(start as int) =~= Seq::<char>::empty());
            assert(views(out@) =~= before.push(line@));
            assert(views(out@) + lines(s@.skip(start as int)) =~= before + lines(rest));
        } else {
            let ghost q = (k - start) as int;
            assert(first_newline_from(rest, 0) == Some(q)) by {
                let f = first_newline_from(rest, 0);
                if f is None {
                    assert(rest[q] == v@[k as int]);
                } else {
                    let g = f->0;
                    assert(rest[g] == v@[start + g]);
                    assert(rest[q] == v@[k as int]);
                }
            }
            let mut end = k;
            if end > start && v[end - 1] == '\r' {
                end = end - 1;
            }
            let line = text_of_range(&v, start, end);
            assert(line@ =~= strip_cr(rest.take(q)));
            assert(rest.skip(q + 1) =~= s@.skip(k + 1));
            assert(lines(rest) == seq![strip_cr(rest.take(q))] + lines(s@.skip(k + 1)));
            out.push(line);
            start = k + 1;
            assert(views(out@) =~= before.push(line@));
            assert(views(out@) + lines(s@.skip(start as int)) =~= before + lines(rest));
        }
    }
    assert(s@.skip(start as int) =~= Seq::<char>::empty());
    assert(views(out@) + lines(s@.skip(start as int)) =~= views(out@));
    out
}


// ── Order and joining ─────────────────────────────────────

/// `a` comes before `b` in the lexicographic order of code points (the
/// order of `String`).
pub open spec fn text_lt(a: Seq<char>, b: Seq<char>) -> bool
    decreases a.len(),
{
    if a.len() == 0 {
        b.len() > 0
    } else if b.len() == 0 {
        false
    } else if a[0] != b[0] {
        a[0] < b[0]
    } else {
        text_lt(a.drop_first(), b.drop_first())
    }
}

/// Each text of `s` comes before the later ones.
pub open spec fn strictly_sorted(s: Seq<Seq<char>>) -> bool {
    forall|i: int, j: int| 0 <= i < j < s.len() ==> text_lt(#[trigger] s[i], #[trigger] s[j])
}

/// The texts of `s`, with `sep` between each two.
pub open spec fn join_texts(s: Seq<Seq<char>>, sep: Seq<char>) -> Seq<char>
    decreases s.len(),
{
    if s.len() == 0 {
        seq![]
    } else if s.len() == 1 {
        s[0]
    } else {
        join_texts(s.drop_last(), sep) + sep + s.last()
    }
}

pub proof fn lemma_text_lt_irreflexive(a: Seq<char>)
    ensures
        !text_lt(a, a),
    decreases a.len(),
{
    if a.len() > 0 {
        lemma_text_lt_irreflexive(a.drop_first());
    }
}

pub proof fn lemma_text_lt_transitive(a: Seq<char>, b: Seq<char>, c: Seq<char>)
    requires
        text_lt(a, b),
        text_lt(b, c),
    ensures
        text_lt(a, c),
    decreases a.len(),
{
    if a.len() > 0 && b.len() > 0 && c.len() > 0 {
        if a[0] == b[0] && b[0] == c[0] {
            lemma_text_lt_transitive(a.drop_first(), b.drop_first(), c.drop_first());
        }
    }
}

pub proof fn lemma_text_lt_total(a: Seq<char>, b: Seq<char>)
    requires
        a != b,
    ensures
        text_lt(a, b) || text_lt(b, a),
    decreases a.len(),
{
    if a.len() > 0 && b.len() > 0 && a[0] == b[0] {
        if a.drop_first() == b.drop_first() {
            assert(a =~= seq![a[0]] + a.drop_first());
            assert(b =~= seq![b[0]] + b.drop_first());
        }
        lemma_text_lt_total(a.drop_first(), b.drop_first());
    } else if a.len() > 0 && b.len() > 0 {
    } else if a.len() == 0 && b.len() == 0 {
        assert(a =~= b);
    }
}

/// Whether `a` comes before `b` (see `text_lt`).
pub fn text_less(a: &str, b: &str) -> (r: bool)
    ensures
        r == text_lt(a@, b@),
{
    let x = chars_of(a);
    let y = chars_of(b);
    let mut i: usize = 0;
    assert(a@.skip(0) =~= a@);
    assert(b@.skip(0) =~= b@);
    while i < x.len() && i < y.len() && x[i] == y[i]
        invariant
            x@ == a@,
            y@ == b@,
            0 <= i <= x@.len(),
            i <= y@.len(),
            text_lt(a@, b@) == text_lt(a@.skip(i as int), b@.skip(i as int)),
        decreases x@.len() - i,
    {
        assert(a@.skip(i as int).drop_first() =~= a@.skip(i + 1));
        assert(b@.skip(i as int).drop_first() =~= b@.skip(i + 1));
        i = i + 1;
    }
    if i == x.len() {
        i < y.len()
    } else if i == y.len() {
        false
    } else {
        assert(a@.skip(i as int)[0] == x@[i as int]);
        assert(b@.skip(i as int)[0] == y@[i as int]);
        x[i] < y[i]
    }
}

/// The texts of `list`, with `sep` between each two.
pub fn join_with(list: &Vec<String>, sep: &str) -> (r: String)
    ensures
        r@ == join_texts(views(list@), sep@),
{
    let mut r = String::new();
    let mut i: usize = 0;
    while i < list.len()
        invariant
            0 <= i <= list@.len(),
            r@ == join_texts(views(list@).take(i as int), sep@),
        decreases list@.len() - i,
    {
        let ghost pre = views(list@).take(i as int);
        let ghost cur = views(list@).take(i + 1);
        assert(cur.drop_last() =~= pre);
        if i == 0 {
            r.append(list[i].as_str());
            assert(r@ =~= cur[0]);
        } else {
            r.append(sep);
            r.append(list[i].as_str());
        }
        i = i + 1;
    }
    assert(views(list@).take(list@.len() as int) =~= views(list@));
    r
}

proof fn lemma_sorted_insert(s: Seq<Seq<char>>, i: int, x: Seq<char>)
    requires
        strictly_sorted(s),
        0 <= i <= s.len(),
        forall|k: int| 0 <= k < i ==> text_lt(#[trigger] s[k], x),
        i < s.len() ==> text_lt(x, s[i]),
    ensures
        strictly_sorted(s.insert(i, x)),
{
    let t = s.insert(i, x);
    assert forall|p: int, q: int| 0 <= p < q < t.len() implies text_lt(#[trigger] t[p], #[trigger] t[q]) by {
        if q < i {
            assert(t[p] == s[p] && t[q] == s[q]);
        } else if q == i {
            assert(t[p] == s[p] && t[q] == x);
        } else if p < i {
            assert(t[p] == s[p] && t[q] == s[q - 1]);
            if i < s.len() {
                lemma_text_lt_transitive(s[p], x, s[i]);
                if q - 1 > i {
                    lemma_text_lt_transitive(s[p], s[i], s[q - 1]);
                }
            }
        } else if p == i {
            assert(t[p] == x && t[q] == s[q - 1]);
            if q - 1 > i {
                lemma_text_lt_transitive(x, s[i], s[q - 1]);
            }
        } else {
            assert(t[p] == s[p - 1] && t[q] == s[q - 1]);
        }
    }
}

/// Adds `item` to the sorted list `list` unless it is there already.
pub fn insert_sorted_unique(list: &mut Vec<String>, item: String)
    requires
        strictly_sorted(views(old(list)@)),
    ensures
        strictly_sorted(views(final(list)@)),
        views(final(list)@).to_set() == views(old(list)@).to_set().insert(item@),
{
    let ghost s = views(list@);
    let mut i: usize = 0;
    while i < list.len() && text_less(list[i].as_str(), item.as_str())
        invariant
            s == views(list@),
            0 <= i <= list@.len(),
            forall|k: int| 0 <= k < i ==> text_lt(#[trigger] s[k], item@),
        decreases list@.len() - i,
    {
        i = i + 1;
    }
    if i < list.len() && same_text(list[i].as_str(), item.as_str()) {
        assert(s.to_set().insert(item@) =~= s.to_set()) by {
            assert(s[i as int] == item@);
        }
        return;
    }
    proof {
        if i < s.len() {
            assert(s[i as int] != item@);
            lemma_text_lt_total(s[i as int], item@);
        }
        lemma_sorted_insert(s, i as int, item@);
    }
    let ghost item_view = item@;
    list.insert(i, item);
    assert(views(list@) =~= s.insert(i as int, item_view));
    assert(views(list@).to_set() =~= s.to_set().insert(item_view)) by {
        let t = views(list@);
        assert forall|x: Seq<char>| t.to_set().contains(x) <==> s.to_set().insert(item_view).contains(x) by {
            if t.to_set().contains(x) {
                let k = choose|k: int| 0 <= k < t.len() && t[k] == x;
                if k < i { assert(s[k] == x); } else if k > i { assert(s[k - 1] == x); }
            }
            if s.to_set().contains(x) {
                let k = choose|k: int| 0 <= k < s.len() && s[k] == x;
                if k < i { assert(t[k] == x); } else { assert(t[k + 1] == x); }
            }
            if x == item_view {
                assert(t[i as int] == x);
            }
        }
    }
}


// ── Prefixes, suffixes and dashes ─────────────────────────

/// `s` without its prefix `p`, when it has it.
pub open spec fn strip_prefix(s: Seq<char>, p: Seq<char>) -> Option<Seq<char>> {
    if p.is_prefix_of(s) {
        Some(s.skip(p.len() as int))
    } else {
        None
    }
}

/// `s` without every leading repetition of `p` (`p` not empty).
pub open spec fn trim_start_matches(s: Seq<char>, p: Seq<char>) -> Seq<char>
    decreases s.len(),
{
    if p.len() > 0 && p.is_prefix_of(s) {
        trim_start_matches(s.skip(p.len() as int), p)
    } else {
        s
    }
}

/// `s` without every trailing repetition of `p` (`p` not empty).
pub open spec fn trim_end_matches(s: Seq<char>, p: Seq<char>) -> Seq<char>
    decreases s.len(),
{
    if p.len() > 0 && p.is_suffix_of(s) {
        trim_end_matches(s.take(s.len() - p.len()), p)
    } else {
        s
    }
}

/// `s` without its `'-'` characters.
pub open spec fn remove_dashes(s: Seq<char>) -> Seq<char>
    decreases s.len(),
{
    if s.len() == 0 {
        seq![]
    } else if s.last() == '-' {
        remove_dashes(s.drop_last())
    } else {
        remove_dashes(s.drop_last()).push(s.last())
    }
}

/// The characters of `s` before its first `'-'` (all of them if none).
pub open spec fn first_segment(s: Seq<char>) -> Seq<char>
    decreases s.len(),
{
    if s.len() == 0 || s[0] == '-' {
        seq![]
    } else {
        seq![s[0]] + first_segment(s.drop_first())
    }
}

/// Whether `p` starts `v` at position `i`.
fn prefix_at(v: &Vec<char>, p: &Vec<char>, i: usize) -> (r: bool)
    requires
        i <= v@.len(),
    ensures
        r == p@.is_prefix_of(v@.skip(i as int)),
{
    let r = occurs_at_pos(v, p, i);
    assert(r == p@.is_prefix_of(v@.skip(i as int))) by {
        if i + p@.len() <= v@.len() {
            assert(v@.skip(i as int).take(p@.len() as int) =~= v@.subrange(i as int, i + p@.len()));
        }
    }
    r
}

/// `s` without its prefix `p`, when it has it.
pub fn strip_prefix_text(s: &str, p: &str) -> (r: Option<String>)
    ensures
        match r {
            Some(t) => strip_prefix(s@, p@) == Some(t@),
            None => strip_prefix(s@, p@) is None,
        },
{
    let v = chars_of(s);
    let w = chars_of(p);
    assert(v@.skip(0) =~= v@);
    if prefix_at(&v, &w, 0) {
        Some(text_of_range(&v, w.len(), v.len()))
    } else {
        None
    }
}

/// `s` without every leading repetition of `p`.
pub fn trim_start_matches_text(s: &str, p: &str) -> (r: String)
    requires
        p@.len() > 0,
    ensures
        r@ == trim_start_matches(s@, p@),
{
    let v = chars_of(s);
    let w = chars_of(p);
    let mut i: usize = 0;
    assert(v@.skip(0) =~= v@);
    while i < v.len() && prefix_at(&v, &w, i)
        invariant
            v@ == s@,
            w@ == p@,
            w@.len() > 0,
            0 <= i <= v@.len(),
            trim_start_matches(s@, p@) == trim_start_matches(v@.skip(i as int), p@),
        decreases v@.len() - i,
    {
        assert(v@.skip(i as int).skip(w@.len() as int) =~= v@.skip(i + w@.len()));
        i = i + w.len();
    }
    if i == v.len() {
        assert(v@.skip(i as int) =~= Seq::<char>::empty());
        assert(!w@.is_prefix_of(v@.skip(i as int)));
    }
    assert(v@.skip(i as int) =~= v@.subrange(i as int, v@.len() as int));
    text_of_range(&v, i, v.len())
}

/// `s` without every trailing repetition of `p`.
pub fn trim_end_matches_text(s: &str, p: &str) -> (r: String)
    requires
        p@.len() > 0,
    ensures
        r@ == trim_end_matches(s@, p@),
{
    let v = chars_of(s);
    let w = chars_of(p);
    let mut j: usize = v.len();
    assert(v@.take(j as int) =~= v@);
    while j >= w.len() && occurs_at_pos(&v, &w, j - w.len())
        invariant
            v@ == s@,
            w@ == p@,
            w@.len() > 0,
            0 <= j <= v@.len(),
            trim_end_matches(s@, p@) == trim_end_matches(v@.take(j as int), p@),
        decreases j,
    {
        assert(v@.take(j as int).subrange(j - w@.len(), j as int) =~= v@.subrange(j - w@.len(), j as int));
        assert(v@.take(j as int).take(j - w@.len()) =~= v@.take(j - w@.len()));
        j = j - w.len();
    }
    assert(!w@.is_suffix_of(v@.take(j as int))) by {
        if w@.is_suffix_of(v@.take(j as int)) {
            assert(v@.take(j as int).subrange(j - w@.len(), j as int) =~= v@.subrange(j - w@.len(), j as int));
        }
    }
    assert(v@.take(j as int) =~= v@.subrange(0, j as int));
    text_of_range(&v, 0, j)
}

/// `s` without its `'-'` characters.
pub fn remove_dashes_text(s: &str) -> (r: String)
    ensures
        r@ == remove_dashes(s@),
{
    let v = chars_of(s);
    let mut r = String::new();
    let mut i: usize = 0;
    assert(v@.take(0) =~= Seq::<char>::empty());
    while i < v.len()
        invariant
            v@ == s@,
            0 <= i <= v@.len(),
            r@ == remove_dashes(v@.take(i as int)),
        decreases v@.len() - i,
    {
        assert(v@.take(i + 1).drop_last() =~= v@.take(i as int));
        if v[i] != '-' {
            push_char(&mut r, v[i]);
        }
        i = i + 1;
    }
    assert(v@.take(v@.len() as int) =~= v@);
    r
}

/// The characters of `s` before its first `'-'`.
pub fn first_segment_text(s: &str) -> (r: String)
    ensures
        r@ == first_segment(s@),
{
    let v = chars_of(s);
    let mut i: usize = 0;
    assert(v@.skip(0) =~= v@);
    assert(v@.take(0) + first_segment(v@.skip(0)) =~= first_segment(v@));
    while i < v.len() && v[i] != '-'
        invariant
            v@ == s@,
            0 <= i <= v@.len(),
            forall|k: int| 0 <= k < i ==> v@[k] != '-',
            v@.take(i as int) + first_segment(v@.skip(i as int)) == first_segment(s@),
        decreases v@.len() - i,
    {
        assert(v@.skip(i as int).drop_first() =~= v@.skip(i + 1));
        assert(v@.take(i + 1) =~= v@.take(i as int) + seq![v@[i as int]]);
        assert(v@.take(i as int) + first_segment(v@.skip(i as int)) =~= v@.take(i + 1) + first_segment(v@.skip(i + 1)));
        i = i + 1;
    }
    assert(first_segment(v@.skip(i as int)) =~= Seq::<char>::empty());
    assert(v@.take(i as int) + Seq::<char>::empty() =~= v@.take(i as int));
    assert(v@.take(i as int) =~= v@.subrange(0, i as int));
    text_of_range(&v, 0, i)
}

/// The decimal notation of a signed number.
pub open spec fn signed_decimal(n: int) -> Seq<char> {
    if n < 0 {
        seq!['-'] + decimal((-n) as nat)
    } else {
        decimal(n as nat)
    }
}

/// The decimal notation of `n`, with a minus sign when it is negative.
pub fn signed_decimal_text(n: i64) -> (s: String)
    ensures
        s@ == signed_decimal(n as int),
{
    if n < 0 {
        let m: u64 = ((-(n + 1)) as u64) + 1;
        let mut s = String::new();
        push_char(&mut s, '-');
        let d = decimal_text(m);
        s.append(d.as_str());
        s
    } else {
        decimal_text(n as u64)
    }
}

} // verus!
