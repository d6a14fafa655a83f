//! Accounts: what registration and login decide.
use vstd::prelude::*;
use crate::casemap::{lower_case, to_lower};
use crate::text::{ascii_lower, is_ascii_text, join2, same_text, strip_prefix, strip_prefix_text, trim, trim_text};

verus! {

/// A request to open an account.
pub struct RegisterRequest {
    pub name: String,
    pub email: String,
    pub password: String,
}

/// A request to sign in.
pub struct LoginRequest {
    pub email: String,
    pub password: String,
}

/// An account to be opened: the trimmed name and the normalized email.
pub struct Registration {
    pub name: String,
    pub email: String,
}

/// Why a registration is refused.
#[derive(Debug, PartialEq, Eq, Structural)]
pub enum RegistrationError {
    /// The name or email is blank, or the password is shorter than six bytes.
    MissingFields,
}

impl RegistrationError {
    /// The message shown for the error.
    pub fn message(&self) -> (m: &'static str)
        ensures
            m@ == "Name, email, and password (min 6 characters) are required."@,
    {
        "Name, email, and password (min 6 characters) are required."
    }
}

/// An email as accounts store it: trimmed and in lower case.
pub open spec fn normal_email(email: Seq<char>) -> Seq<char> {
    lower_case(trim(email))
}

/// An email as accounts store it: trimmed and in lower case.
pub fn normalize_email(email: &str) -> (r: String)
    ensures
        r@ == normal_email(email@),
        r@.len() == 0 <==> trim(email@).len() == 0,
        is_ascii_text(trim(email@)) ==> r@ == trim(email@).map_values(|c: char| ascii_lower(c)),
{
    let t = trim_text(email);
    to_lower(t.as_str())
}

/// Checks a registration: the name and the email must not be blank once
/// trimmed, and the password must be at least six bytes long in UTF-8.
pub fn validate_registration(req: &RegisterRequest) -> (r: Result<Registration, RegistrationError>)
    ensures
        r is Ok <==> (trim(req.name@).len() > 0 && trim(req.email@).len() > 0
            && vstd::utf8::encode_utf8(req.password@).len() as usize >= 6),
        r matches Ok(reg) ==> reg.name@ == trim(req.name@) && reg.email@ == normal_email(req.email@),
{
    let name = trim_text(req.name.as_str());
    let email = normalize_email(req.email.as_str());
    if name.as_str().is_empty() || email.as_str().is_empty() || req.password.as_str().len() < 6 {
        return Err(RegistrationError::MissingFields);
    }
    Ok(Registration { name, email })
}

/// The role of a new account: the first account, or one whose email is the
/// bootstrap administrator's, is an administrator; any other is a user.
pub fn new_account_role(existing_accounts: i64, bootstrap_admin: bool) -> (r: &'static str)
    ensures
        r@ == if existing_accounts == 0 || bootstrap_admin { "admin"@ } else { "user"@ },
{
    if existing_accounts == 0 || bootstrap_admin { "admin" } else { "user" }
}

/// The role an account has on signing in: the bootstrap administrator is
/// raised to administrator; any other keeps its role.
pub fn effective_role(role: &str, bootstrap_admin: bool) -> (r: String)
    ensures
        r@ == if bootstrap_admin && role@ != "admin"@ { "admin"@ } else { role@ },
{
    if bootstrap_admin && !same_text(role, "admin") {
        "admin".to_owned()
    } else {
        role.to_owned()
    }
}

/// The token of an `Authorization` header of the form `Bearer <token>`.
pub fn bearer_token(header: &str) -> (r: Option<String>)
    ensures
        match r {
            Some(t) => strip_prefix(header@, "Bearer "@) == Some(t@),
            None => strip_prefix(header@, "Bearer "@) is None,
        },
{
    strip_prefix_text(header, "Bearer ")
}

/// The name of the API key made for an account.
pub fn account_key_name(name: &str) -> (r: String)
    ensures
        r@ == name@ + "'s key"@,
{
    join2(name, "'s key")
}

/// The pattern that finds the API keys named after an account.
pub fn account_key_pattern(name: &str) -> (r: String)
    ensures
        r@ == name@ + "%"@,
{
    join2(name, "%")
}

} // verus!
