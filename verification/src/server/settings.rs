//! Settings: API keys, team members, notifications, secrets, integrations.
use vstd::prelude::*;
use crate::engine::model::opt_view;
use crate::server::auth::account_key_name;
use crate::text::same_text;

verus! {

/// A stored API key; only its hash is kept.
pub struct ApiKey {
    pub id: String,
    pub name: String,
    pub key_hash: String,
    pub scopes: String,
    pub status: String,
    pub created_at: Option<String>,
    pub last_used: Option<String>,
}

/// A request for a new API key.
pub struct CreateApiKeyRequest {
    pub name: String,
}

/// A new API key made on request: it may read and write, and is active.
pub fn new_api_key(id: String, req: &CreateApiKeyRequest, key_hash: String) -> (k: ApiKey)
    ensures
        k.id@ == id@ && k.name@ == req.name@ && k.key_hash@ == key_hash@,
        k.scopes@ == "read,write"@ && k.status@ == "active"@,
        k.created_at is None && k.last_used is None,
{
    ApiKey {
        id,
        name: req.name.clone(),
        key_hash,
        scopes: "read,write".to_owned(),
        status: "active".to_owned(),
        created_at: None,
        last_used: None,
    }
}

/// The API key made for an account: named after it, it may read, write and
/// execute, and is active.
pub fn account_api_key(id: String, account_name: &str, key_hash: String) -> (k: ApiKey)
    ensures
        k.id@ == id@ && k.name@ == account_name@ + "'s key"@ && k.key_hash@ == key_hash@,
        k.scopes@ == "read,write,execute"@ && k.status@ == "active"@,
        k.created_at is None && k.last_used is None,
{
    ApiKey {
        id,
        name: account_key_name(account_name),
        key_hash,
        scopes: "read,write,execute".to_owned(),
        status: "active".to_owned(),
        created_at: None,
        last_used: None,
    }
}

/// A member of the team.
pub struct TeamMember {
    pub id: String,
    pub name: String,
    pub email: String,
    pub role: String,
    pub status: String,
    pub joined_at: Option<String>,
}

/// A request to add a member to the team.
pub struct CreateTeamMemberRequest {
    pub name: String,
    pub email: String,
    pub role: Option<String>,
}

/// A new team member: a viewer unless another role is given, and active.
pub fn new_team_member(id: String, req: &CreateTeamMemberRequest, joined_at: String) -> (m: TeamMember)
    ensures
        m.id@ == id@ && m.name@ == req.name@ && m.email@ == req.email@,
        m.role@ == match req.role {
            Some(r) => r@,
            None => "viewer"@,
        },
        m.status@ == "active"@,
        opt_view(m.joined_at) == Some(joined_at@),
{
    TeamMember {
        id,
        name: req.name.clone(),
        email: req.email.clone(),
        role: match &req.role {
            Some(r) => r.clone(),
            None => "viewer".to_owned(),
        },
        status: "active".to_owned(),
        joined_at: Some(joined_at),
    }
}

/// How and when alerts are sent.
pub struct NotificationSettings {
    pub id: String,
    pub email_alerts: i64,
    pub slack_webhook: Option<String>,
    pub digest_frequency: String,
    pub alert_severity: String,
}

/// The settings in force when none are stored: email alerts on, a daily
/// digest, alerts from medium severity, no Slack hook.
pub fn default_notification_settings() -> (s: NotificationSettings)
    ensures
        s.id@ == "default"@ && s.email_alerts == 1 && s.slack_webhook is None,
        s.digest_frequency@ == "daily"@ && s.alert_severity@ == "medium"@,
{
    NotificationSettings {
        id: "default".to_owned(),
        email_alerts: 1,
        slack_webhook: None,
        digest_frequency: "daily".to_owned(),
        alert_severity: "medium".to_owned(),
    }
}

/// A request to change some notification settings.
pub struct UpdateNotificationsRequest {
    pub email_alerts: Option<i64>,
    pub slack_webhook: Option<String>,
    pub digest_frequency: Option<String>,
    pub alert_severity: Option<String>,
}

/// One change of the notification settings.
pub enum NotificationChange {
    EmailAlerts(i64),
    SlackWebhook(String),
    DigestFrequency(String),
    AlertSeverity(String),
}

/// A change of the notification settings, by its view.
pub enum ChangeView {
    EmailAlerts(i64),
    SlackWebhook(Seq<char>),
    DigestFrequency(Seq<char>),
    AlertSeverity(Seq<char>),
}

pub open spec fn change_view(c: NotificationChange) -> ChangeView {
    match c {
        NotificationChange::EmailAlerts(v) => ChangeView::EmailAlerts(v),
        NotificationChange::SlackWebhook(v) => ChangeView::SlackWebhook(v@),
        NotificationChange::DigestFrequency(v) => ChangeView::DigestFrequency(v@),
        NotificationChange::AlertSeverity(v) => ChangeView::AlertSeverity(v@),
    }
}

/// The changes a request asks for: one for each field given, in the order
/// email alerts, Slack hook, digest frequency, alert severity.
pub open spec fn changes_of(req: UpdateNotificationsRequest) -> Seq<ChangeView> {
    (match req.email_alerts { Some(v) => seq![ChangeView::EmailAlerts(v)], None => seq![] })
        + (match req.slack_webhook { Some(v) => seq![ChangeView::SlackWebhook(v@)], None => seq![] })
        + (match req.digest_frequency { Some(v) => seq![ChangeView::DigestFrequency(v@)], None => seq![] })
        + (match req.alert_severity { Some(v) => seq![ChangeView::AlertSeverity(v@)], None => seq![] })
}

/// The changes a request asks for (see `changes_of`).
pub fn notification_changes(req: &UpdateNotificationsRequest) -> (r: Vec<NotificationChange>)
    ensures
        r@.map_values(|c: NotificationChange| change_view(c)) == changes_of(*req),
{
    let mut r: Vec<NotificationChange> = Vec::new();
    if let Some(v) = req.email_alerts {
        r.push(NotificationChange::EmailAlerts(v));
    }
    if let Some(v) = &req.slack_webhook {
        r.push(NotificationChange::SlackWebhook(v.clone()));
    }
    if let Some(v) = &req.digest_frequency {
        r.push(NotificationChange::DigestFrequency(v.clone()));
    }
    if let Some(v) = &req.alert_severity {
        r.push(NotificationChange::AlertSeverity(v.clone()));
    }
    assert(r@.map_values(|c: NotificationChange| change_view(c)) =~= changes_of(*req));
    r
}

/// A stored secret.
pub struct Secret {
    pub id: String,
    pub key: String,
    pub value: String,
    pub created_at: Option<String>,
}

/// A request to store a secret.
pub struct CreateSecretRequest {
    pub key: String,
    pub value: String,
}

/// A new secret, as requested.
pub fn new_secret(id: String, req: &CreateSecretRequest) -> (s: Secret)
    ensures
        s.id@ == id@ && s.key@ == req.key@ && s.value@ == req.value@ && s.created_at is None,
{
    Secret { id, key: req.key.clone(), value: req.value.clone(), created_at: None }
}

/// When an integration counts as connected: now, if its new status is
/// `connected`; otherwise it has no connection time.
pub fn integration_connected_at(status: &str, now: &str) -> (r: Option<String>)
    ensures
        opt_view(r) == if status@ == "connected"@ { Some(now@) } else { None },
{
    if same_text(status, "connected") { Some(now.to_owned()) } else { None }
}

} // verus!
