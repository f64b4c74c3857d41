//! Alert channels: where an alert is delivered, and how its severity is
//! shown.

use vstd::prelude::*;

verus! {

/// How serious an alert is.
#[derive(Debug, Clone, Copy, PartialEq, Eq, Structural)]
pub enum AlertSeverity {
    Info,
    Warning,
    Error,
    Critical,
}

/// The colour that shows a severity in a chat message.
pub open spec fn severity_color(severity: AlertSeverity) -> Seq<char> {
    match severity {
        AlertSeverity::Info => "#36a64f"@,
        AlertSeverity::Warning => "#ff9900"@,
        AlertSeverity::Error => "#ff0000"@,
        AlertSeverity::Critical => "#8b0000"@,
    }
}

/// Delivery to a Slack incoming webhook.
pub struct SlackChannel {
    webhook_url: String,
}

impl SlackChannel {
    pub fn new(webhook_url: String) -> (r: Self)
        ensures
            r.spec_webhook_url() == webhook_url@,
    {
        SlackChannel { webhook_url }
    }

    pub closed spec fn spec_webhook_url(&self) -> Seq<char> {
        self.webhook_url@
    }

    pub fn webhook_url(&self) -> (r: &str)
        ensures
            r@ == self.spec_webhook_url(),
    {
        self.webhook_url.as_str()
    }

    /// The attachment colour of an alert of the given severity.
    pub fn get_color(&self, severity: &AlertSeverity) -> (r: &'static str)
        ensures
            r@ == severity_color(*severity),
    {
        match severity {
            AlertSeverity::Info => "#36a64f",
            AlertSeverity::Warning => "#ff9900",
            AlertSeverity::Error => "#ff0000",
            AlertSeverity::Critical => "#8b0000",
        }
    }
}

/// Delivery to a generic HTTP webhook.
pub struct WebhookChannel {
    url: String,
}

impl WebhookChannel {
    pub fn new(url: String) -> (r: Self)
        ensures
            r.spec_url() == url@,
    {
        WebhookChannel { url }
    }

    pub closed spec fn spec_url(&self) -> Seq<char> {
        self.url@
    }

    pub fn url(&self) -> (r: &str)
        ensures
            r@ == self.spec_url(),
    {
        self.url.as_str()
    }
}

} // verus!
