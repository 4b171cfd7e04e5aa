//! Alerts: what is reported, and what is posted for it.

use crate::settings::DiscordAlertingSettings;
use crate::text::push_text;
use vstd::prelude::*;

verus! {

/// How grave an alert is.
#[derive(Clone, Copy, Debug, PartialEq, Eq, Structural)]
pub enum AlertType {
    Info,
    Error,
}

/// Something to report.
#[derive(Clone, Debug, PartialEq, Eq)]
pub struct Alert {
    pub alert_type: AlertType,
    pub message: String,
}

/// The box under an error alert.
#[derive(Clone, Debug, PartialEq, Eq)]
pub struct AlertEmbed {
    pub title: String,
    pub description: String,
    pub color: u32,
}

/// What is posted for an alert: a line of text, and for an error a box
/// under it.
#[derive(Clone, Debug, PartialEq, Eq)]
pub struct AlertBody {
    pub content: String,
    pub embed: Option<AlertEmbed>,
}

/// The colour of the box of an error: red.
pub const ERROR_COLOR: u32 = 0xff0000;

/// The mention of the owner, `<@owner>`; nothing where there is no owner.
pub open spec fn mention_text(owner: Option<String>) -> Seq<char> {
    match owner {
        Some(o) => "<@"@ + o@ + ">"@,
        None => Seq::empty(),
    }
}

/// What the body of an alert must be: an error mentions the owner and
/// carries the message in a red box titled `ERROR`; anything else is one
/// line, `**INFO** ` and the message.
pub open spec fn body_of(alert: Alert, owner: Option<String>, body: AlertBody) -> bool {
    match alert.alert_type {
        AlertType::Error => {
            &&& body.content@ == mention_text(owner)
            &&& body.embed matches Some(e) && e.title@ == "ERROR"@ && e.description@
                == alert.message@ && e.color == ERROR_COLOR
        },
        AlertType::Info => {
            &&& body.content@ == "**INFO** "@ + alert.message@
            &&& body.embed is None
        },
    }
}

impl Alert {
    /// An alert.
    pub fn new(alert_type: AlertType, message: String) -> (r: Self)
        ensures
            r.alert_type == alert_type,
            r.message == message,
    {
        Self { alert_type, message }
    }

    /// An alert of an error.
    pub fn error(message: &str) -> (r: Self)
        ensures
            r.alert_type == AlertType::Error,
            r.message@ == message@,
    {
        Alert::new(AlertType::Error, message.to_owned())
    }

    /// An alert that tells something.
    pub fn info(message: &str) -> (r: Self)
        ensures
            r.alert_type == AlertType::Info,
            r.message@ == message@,
    {
        Alert::new(AlertType::Info, message.to_owned())
    }

    /// What is posted for the alert.
    pub fn body(&self, owner: &Option<String>) -> (body: AlertBody)
        ensures
            body_of(*self, *owner, body),
    {
        match self.alert_type {
            AlertType::Error => {
                let mut content = String::new();
                match owner {
                    Some(o) => {
                        push_text(&mut content, "<@");
                        push_text(&mut content, o.as_str());
                        push_text(&mut content, ">");
                    },
                    None => {},
                }
                AlertBody {
                    content,
                    embed: Some(
                        AlertEmbed {
                            title: "ERROR".to_owned(),
                            description: self.message.clone(),
                            color: ERROR_COLOR,
                        },
                    ),
                }
            },
            AlertType::Info => {
                let mut content = String::new();
                push_text(&mut content, "**INFO** ");
                push_text(&mut content, self.message.as_str());
                AlertBody { content, embed: None }
            },
        }
    }
}

/// Where an alert is posted: the webhook of the settings, if alerting is on
/// and a webhook is set.
pub fn alert_target(config: &DiscordAlertingSettings) -> (r: Option<String>)
    ensures
        r is Some <==> config.enabled && config.webhook_url is Some,
        r matches Some(url) ==> config.webhook_url matches Some(w) && url@ == w@,
{
    if config.enabled {
        match &config.webhook_url {
            Some(url) => Some(url.clone()),
            None => None,
        }
    } else {
        None
    }
}

} // verus!
