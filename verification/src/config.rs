//! Runtime configuration of the notification service.

use vstd::prelude::*;

verus! {

/// Where scan notifications are delivered.
#[derive(Debug)]
pub enum NotifyType {
    Wechat,
}

impl NotifyType {
    /// The name under which the configuration spells this channel.
    pub fn as_str(&self) -> (s: &'static str)
        ensures
            s@ == "wechat"@,
    {
        match self {
            NotifyType::Wechat => "wechat",
        }
    }
}

/// The whole runtime configuration.
#[derive(Debug)]
pub struct RuntimeConfig {
    pub notification: Notification,
    pub github: GithubConfig,
}

/// The repository where scan findings are filed as issues.
#[derive(Debug)]
pub struct GithubConfig {
    pub owner: String,
    pub repo: String,
    pub token: String,
}

/// The notification channel and its webhook address.
#[derive(Debug)]
pub struct Notification {
    pub notify_type: NotifyType,
    pub url: String,
}

} // verus!
