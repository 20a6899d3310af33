//! The message that a WeChat work group robot accepts.

use vstd::prelude::*;

verus! {

/// A robot message.
#[derive(Debug)]
pub struct WebhookEvent {
    pub msg_type: String,
    pub markdown: MarkDown,
}

/// The markdown text of a robot message.
#[derive(Debug)]
pub struct MarkDown {
    pub content: String,
}

/// A robot message, as text.
pub struct WebhookEventView {
    pub msg_type: Seq<char>,
    pub content: Seq<char>,
}

impl View for WebhookEvent {
    type V = WebhookEventView;

    open spec fn view(&self) -> WebhookEventView {
        WebhookEventView { msg_type: self.msg_type@, content: self.markdown.content@ }
    }
}

} // verus!
