//! What is sent to the service.

use crate::message::{ChatMessage, ChatMessageView};
use vstd::prelude::*;

verus! {

/// A request for a completion: the model to ask and the conversation so far.
///
/// Whatever `stream` holds when the request is handed over, each kind of
/// call overrides it before the request is sent.
#[derive(Debug, PartialEq, Eq)]
pub struct ChatMessageRequest {
    pub model_name: String,
    pub messages: Vec<ChatMessage>,
    pub stream: bool,
}

/// What a request is, as a mathematical value.
pub struct ChatMessageRequestView {
    pub model_name: Seq<char>,
    pub messages: Seq<ChatMessageView>,
    pub stream: bool,
}

impl View for ChatMessageRequest {
    type V = ChatMessageRequestView;

    open spec fn view(&self) -> ChatMessageRequestView {
        ChatMessageRequestView {
            model_name: self.model_name@,
            messages: self.messages.deep_view(),
            stream: self.stream,
        }
    }
}

impl Clone for ChatMessageRequest {
    fn clone(&self) -> (r: Self)
        ensures
            r@ == self@,
    {
        let messages = self.messages.clone();
        assert(messages.deep_view() =~= self.messages.deep_view());
        ChatMessageRequest { model_name: self.model_name.clone(), messages, stream: self.stream }
    }
}

impl ChatMessageRequest {
    /// A request to `model_name` with the given messages, not streamed.
    pub fn new(model_name: String, messages: Vec<ChatMessage>) -> (r: Self)
        ensures
            r@ == (ChatMessageRequestView {
                model_name: model_name@,
                messages: messages.deep_view(),
                stream: false,
            }),
    {
        Self { model_name, messages, stream: false }
    }
}

} // verus!
