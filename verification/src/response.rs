//! What the service answers: one response, or one chunk of a streamed answer.

use crate::message::{ChatMessage, ChatMessageView};
use vstd::prelude::*;

verus! {

/// The statistics that close a completed answer.
#[derive(Clone, Copy, Debug, PartialEq, Eq, Structural)]
pub struct ChatMessageFinalResponseData {
    /// Time spent generating the response.
    pub total_duration: u64,
    /// Number of tokens in the prompt.
    pub prompt_eval_count: u16,
    /// Time spent evaluating the prompt, in nanoseconds.
    pub prompt_eval_duration: u64,
    /// Number of tokens in the response.
    pub eval_count: u16,
    /// Time spent generating the response, in nanoseconds.
    pub eval_duration: u64,
}

/// One response of the service.
#[derive(Debug, PartialEq, Eq)]
pub struct ChatMessageResponse {
    /// The name of the model that answered.
    pub model: String,
    /// When the answer was created, as the service formats it.
    pub created_at: String,
    /// The reply, where this response carries one.
    pub message: Option<ChatMessage>,
    /// Whether the answer is complete.
    pub done: bool,
    /// The closing statistics, sent with a complete answer.
    pub final_data: Option<ChatMessageFinalResponseData>,
}

/// What a response is, as a mathematical value.
pub struct ChatMessageResponseView {
    pub model: Seq<char>,
    pub created_at: Seq<char>,
    pub message: Option<ChatMessageView>,
    pub done: bool,
    pub final_data: Option<ChatMessageFinalResponseData>,
}

impl View for ChatMessageResponse {
    type V = ChatMessageResponseView;

    open spec fn view(&self) -> ChatMessageResponseView {
        ChatMessageResponseView {
            model: self.model@,
            created_at: self.created_at@,
            message: match self.message {
                Some(message) => Some(message@),
                None => None,
            },
            done: self.done,
            final_data: self.final_data,
        }
    }
}

impl DeepView for ChatMessageResponse {
    type V = ChatMessageResponseView;

    open spec fn deep_view(&self) -> ChatMessageResponseView {
        self@
    }
}

impl Clone for ChatMessageResponse {
    fn clone(&self) -> (r: Self)
        ensures
            r@ == self@,
    {
        ChatMessageResponse {
            model: self.model.clone(),
            created_at: self.created_at.clone(),
            message: match &self.message {
                Some(message) => Some(message.clone()),
                None => None,
            },
            done: self.done,
            final_data: self.final_data,
        }
    }
}

} // verus!
