//! The client: what is sent for each kind of call, and what becomes of the
//! answer and of the conversation's history.

use crate::error::{OllamaError, OllamaErrorView};
use crate::history::MessagesHistory;
use crate::message::{ChatMessage, ChatMessageView};
use crate::request::{ChatMessageRequest, ChatMessageRequestView};
use crate::response::ChatMessageResponse;
use crate::stream::ChatStream;
use crate::transport::{ChatExchange, StreamOpening};
use vstd::prelude::*;
use vstd::string::{StrSliceExecFns, StringExecFns};

verus! {

/// The base URL of a service. It always ends in a slash, so that a path
/// can follow it.
struct BaseUrl {
    text: String,
}

impl BaseUrl {
    #[verifier::type_invariant]
    spec fn ends_in_slash(self) -> bool {
        self.text@.len() > 0 && self.text@.last() == '/'
    }

    fn new(address: String) -> (r: Self)
        ensures
            r.text@ == base_url(address@),
    {
        let length = address.as_str().unicode_len();
        let mut text = address;
        if length == 0 || text.as_str().get_char(length - 1) != '/' {
            proof {
                reveal_strlit("/");
            }
            text.append("/");
            assert(text@ =~= address@.push('/'));
        }
        BaseUrl { text }
    }

    fn as_str(&self) -> (r: &str)
        ensures
            r@ == self.text@,
            r@.len() > 0 && r@.last() == '/',
    {
        proof {
            use_type_invariant(self);
        }
        self.text.as_str()
    }
}

/// A client of one service: its base URL and the history of the
/// conversations held through it.
pub struct Ollama {
    url: BaseUrl,
    messages_history: MessagesHistory,
}

/// The base URL a client keeps for the address it was given: the address
/// itself where it ends in a slash, else the address and a slash.
pub open spec fn base_url(address: Seq<char>) -> Seq<char> {
    if address.len() > 0 && address.last() == '/' {
        address
    } else {
        address.push('/')
    }
}

/// The turns sent for a call: those stored for the conversation, then the
/// first of the messages the caller handed over, if there is one.
pub open spec fn prefill(stored: Seq<ChatMessageView>, request_messages: Seq<ChatMessageView>) -> Seq<
    ChatMessageView,
> {
    if request_messages.len() > 0 {
        stored.push(request_messages[0])
    } else {
        stored
    }
}

/// The history once a call on conversation `id` has been prepared: the new
/// turn, if there is one, is stored before anything is sent.
pub open spec fn history_after_prepare(
    history: Map<Seq<char>, Seq<ChatMessageView>>,
    id: Seq<char>,
    request_messages: Seq<ChatMessageView>,
) -> Map<Seq<char>, Seq<ChatMessageView>> {
    history.insert(id, prefill(history[id], request_messages))
}

/// The history once a prepared call on conversation `id` has been answered
/// with `reply`.
pub open spec fn history_after_success(
    history: Map<Seq<char>, Seq<ChatMessageView>>,
    id: Seq<char>,
    reply: ChatMessageView,
) -> Map<Seq<char>, Seq<ChatMessageView>> {
    history.insert(id, history[id].push(reply))
}

/// The history once the most recent turn of conversation `id` has been
/// taken back: what is done for a call that stored a turn and then failed,
/// or was answered without a reply.
pub open spec fn history_after_failure(
    history: Map<Seq<char>, Seq<ChatMessageView>>,
    id: Seq<char>,
) -> Map<Seq<char>, Seq<ChatMessageView>> {
    history.insert(id, MessagesHistory::without_last(history[id]))
}

/// What the error says that stands for a response without a reply.
pub open spec fn reply_missing() -> Seq<char> {
    "the response carries no message"@
}

impl Ollama {
    /// The base URL of the service.
    pub closed spec fn url(&self) -> Seq<char> {
        self.url.text@
    }

    /// The turns stored for each conversation. The map is total: a
    /// conversation without turns maps to the empty sequence.
    pub closed spec fn history(&self) -> Map<Seq<char>, Seq<ChatMessageView>> {
        self.messages_history@
    }

    /// Every conversation has an entry in the history.
    pub proof fn lemma_history_total(&self)
        ensures
            forall|id: Seq<char>| self.history().dom().contains(id),
    {
        self.messages_history.lemma_view_total();
    }

    /// A client of the service at `address`, with no conversation yet.
    pub fn new(address: String) -> (r: Self)
        ensures
            r.url() == base_url(address@),
            r.history() == MessagesHistory::empty(),
    {
        Ollama { url: BaseUrl::new(address), messages_history: MessagesHistory::new() }
    }

    /// The base URL of the service; it ends in a slash.
    pub fn url_str(&self) -> (r: &str)
        ensures
            r@ == self.url(),
            r@.len() > 0 && r@.last() == '/',
    {
        self.url.as_str()
    }

    /// The address chat requests are posted to.
    pub fn chat_url(&self) -> (r: String)
        ensures
            r@ == self.url() + "api/chat"@,
    {
        self.url.as_str().to_owned().concat("api/chat")
    }

    /// A copy of the turns stored for conversation `id`, oldest first.
    pub fn get_messages_history(&self, id: &str) -> (r: Vec<ChatMessage>)
        ensures
            r.deep_view() == self.history()[id@],
    {
        self.messages_history.snapshot(id)
    }

    /// The request as a single-shot call sends it: not streamed, whatever
    /// the caller had set.
    pub fn prepare_chat_messages(request: ChatMessageRequest) -> (r: ChatMessageRequest)
        ensures
            r@ == (ChatMessageRequestView { stream: false, ..request@ }),
    {
        let mut request = request;
        request.stream = false;
        request
    }

    /// The result of a single-shot call, given what came of the exchange.
    pub fn complete_chat_messages(exchange: ChatExchange) -> (r: Result<
        ChatMessageResponse,
        OllamaError,
    >)
        ensures
            match exchange {
                ChatExchange::SendFailed(description) => r == Err::<ChatMessageResponse, _>(
                    OllamaError::TransportError(description),
                ),
                ChatExchange::Refused(Ok(text)) => r == Err::<ChatMessageResponse, _>(
                    OllamaError::RemoteError(text),
                ),
                ChatExchange::Refused(Err(description)) => r == Err::<ChatMessageResponse, _>(
                    OllamaError::RemoteError(description),
                ),
                ChatExchange::Unreadable(description) => r == Err::<ChatMessageResponse, _>(
                    OllamaError::TransportError(description),
                ),
                ChatExchange::Answered(Ok(response)) => r == Ok::<_, OllamaError>(response),
                ChatExchange::Answered(Err(description)) => r == Err::<ChatMessageResponse, _>(
                    OllamaError::DecodeError(description),
                ),
            },
    {
        match exchange {
            ChatExchange::SendFailed(description) => Err(OllamaError::TransportError(description)),
            ChatExchange::Refused(Ok(text)) => Err(OllamaError::RemoteError(text)),
            ChatExchange::Refused(Err(description)) => Err(OllamaError::RemoteError(description)),
            ChatExchange::Unreadable(description) => Err(OllamaError::TransportError(description)),
            ChatExchange::Answered(Ok(response)) => Ok(response),
            ChatExchange::Answered(Err(description)) => Err(OllamaError::DecodeError(description)),
        }
    }

    /// The request as a streamed call sends it: streamed, whatever the
    /// caller had set.
    pub fn prepare_chat_messages_stream(request: ChatMessageRequest) -> (r: ChatMessageRequest)
        ensures
            r@ == (ChatMessageRequestView { stream: true, ..request@ }),
    {
        let mut request = request;
        request.stream = true;
        request
    }

    /// The result of opening a streamed call: a stream that has produced
    /// nothing yet, or the error that kept it from opening.
    pub fn complete_chat_messages_stream(opening: StreamOpening) -> (r: Result<
        ChatStream,
        OllamaError,
    >)
        ensures
            match opening {
                StreamOpening::SendFailed(description) => r matches Err(e) && e
                    == OllamaError::TransportError(description),
                StreamOpening::Refused(Ok(text)) => r matches Err(e) && e
                    == OllamaError::RemoteError(text),
                StreamOpening::Refused(Err(description)) => r matches Err(e) && e
                    == OllamaError::RemoteError(description),
                StreamOpening::Accepted => r matches Ok(stream) && !stream.ended(),
            },
    {
        match opening {
            StreamOpening::SendFailed(description) => Err(OllamaError::TransportError(description)),
            StreamOpening::Refused(Ok(text)) => Err(OllamaError::RemoteError(text)),
            StreamOpening::Refused(Err(description)) => Err(OllamaError::RemoteError(description)),
            StreamOpening::Accepted => Ok(ChatStream::new()),
        }
    }

    /// Stores `message` after the turns of conversation `id`.
    pub fn store_chat_message_by_id(&mut self, id: &str, message: ChatMessage)
        ensures
            final(self).url() == old(self).url(),
            final(self).history() == old(self).history().insert(
                id@,
                old(self).history()[id@].push(message@),
            ),
    {
        self.messages_history.append(id, message);
    }

    /// Stores the first of `request_messages`, if there is one, after the
    /// turns of conversation `history_id`, and returns a copy of the
    /// conversation as it then stands: what a call on it sends.
    pub fn get_prefill_messages(
        &mut self,
        history_id: &str,
        request_messages: Vec<ChatMessage>,
    ) -> (r: Vec<ChatMessage>)
        ensures
            final(self).url() == old(self).url(),
            final(self).history() == history_after_prepare(
                old(self).history(),
                history_id@,
                request_messages.deep_view(),
            ),
            r.deep_view() == prefill(
                old(self).history()[history_id@],
                request_messages.deep_view(),
            ),
    {
        if request_messages.len() > 0 {
            let message = request_messages[0].clone();
            self.messages_history.append(history_id, message);
        }
        proof {
            old(self).messages_history.lemma_view_total();
            assert(self.history() =~= history_after_prepare(
                old(self).history(),
                history_id@,
                request_messages.deep_view(),
            ));
        }
        self.messages_history.snapshot(history_id)
    }

    /// Takes back the most recent turn of conversation `history_id`; where
    /// the conversation has no turn, nothing changes.
    pub fn remove_history_last_message(&mut self, history_id: &str)
        ensures
            final(self).url() == old(self).url(),
            final(self).history() == history_after_failure(old(self).history(), history_id@),
            old(self).history()[history_id@].len() == 0 ==> final(self).history() == old(
                self,
            ).history(),
    {
        self.messages_history.rollback_last(history_id);
    }

    /// The first half of a call that keeps history: stores the caller's new
    /// turn, if the request brings one, and returns the request to send,
    /// which carries the whole conversation and is not streamed. With it
    /// comes whether a turn was stored, which the second half is told.
    pub fn prepare_chat_messages_with_history(
        &mut self,
        request: ChatMessageRequest,
        history_id: &str,
    ) -> (r: (ChatMessageRequest, bool))
        ensures
            final(self).url() == old(self).url(),
            final(self).history() == history_after_prepare(
                old(self).history(),
                history_id@,
                request@.messages,
            ),
            r.0@ == (ChatMessageRequestView {
                model_name: request@.model_name,
                messages: prefill(old(self).history()[history_id@], request@.messages),
                stream: false,
            }),
            r.1 == (request@.messages.len() > 0),
    {
        let ChatMessageRequest { model_name, messages, stream } = request;
        let turn_stored = messages.len() > 0;
        let messages = self.get_prefill_messages(history_id, messages);
        (Self::prepare_chat_messages(ChatMessageRequest { model_name, messages, stream }), turn_stored)
    }

    /// The second half of a call that keeps history, given whether the first
    /// half stored a turn and the result of the single-shot call made with
    /// the prepared request.
    ///
    /// A response with a reply is handed on as it came, and the reply is
    /// stored after the conversation's turns. An error is handed on as it
    /// came, and the turn that the first half stored, if it stored one, is
    /// taken back: the history is then as it was before the call. A response
    /// without a reply does not have the shape of an answer: the stored turn
    /// is taken back likewise, and the call ends in a `DecodeError`.
    pub fn complete_chat_messages_with_history(
        &mut self,
        history_id: &str,
        turn_stored: bool,
        result: Result<ChatMessageResponse, OllamaError>,
    ) -> (r: Result<ChatMessageResponse, OllamaError>)
        ensures
            final(self).url() == old(self).url(),
            match result {
                Ok(response) => match response.message {
                    Some(reply) => {
                        &&& r == result
                        &&& final(self).history() == history_after_success(
                            old(self).history(),
                            history_id@,
                            reply@,
                        )
                    },
                    None => {
                        &&& r matches Err(error)
                        &&& error@ == OllamaErrorView::DecodeError(reply_missing())
                        &&& final(self).history() == if turn_stored {
                            history_after_failure(old(self).history(), history_id@)
                        } else {
                            old(self).history()
                        }
                    },
                },
                Err(_) => {
                    &&& r == result
                    &&& final(self).history() == if turn_stored {
                        history_after_failure(old(self).history(), history_id@)
                    } else {
                        old(self).history()
                    }
                },
            },
    {
        match result {
            Ok(response) => {
                let reply = match &response.message {
                    Some(message) => Some(message.clone()),
                    None => None,
                };
                match reply {
                    Some(reply) => {
                        self.store_chat_message_by_id(history_id, reply);
                        Ok(response)
                    },
                    None => {
                        if turn_stored {
                            self.remove_history_last_message(history_id);
                        }
                        Err(OllamaError::DecodeError("the response carries no message".to_owned()))
                    },
                }
            },
            Err(error) => {
                if turn_stored {
                    self.remove_history_last_message(history_id);
                }
                Err(error)
            },
        }
    }
}

} // verus!
