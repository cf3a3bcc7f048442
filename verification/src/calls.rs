//! What holds of whole calls that keep history, and of runs of them on one
//! conversation.

use crate::client::{
    history_after_failure, history_after_prepare, history_after_success, prefill, Ollama,
};
use crate::message::ChatMessageView;
use vstd::prelude::*;

verus! {

/// A call that the service answered: the messages the caller handed over
/// and the reply that came back.
pub struct AnsweredCall {
    pub request_messages: Seq<ChatMessageView>,
    pub reply: ChatMessageView,
}

/// The history once a call on conversation `id` has been prepared and then
/// answered.
pub open spec fn history_after_answered_call(
    history: Map<Seq<char>, Seq<ChatMessageView>>,
    id: Seq<char>,
    call: AnsweredCall,
) -> Map<Seq<char>, Seq<ChatMessageView>> {
    history_after_success(
        history_after_prepare(history, id, call.request_messages),
        id,
        call.reply,
    )
}

/// The history once a call on conversation `id` has been prepared and has
/// then failed, or has been answered without a reply: the turn that
/// preparing stored, if it stored one, is taken back.
pub open spec fn history_after_failed_call(
    history: Map<Seq<char>, Seq<ChatMessageView>>,
    id: Seq<char>,
    request_messages: Seq<ChatMessageView>,
) -> Map<Seq<char>, Seq<ChatMessageView>> {
    let prepared = history_after_prepare(history, id, request_messages);
    if request_messages.len() > 0 {
        history_after_failure(prepared, id)
    } else {
        prepared
    }
}

/// The history once `calls` have been made on conversation `id`, one after
/// the other, and each has been answered.
pub open spec fn history_after_answered_calls(
    history: Map<Seq<char>, Seq<ChatMessageView>>,
    id: Seq<char>,
    calls: Seq<AnsweredCall>,
) -> Map<Seq<char>, Seq<ChatMessageView>>
    decreases calls.len(),
{
    if calls.len() == 0 {
        history
    } else {
        history_after_answered_call(
            history_after_answered_calls(history, id, calls.drop_last()),
            id,
            calls.last(),
        )
    }
}

/// The turns that answered calls add to a conversation: for each call, in
/// order, the turn it sent, if it sent one, and the reply.
pub open spec fn transcript(calls: Seq<AnsweredCall>) -> Seq<ChatMessageView>
    decreases calls.len(),
{
    if calls.len() == 0 {
        Seq::empty()
    } else {
        transcript(calls.drop_last()) + prefill(Seq::empty(), calls.last().request_messages).push(
            calls.last().reply,
        )
    }
}

/// The turns sent and the replies received, taken in turn: a turn sent,
/// its reply, the next turn sent, its reply, and so on.
pub open spec fn interleaving(sent: Seq<ChatMessageView>, received: Seq<ChatMessageView>) -> Seq<
    ChatMessageView,
> {
    Seq::new(
        2 * sent.len(),
        |i: int|
            if i % 2 == 0 {
                sent[i / 2]
            } else {
                received[i / 2]
            },
    )
}

/// The turn each call sent: the first of the messages handed over.
pub open spec fn turns_sent(calls: Seq<AnsweredCall>) -> Seq<ChatMessageView> {
    Seq::new(calls.len(), |k: int| calls[k].request_messages[0])
}

/// The reply each call received.
pub open spec fn replies_received(calls: Seq<AnsweredCall>) -> Seq<ChatMessageView> {
    Seq::new(calls.len(), |k: int| calls[k].reply)
}

/// After any run of answered calls on one conversation, that conversation
/// holds what it held before and then the transcript of the calls; every
/// other conversation holds what it held before.
pub proof fn answered_calls_extend_history(client: Ollama, id: Seq<char>, calls: Seq<AnsweredCall>)
    ensures
        history_after_answered_calls(client.history(), id, calls) == client.history().insert(
            id,
            client.history()[id] + transcript(calls),
        ),
    decreases calls.len(),
{
    client.lemma_history_total();
    let history = client.history();
    if calls.len() == 0 {
        assert(history[id] + transcript(calls) =~= history[id]);
        assert(history =~= history.insert(id, history[id] + transcript(calls)));
    } else {
        let earlier = calls.drop_last();
        answered_calls_extend_history(client, id, earlier);
        let before = history_after_answered_calls(history, id, earlier);
        let call = calls.last();
        assert(history_after_answered_call(before, id, call)[id] =~= history[id] + transcript(
            calls,
        ));
        assert(history_after_answered_call(before, id, call) =~= history.insert(
            id,
            history[id] + transcript(calls),
        ));
    }
}

/// Where each call sends a turn, the transcript of the calls is the turns
/// sent and the replies received, taken in turn.
pub proof fn transcript_interleaves(calls: Seq<AnsweredCall>)
    requires
        forall|k: int| 0 <= k < calls.len() ==> (#[trigger] calls[k]).request_messages.len() > 0,
    ensures
        transcript(calls) == interleaving(turns_sent(calls), replies_received(calls)),
    decreases calls.len(),
{
    if calls.len() == 0 {
        assert(transcript(calls) =~= interleaving(turns_sent(calls), replies_received(calls)));
    } else {
        let earlier = calls.drop_last();
        transcript_interleaves(earlier);
        assert(transcript(earlier).len() == 2 * earlier.len());
        assert forall|i: int| 0 <= i < 2 * calls.len() implies transcript(calls)[i]
            == interleaving(turns_sent(calls), replies_received(calls))[i] by {
            if i < 2 * earlier.len() {
                assert(transcript(calls)[i] == transcript(earlier)[i]);
                assert(calls[i / 2] == earlier[i / 2]);
            }
        }
        assert(transcript(calls) =~= interleaving(turns_sent(calls), replies_received(calls)));
    }
}

/// After N answered calls on one conversation, each of which sent a turn,
/// the conversation holds what it held before and then the N turns sent and
/// the N replies received, taken in turn, in the order of the calls.
pub proof fn answered_calls_interleave(client: Ollama, id: Seq<char>, calls: Seq<AnsweredCall>)
    requires
        forall|k: int| 0 <= k < calls.len() ==> (#[trigger] calls[k]).request_messages.len() > 0,
    ensures
        history_after_answered_calls(client.history(), id, calls)[id] == client.history()[id]
            + interleaving(turns_sent(calls), replies_received(calls)),
{
    answered_calls_extend_history(client, id, calls);
    transcript_interleaves(calls);
}

/// A call that fails, or that is answered without a reply, leaves the
/// history as if it had never been made: every conversation holds what it
/// held before, and so as many turns.
pub proof fn failed_call_restores_history(
    client: Ollama,
    id: Seq<char>,
    request_messages: Seq<ChatMessageView>,
)
    ensures
        history_after_failed_call(client.history(), id, request_messages) == client.history(),
{
    client.lemma_history_total();
    let history = client.history();
    let prepared = history_after_prepare(history, id, request_messages);
    if request_messages.len() > 0 {
        assert(prepared[id].drop_last() =~= history[id]);
    }
    assert(history_after_failed_call(history, id, request_messages) =~= history);
}

/// Whatever comes of a call on one conversation, every other conversation
/// holds what it held before: neither preparing the call, nor its reply,
/// nor its failure touches them.
pub proof fn other_conversations_keep_their_turns(
    client: Ollama,
    id: Seq<char>,
    other: Seq<char>,
    request_messages: Seq<ChatMessageView>,
    reply: ChatMessageView,
)
    requires
        other != id,
    ensures
        history_after_prepare(client.history(), id, request_messages)[other]
            == client.history()[other],
        history_after_answered_call(
            client.history(),
            id,
            AnsweredCall { request_messages, reply },
        )[other] == client.history()[other],
        history_after_failed_call(client.history(), id, request_messages)[other]
            == client.history()[other],
{
    client.lemma_history_total();
}

} // verus!
