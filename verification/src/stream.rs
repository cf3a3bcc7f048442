//! A streamed answer, as its single reader sees it.

use crate::response::ChatMessageResponse;
use crate::transport::StreamFrame;
use vstd::prelude::*;

verus! {

/// A streamed answer: it turns the frames read off the connection, one by
/// one, into the items its reader sees, and remembers whether it has ended.
///
/// A frame that holds a response gives that response. A frame that could not
/// be read or understood gives the error marker, and ends the stream. So
/// does a response that says the answer is complete. Once the stream has
/// ended, no frame gives an item.
#[derive(Debug, PartialEq, Eq)]
pub struct ChatStream {
    ended: bool,
}

/// The item a frame gives while the stream is open.
pub open spec fn item_of(frame: StreamFrame) -> Result<ChatMessageResponse, ()> {
    match frame {
        StreamFrame::Response(response) => Ok(response),
        StreamFrame::Malformed => Err(()),
        StreamFrame::ReadFailed => Err(()),
    }
}

/// Whether a frame is the last to give an item.
pub open spec fn ends_stream(frame: StreamFrame) -> bool {
    match frame {
        StreamFrame::Response(response) => response.done,
        StreamFrame::Malformed => true,
        StreamFrame::ReadFailed => true,
    }
}

/// Whether one of `frames` ends the stream.
pub open spec fn ends_within(frames: Seq<StreamFrame>) -> bool {
    exists|i: int| 0 <= i < frames.len() && ends_stream(#[trigger] frames[i])
}

/// The number of frames that give an item when `frames` arrive, in this
/// order, on a stream not yet ended: those up to and including the first
/// that ends it, or all of them where none does.
pub open spec fn frames_heard(frames: Seq<StreamFrame>) -> nat
    decreases frames.len(),
{
    if frames.len() == 0 {
        0
    } else if ends_stream(frames[0]) {
        1
    } else {
        1 + frames_heard(frames.skip(1))
    }
}

/// The items a reader sees when `frames` arrive, in this order, on a stream
/// not yet ended: one for each frame heard.
pub open spec fn items_seen(frames: Seq<StreamFrame>) -> Seq<Result<ChatMessageResponse, ()>> {
    Seq::new(frames_heard(frames), |i: int| item_of(frames[i]))
}

/// Where the first frame does not end the stream, one of the frames ends it
/// exactly where one of those after the first does.
pub proof fn lemma_ends_within_tail(frames: Seq<StreamFrame>)
    requires
        frames.len() > 0,
        !ends_stream(frames[0]),
    ensures
        ends_within(frames) == ends_within(frames.skip(1)),
{
    let rest = frames.skip(1);
    if ends_within(frames) {
        let i = choose|i: int| 0 <= i < frames.len() && ends_stream(#[trigger] frames[i]);
        assert(rest[i - 1] == frames[i]);
    }
    if ends_within(rest) {
        let i = choose|i: int| 0 <= i < rest.len() && ends_stream(#[trigger] rest[i]);
        assert(frames[i + 1] == rest[i]);
    }
}

/// The frames heard are a prefix of the frames: none before the last of
/// them ends the stream, and the last does where any frame does.
pub proof fn lemma_frames_heard(frames: Seq<StreamFrame>)
    ensures
        frames_heard(frames) <= frames.len(),
        forall|i: int| 0 <= i < frames_heard(frames) - 1 ==> !ends_stream(#[trigger] frames[i]),
        ends_within(frames) ==> frames_heard(frames) > 0 && ends_stream(
            frames[frames_heard(frames) - 1],
        ),
        !ends_within(frames) ==> frames_heard(frames) == frames.len(),
    decreases frames.len(),
{
    if frames.len() > 0 && !ends_stream(frames[0]) {
        let rest = frames.skip(1);
        lemma_frames_heard(rest);
        assert forall|i: int| 0 <= i < frames_heard(frames) - 1 implies !ends_stream(
            #[trigger] frames[i],
        ) by {
            if i > 0 {
                assert(frames[i] == rest[i - 1]);
            }
        }
        lemma_ends_within_tail(frames);
        if ends_within(frames) {
            assert(frames[frames_heard(frames) - 1] == rest[frames_heard(rest) - 1]);
        }
    }
}

/// One more frame is heard exactly where none before it ended the stream.
pub proof fn lemma_frames_heard_push(frames: Seq<StreamFrame>, frame: StreamFrame)
    ensures
        ends_within(frames.push(frame)) == (ends_within(frames) || ends_stream(frame)),
        frames_heard(frames.push(frame)) == if ends_within(frames) {
            frames_heard(frames)
        } else {
            frames.len() + 1
        },
        items_seen(frames.push(frame)) == if ends_within(frames) {
            items_seen(frames)
        } else {
            items_seen(frames).push(item_of(frame))
        },
    decreases frames.len(),
{
    let longer = frames.push(frame);
    assert(longer[frames.len() as int] == frame);
    assert forall|i: int| 0 <= i < frames.len() implies longer[i] == frames[i] by {}
    if ends_within(frames) {
        let i = choose|i: int| 0 <= i < frames.len() && ends_stream(#[trigger] frames[i]);
        assert(ends_stream(longer[i]));
    }
    if ends_within(longer) {
        let i = choose|i: int| 0 <= i < longer.len() && ends_stream(#[trigger] longer[i]);
        if i < frames.len() {
            assert(ends_stream(frames[i]));
        }
    }
    if frames.len() > 0 {
        if !ends_stream(frames[0]) {
            lemma_frames_heard_push(frames.skip(1), frame);
            assert(longer.skip(1) =~= frames.skip(1).push(frame));
            lemma_ends_within_tail(frames);
        }
    } else {
        assert(longer.skip(1) =~= Seq::<StreamFrame>::empty());
        assert(frames_heard(longer.skip(1)) == 0);
    }
    lemma_frames_heard(frames);
    if ends_within(frames) {
        assert(frames_heard(longer) == frames_heard(frames));
        assert(items_seen(longer) =~= items_seen(frames));
    } else {
        assert(frames_heard(longer) == frames.len() + 1);
        assert(items_seen(frames).len() == frames.len());
        assert(items_seen(longer) =~= items_seen(frames).push(item_of(frame)));
    }
}

/// Nothing follows an item that ends the stream: every item the reader sees
/// before the last is a response that does not say the answer is complete.
/// So the error marker, where it is seen, is the last item.
pub proof fn only_the_last_item_ends(frames: Seq<StreamFrame>)
    ensures
        items_seen(frames).len() <= frames.len(),
        forall|i: int|
            0 <= i < items_seen(frames).len() - 1 ==> (#[trigger] items_seen(frames)[i] matches Ok(
                response,
            ) && !response.done),
{
    lemma_frames_heard(frames);
    assert forall|i: int| 0 <= i < items_seen(frames).len() - 1 implies (
    #[trigger] items_seen(frames)[i] matches Ok(response) && !response.done) by {
        assert(!ends_stream(frames[i]));
    }
}

impl ChatStream {
    /// Whether the stream has ended.
    pub closed spec fn ended(&self) -> bool {
        self.ended
    }

    /// A stream that has produced nothing yet.
    pub fn new() -> (r: Self)
        ensures
            !r.ended(),
    {
        ChatStream { ended: false }
    }

    /// Whether the stream has ended.
    pub fn is_ended(&self) -> (r: bool)
        ensures
            r == self.ended(),
    {
        self.ended
    }

    /// Takes the next frame read off the connection and returns the item it
    /// gives the reader, or `None` where the stream had ended before.
    pub fn next_item(&mut self, frame: StreamFrame) -> (r: Option<Result<ChatMessageResponse, ()>>)
        ensures
            old(self).ended() ==> r is None && final(self).ended(),
            !old(self).ended() ==> r == Some(item_of(frame)) && final(self).ended() == ends_stream(
                frame,
            ),
    {
        if self.ended {
            return None;
        }
        match frame {
            StreamFrame::Response(response) => {
                self.ended = response.done;
                Some(Ok(response))
            },
            StreamFrame::Malformed => {
                self.ended = true;
                Some(Err(()))
            },
            StreamFrame::ReadFailed => {
                self.ended = true;
                Some(Err(()))
            },
        }
    }

    /// The items the reader of a newly opened stream sees when `frames`
    /// arrive in this order.
    pub fn items(frames: Vec<StreamFrame>) -> (r: Vec<Result<ChatMessageResponse, ()>>)
        ensures
            r@ == items_seen(frames@),
    {
        let ghost all = frames@;
        let mut stream = Self::new();
        let mut items: Vec<Result<ChatMessageResponse, ()>> = Vec::new();
        assert(items@ =~= items_seen(all.take(0)));
        for frame in it: frames
            invariant
                it.seq() == all,
                stream.ended() == ends_within(all.take(it.index() as int)),
                items@ == items_seen(all.take(it.index() as int)),
        {
            proof {
                lemma_frames_heard_push(all.take(it.index() as int), frame);
                assert(all.take(it.index() + 1) =~= all.take(it.index() as int).push(frame));
            }
            match stream.next_item(frame) {
                Some(item) => {
                    items.push(item);
                },
                None => {},
            }
        }
        assert(all.take(all.len() as int) =~= all);
        items
    }
}

} // verus!
