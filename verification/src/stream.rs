//! The event sequencer: a pull-based, single-consumer sequence of decoded
//! stream events over a growing byte buffer.
//!
//! The transport feeds byte chunks in with [`EventStream::push_chunk`]; each
//! [`EventStream::next_event`] consumes complete frames in order, skipping
//! keep-alive frames internally, until it can yield one decoded event, the
//! end of the stream, or a decode failure.  A failure is yielded once and the
//! stream never yields again -- a malformed event invalidates trust in the
//! framing that follows it.  [`EventStream::finish`] closes the stream when
//! the byte source is exhausted: cleanly on an empty buffer, with the
//! truncation error when a partial frame remains.

use vstd::prelude::*;

use crate::client::Error;
use crate::decode::FrameOutcome;
use crate::decode::decode_frame_payload;
use crate::decode::event_wf;
use crate::decode::payload_event_ready;
use crate::json::lossy_decode;
use crate::models::ResponseStreamEvent;
use crate::sse::closed_frames;
use crate::sse::extract_payload;
use crate::sse::find_frame_marker;
use crate::sse::first_frame_end;
use crate::sse::is_frame;
use crate::sse::lemma_closed_frames_extend;
use crate::sse::lemma_first_frame_end;
use crate::sse::lemma_first_frame_end_is;
use crate::sse::lemma_single_frame;
use crate::sse::lemma_stream_append;
use crate::sse::marker_at;
use crate::sse::payload_of;
use crate::sse::sentinel;
use crate::sse::stream_completed;
use crate::sse::stream_payloads;

verus! {

/// Where a stream stands: one start state and the three terminal states.
#[derive(Debug, Clone, Copy, PartialEq, Eq, Structural)]
pub enum StreamPhase {
    /// Events may still be yielded.
    Active,
    /// The sentinel was seen, or the source ended with an empty buffer.
    Completed,
    /// A payload failed to decode.
    Errored,
    /// The source ended while a partial frame was buffered.
    Truncated,
}

/// What one pull from the sequencer produced.
#[derive(Debug)]
pub enum StreamStep {
    /// The next decoded event.
    Event(ResponseStreamEvent),
    /// No complete frame is buffered: feed more bytes, or close the stream.
    NeedMore,
    /// The stream is over; nothing will ever be yielded again.
    Finished,
    /// The stream failed; nothing will ever be yielded again.
    Failed(Error),
}

/// The decision one pull takes on buffered bytes: wait for more, end at the
/// sentinel, or hand the next non-empty payload on, each with the bytes that
/// remain buffered afterwards.
pub enum PumpStep {
    More(Seq<u8>),
    End(Seq<u8>),
    Next(Seq<u8>, Seq<u8>),
}

/// Processes buffered bytes `b` frame by frame, skipping empty payloads,
/// until a decision is reached.
pub open spec fn pump(b: Seq<u8>) -> PumpStep
    decreases b.len(),
{
    let e = first_frame_end(b);
    if e + 2 <= b.len() {
        let p = payload_of(b.take(e + 2 as int));
        let rest = b.skip(e + 2 as int);
        if p == sentinel() {
            PumpStep::End(rest)
        } else if p.len() == 0 {
            pump(rest)
        } else {
            PumpStep::Next(p, rest)
        }
    } else {
        PumpStep::More(b)
    }
}

/// A pull-based, single-consumer sequence of decoded stream events.
pub struct EventStream {
    buf: Vec<u8>,
    phase: StreamPhase,
    history: Ghost<Seq<u8>>,
    taken: Ghost<Seq<u8>>,
    emitted: Ghost<Seq<Seq<u8>>>,
}

impl EventStream {
    /// All bytes the transport has delivered so far.
    pub closed spec fn bytes_fed(self) -> Seq<u8> {
        self.history@
    }

    /// The raw payloads of the events yielded so far, in order.
    pub closed spec fn yielded(self) -> Seq<Seq<u8>> {
        self.emitted@
    }

    /// The delivered bytes not yet consumed as complete frames.
    pub closed spec fn pending(self) -> Seq<u8> {
        self.buf@
    }

    /// The phase the stream is in.
    pub closed spec fn phase_spec(self) -> StreamPhase {
        self.phase
    }

    /// The sequencer's invariant: the consumed bytes are whole, non-terminal
    /// frames whose non-empty payloads are exactly what has been yielded.
    pub closed spec fn wf(self) -> bool {
        &&& self.history@ == self.taken@ + self.buf@
        &&& self.phase is Active ==> {
            &&& closed_frames(self.taken@)
            &&& !stream_completed(self.taken@)
            &&& stream_payloads(self.taken@) == self.emitted@
        }
    }

    /// While the stream is active, what it has yielded plus what its
    /// unconsumed bytes still hold is exactly what the whole byte history
    /// decodes to: the decoded sequence depends only on the concatenation of
    /// the chunks, never on their boundaries.
    pub proof fn lemma_trace(self)
        requires
            self.wf(),
            self.phase_spec() is Active,
        ensures
            stream_payloads(self.bytes_fed()) == self.yielded() + stream_payloads(self.pending()),
            stream_completed(self.bytes_fed()) == stream_completed(self.pending()),
    {
        lemma_stream_append(self.taken@, self.buf@);
    }

    /// A fresh sequencer with an empty buffer.
    pub fn new() -> (r: EventStream)
        ensures
            r.wf(),
            r.bytes_fed() == Seq::<u8>::empty(),
            r.yielded() == Seq::<Seq<u8>>::empty(),
            r.pending() == Seq::<u8>::empty(),
            r.phase_spec() is Active,
    {
        let r = EventStream {
            buf: Vec::new(),
            phase: StreamPhase::Active,
            history: Ghost(Seq::empty()),
            taken: Ghost(Seq::empty()),
            emitted: Ghost(Seq::empty()),
        };
        proof {
            assert(Seq::<u8>::empty() + Seq::<u8>::empty() =~= Seq::<u8>::empty());
            assert(closed_frames(Seq::<u8>::empty()));
            assert(!stream_completed(Seq::<u8>::empty()));
            assert(stream_payloads(Seq::<u8>::empty()) =~= Seq::<Seq<u8>>::empty());
        }
        r
    }

    /// The phase the stream is in.
    pub fn phase(&self) -> (p: StreamPhase)
        ensures
            p == self.phase_spec(),
    {
        self.phase
    }

    /// Appends one chunk of transport bytes to the buffer.
    pub fn push_chunk(&mut self, chunk: &[u8])
        requires
            old(self).wf(),
        ensures
            final(self).wf(),
            final(self).bytes_fed() == old(self).bytes_fed() + chunk@,
            final(self).pending() == old(self).pending() + chunk@,
            final(self).yielded() == old(self).yielded(),
            final(self).phase_spec() == old(self).phase_spec(),
    {
        self.buf.extend_from_slice(chunk);
        proof {
            self.history@ = self.history@ + chunk@;
            assert(self.taken@ + self.buf@ =~= self.history@);
        }
    }

    /// Pulls the next decoded event.  Complete frames are consumed in order:
    /// keep-alive frames are skipped without yielding, the sentinel completes
    /// the stream, a payload that fails to decode fails the stream with that
    /// error, and a terminated stream yields nothing ever again.
    pub fn next_event(&mut self) -> (r: StreamStep)
        requires
            old(self).wf(),
        ensures
            final(self).wf(),
            final(self).bytes_fed() == old(self).bytes_fed(),
            !(old(self).phase_spec() is Active) ==> {
                &&& r is Finished
                &&& final(self).pending() == old(self).pending()
                &&& final(self).yielded() == old(self).yielded()
                &&& final(self).phase_spec() == old(self).phase_spec()
            },
            old(self).phase_spec() is Active ==> match pump(old(self).pending()) {
                PumpStep::More(rem) => {
                    &&& r is NeedMore
                    &&& final(self).pending() == rem
                    &&& final(self).phase_spec() is Active
                    &&& final(self).yielded() == old(self).yielded()
                },
                PumpStep::End(rem) => {
                    &&& r is Finished
                    &&& final(self).phase_spec() is Completed
                    &&& final(self).yielded() == old(self).yielded()
                },
                PumpStep::Next(p, rem) => {
                    &&& final(self).pending() == rem
                    &&& (r is Event || r is Failed)
                    &&& (r is Event) == payload_event_ready(lossy_decode(p))
                    &&& r matches StreamStep::Event(ev) ==> event_wf(ev, lossy_decode(p))
                        && final(self).yielded() == old(self).yielded().push(p)
                        && final(self).phase_spec() is Active
                    &&& r matches StreamStep::Failed(err) ==> {
                        &&& final(self).phase_spec() is Errored
                        &&& final(self).yielded() == old(self).yielded()
                        &&& err matches Error::Decode(de) && de.raw@ == lossy_decode(p)
                    }
                },
            },
    {
        match self.phase {
            StreamPhase::Active => {},
            _ => {
                return StreamStep::Finished;
            },
        }
        loop
            invariant
                self.wf(),
                self.phase is Active,
                self.history@ == old(self).history@,
                self.emitted@ == old(self).emitted@,
                pump(self.buf@) == pump(old(self).buf@),
            decreases self.buf@.len(),
        {
            let marker = find_frame_marker(self.buf.as_slice());
            match marker {
                None => {
                    return StreamStep::NeedMore;
                },
                Some(i) => {
                    let ghost whole = self.buf@;
                    let mut frame: Vec<u8> = self.buf.split_off(0);
                    let n = frame.len();
                    proof {
                        assert(i + 2 <= n);
                    }
                    let tail = frame.split_off(i + 2);
                    self.buf = tail;
                    proof {
                        assert(frame@ =~= whole.take(i + 2 as int));
                        assert(self.buf@ =~= whole.skip(i + 2 as int));
                        lemma_first_frame_end(whole);
                        assert(marker_at(frame@, i as int));
                        assert forall|j: int| 0 <= j < i implies !marker_at(frame@, j) by {
                            assert(!marker_at(whole, j));
                        }
                        lemma_first_frame_end_is(frame@, i as int);
                        assert(is_frame(frame@));
                    }
                    let payload = extract_payload(frame.as_slice());
                    let ghost p = payload@;
                    proof {
                        lemma_single_frame(frame@);
                        lemma_stream_append(self.taken@, frame@);
                        lemma_closed_frames_extend(self.taken@, frame@);
                        assert(sentinel().len() == 6);
                    }
                    match decode_frame_payload(&payload) {
                        FrameOutcome::Done => {
                            self.phase = StreamPhase::Completed;
                            proof {
                                self.taken@ = self.taken@ + frame@;
                                assert(self.taken@ + self.buf@ =~= self.history@);
                            }
                            return StreamStep::Finished;
                        },
                        FrameOutcome::Skip => {
                            proof {
                                self.taken@ = self.taken@ + frame@;
                                assert(self.taken@ + self.buf@ =~= self.history@);
                                assert(stream_payloads(self.taken@) =~= self.emitted@);
                            }
                        },
                        FrameOutcome::Event(ev) => {
                            proof {
                                self.taken@ = self.taken@ + frame@;
                                self.emitted@ = self.emitted@.push(p);
                                assert(self.taken@ + self.buf@ =~= self.history@);
                                assert(stream_payloads(self.taken@) =~= self.emitted@);
                            }
                            return StreamStep::Event(ev);
                        },
                        FrameOutcome::Fail(de) => {
                            self.phase = StreamPhase::Errored;
                            proof {
                                self.taken@ = self.taken@ + frame@;
                                assert(self.taken@ + self.buf@ =~= self.history@);
                            }
                            return StreamStep::Failed(Error::Decode(de));
                        },
                    }
                },
            }
        }
    }

    /// Closes the stream once the byte source is exhausted.  An empty buffer
    /// is a clean end; a buffer still holding a partial frame is the
    /// truncated-stream error.  Call it after `next_event` has returned
    /// `NeedMore` and the source has nothing more to deliver.
    pub fn finish(&mut self) -> (r: StreamStep)
        requires
            old(self).wf(),
        ensures
            final(self).wf(),
            final(self).bytes_fed() == old(self).bytes_fed(),
            final(self).yielded() == old(self).yielded(),
            final(self).pending() == old(self).pending(),
            !(old(self).phase_spec() is Active) ==> r is Finished && final(self).phase_spec()
                == old(self).phase_spec(),
            old(self).phase_spec() is Active && old(self).pending().len() == 0 ==> r is Finished
                && final(self).phase_spec() is Completed,
            old(self).phase_spec() is Active && old(self).pending().len() > 0 ==> (r matches
                StreamStep::Failed(e) && e is Truncated) && final(self).phase_spec() is Truncated,
    {
        match self.phase {
            StreamPhase::Active => {},
            _ => {
                return StreamStep::Finished;
            },
        }
        if self.buf.len() == 0 {
            self.phase = StreamPhase::Completed;
            StreamStep::Finished
        } else {
            self.phase = StreamPhase::Truncated;
            StreamStep::Failed(Error::Truncated)
        }
    }
}

/// Whenever a pull decides to wait for more bytes, the bytes it leaves
/// buffered hold no complete frame.
pub proof fn lemma_pump_more(b: Seq<u8>)
    ensures
        pump(b) matches PumpStep::More(m) ==> first_frame_end(m) + 2 > m.len(),
    decreases b.len(),
{
    let e = first_frame_end(b);
    if e + 2 <= b.len() {
        let p = payload_of(b.take(e + 2 as int));
        if p != sentinel() && p.len() == 0 {
            lemma_pump_more(b.skip(e + 2 as int));
        }
    }
}

/// Two sequencers that were fed the same bytes, in whatever chunks, have
/// yielded exactly the same payload sequence once each has pulled until no
/// complete frame remains buffered: chunk boundaries are unobservable in the
/// output.  Since `next_event` decides success by `payload_event_ready` and
/// pins each yielded event to its payload through `event_wf`, the decoded
/// event sequence too is a function of the byte history alone, up to the
/// contents of opaque raw sub-documents.
pub proof fn lemma_yield_history(s1: EventStream, s2: EventStream)
    requires
        s1.wf(),
        s2.wf(),
        s1.phase_spec() is Active,
        s2.phase_spec() is Active,
        s1.bytes_fed() == s2.bytes_fed(),
        first_frame_end(s1.pending()) + 2 > s1.pending().len(),
        first_frame_end(s2.pending()) + 2 > s2.pending().len(),
    ensures
        s1.yielded() == s2.yielded(),
{
    s1.lemma_trace();
    s2.lemma_trace();
    assert(stream_payloads(s1.pending()) =~= Seq::<Seq<u8>>::empty());
    assert(stream_payloads(s2.pending()) =~= Seq::<Seq<u8>>::empty());
    assert(s1.yielded() + Seq::<Seq<u8>>::empty() =~= s1.yielded());
    assert(s2.yielded() + Seq::<Seq<u8>>::empty() =~= s2.yielded());
}

} // verus!
