//! Session decision logic. A session owns one client connection and one
//! upstream connection and runs two independent forwarding pumps. Each
//! pump's decisions on one read are pure and verified here: the identical
//! bytes are handed back for forwarding, a copy is framed and classified
//! for observability, and only a framing overflow — never a decode
//! failure — ends the direction. The session state machine decides the
//! lifecycle: connect upstream first, relay, and on the first terminated
//! direction half-close the write side it was forwarding into, then close
//! both connections. The transport that performs these actions lives
//! outside the crate.

use vstd::prelude::*;
use crate::frames::{FrameDecoder, DELIM, concat_frames, frames_wf, lemma_concat_frames_push};
use crate::message;
use crate::message::Classification;

verus! {

/// The two forwarding directions of a session.
#[derive(Debug, Clone, Copy, PartialEq, Eq, Structural)]
pub enum Direction {
    ClientToUpstream,
    UpstreamToClient,
}

/// The two peers of a session.
#[derive(Debug, Clone, Copy, PartialEq, Eq, Structural)]
pub enum Endpoint {
    Client,
    Upstream,
}

/// The peer a direction forwards into.
pub open spec fn destination_of(d: Direction) -> Endpoint {
    match d {
        Direction::ClientToUpstream => Endpoint::Upstream,
        Direction::UpstreamToClient => Endpoint::Client,
    }
}

pub fn destination(d: Direction) -> (e: Endpoint)
    ensures
        e == destination_of(d),
{
    match d {
        Direction::ClientToUpstream => Endpoint::Upstream,
        Direction::UpstreamToClient => Endpoint::Client,
    }
}

/// One frame completed by a read, with its classification, ready for the
/// logging sink.
pub struct FrameEvent {
    pub frame: Vec<u8>,
    pub classified: Classification,
}

/// Everything one pump decides on one read: the bytes to forward — always
/// exactly the bytes read — the completed frames with their
/// classifications, and whether the framing bound was exceeded.
pub struct ReadOutcome {
    pub forward: Vec<u8>,
    pub events: Vec<FrameEvent>,
    pub overflow: bool,
}

/// One direction's pump: a frame decoder over the copied byte stream.
pub struct RelayPump {
    decoder: FrameDecoder,
}

impl RelayPump {
    pub closed spec fn buffered(self) -> Seq<u8> {
        self.decoder.buffered()
    }

    pub closed spec fn bound(self) -> nat {
        self.decoder.bound()
    }

    pub fn new(max_frame: usize) -> (p: RelayPump)
        ensures
            p.buffered() == Seq::<u8>::empty(),
            p.bound() == max_frame as nat,
    {
        RelayPump { decoder: FrameDecoder::new(max_frame) }
    }

    /// Decides one read. The first clause is byte-exact forwarding: the
    /// bytes handed back for the peer are the bytes read, whatever the
    /// decoding makes of them. The remaining clauses say that each
    /// completed frame carries exactly the classification of its bytes,
    /// that the frames and the retained tail partition the buffered
    /// bytes, and that the direction ends only on a framing overflow.
    pub fn on_read(&mut self, chunk: Vec<u8>) -> (out: ReadOutcome)
        ensures
            out.forward@ == chunk@,
            final(self).bound() == old(self).bound(),
            frames_wf(out.events@.map_values(|e: FrameEvent| e.frame@)),
            forall|i: int| 0 <= i < out.events@.len()
                ==> (#[trigger] out.events@[i]).classified@
                    == message::spec_classify_bytes(out.events@[i].frame@),
            !out.overflow ==> {
                let all = old(self).buffered() + chunk@;
                let frames = out.events@.map_values(|e: FrameEvent| e.frame@);
                &&& all == concat_frames(frames) + final(self).buffered()
                &&& !final(self).buffered().contains(DELIM)
                &&& final(self).buffered().len() <= old(self).bound()
            },
            out.overflow ==> {
                let all = old(self).buffered() + chunk@;
                let frames = out.events@.map_values(|e: FrameEvent| e.frame@);
                &&& final(self).buffered() == Seq::<u8>::empty()
                &&& exists|tail: Seq<u8>|
                    all == concat_frames(frames) + tail && !tail.contains(DELIM)
                        && tail.len() > old(self).bound()
            },
    {
        self.decoder.feed(chunk.as_slice());
        let ghost all = old(self).buffered() + chunk@;
        let mut events: Vec<FrameEvent> = Vec::new();
        let mut overflow = false;
        let mut done = false;
        while !done
            invariant
                self.decoder.bound() == old(self).decoder.bound(),
                frames_wf(events@.map_values(|e: FrameEvent| e.frame@)),
                forall|i: int| 0 <= i < events@.len()
                    ==> (#[trigger] events@[i]).classified@
                        == message::spec_classify_bytes(events@[i].frame@),
                !overflow ==> all == concat_frames(events@.map_values(|e: FrameEvent| e.frame@))
                    + self.decoder.buffered(),
                done && !overflow ==> !self.decoder.buffered().contains(DELIM)
                    && self.decoder.buffered().len() <= old(self).decoder.bound(),
                overflow ==> done,
                overflow ==> self.decoder.buffered() == Seq::<u8>::empty()
                    && exists|tail: Seq<u8>|
                        all == concat_frames(events@.map_values(|e: FrameEvent| e.frame@)) + tail
                            && !tail.contains(DELIM) && tail.len() > old(self).decoder.bound(),
            decreases self.decoder.buffered().len(), (if done { 0int } else { 1int }),
        {
            let ghost frames_before = events@.map_values(|e: FrameEvent| e.frame@);
            match self.decoder.next_frame() {
                Ok(Some(f)) => {
                    let c = message::classify(f.as_slice());
                    let ghost fv = f@;
                    events.push(FrameEvent { frame: f, classified: c });
                    proof {
                        lemma_concat_frames_push(frames_before, fv);
                        assert(events@.map_values(|e: FrameEvent| e.frame@) =~= frames_before.push(fv));
                        assert(all =~= concat_frames(frames_before.push(fv)) + self.decoder.buffered());
                    }
                },
                Ok(None) => {
                    done = true;
                },
                Err(_) => {
                    proof {
                        assert(exists|tail: Seq<u8>|
                            all == concat_frames(frames_before) + tail && !tail.contains(DELIM)
                                && tail.len() > old(self).decoder.bound());
                    }
                    overflow = true;
                    done = true;
                },
            }
        }
        ReadOutcome { forward: chunk, events, overflow }
    }
}

/// Fragmentation invariance in full: two deliveries of the same byte
/// stream — however its reads fragmented or coalesced it — that each
/// decompose it into delimiter-free frames and a delimiter-free tail, as
/// `on_read` guarantees, decompose it into the same frames, and classify
/// those frames identically, since classification is a function of a
/// frame's bytes.
pub proof fn lemma_fragmentation_invariance(
    f1: Seq<Seq<u8>>,
    t1: Seq<u8>,
    c1: Seq<message::ClassificationView>,
    f2: Seq<Seq<u8>>,
    t2: Seq<u8>,
    c2: Seq<message::ClassificationView>,
)
    requires
        concat_frames(f1) + t1 == concat_frames(f2) + t2,
        frames_wf(f1),
        frames_wf(f2),
        !t1.contains(DELIM),
        !t2.contains(DELIM),
        c1.len() == f1.len(),
        c2.len() == f2.len(),
        forall|i: int| 0 <= i < f1.len() ==> c1[i] == message::spec_classify_bytes(#[trigger] f1[i]),
        forall|i: int| 0 <= i < f2.len() ==> c2[i] == message::spec_classify_bytes(#[trigger] f2[i]),
    ensures
        f1 == f2,
        t1 == t2,
        c1 == c2,
{
    crate::frames::lemma_framing_unique(f1, t1, f2, t2);
    assert forall|i: int| 0 <= i < c1.len() implies c1[i] == c2[i] by {
        assert(f1[i] == f2[i]);
    }
    assert(c1 =~= c2);
}

/// Where a session stands in its lifecycle.
#[derive(Debug, Clone, Copy, PartialEq, Eq, Structural)]
pub enum SessionPhase {
    AwaitingUpstream,
    Relaying,
    Closed,
}

/// How one direction ended.
#[derive(Debug, Clone, Copy, PartialEq, Eq, Structural)]
pub enum TerminationCause {
    CleanEof,
    TransportError,
    FrameTooLarge,
}

/// What the transport reports to the session.
#[derive(Debug, Clone, Copy, PartialEq, Eq, Structural)]
pub enum SessionEvent {
    UpstreamConnected,
    UpstreamUnreachable,
    DirectionEnded { dir: Direction, cause: TerminationCause },
}

/// What the session orders the transport to do.
#[derive(Debug, Clone, Copy, PartialEq, Eq, Structural)]
pub enum SessionAction {
    StartPumps,
    CloseClient,
    HalfCloseWrite { peer: Endpoint },
    CloseBoth,
}

/// The session lifecycle, as one step function. An unreachable upstream
/// closes only the owning session's client connection; the first
/// direction to end while relaying half-closes the write side toward the
/// peer it was forwarding into and then closes both connections; a
/// direction ending after teardown orders nothing further.
pub open spec fn spec_step(phase: SessionPhase, ev: SessionEvent) -> (SessionPhase, Seq<SessionAction>) {
    match phase {
        SessionPhase::AwaitingUpstream => match ev {
            SessionEvent::UpstreamConnected => (SessionPhase::Relaying, seq![SessionAction::StartPumps]),
            SessionEvent::UpstreamUnreachable => (SessionPhase::Closed, seq![SessionAction::CloseClient]),
            SessionEvent::DirectionEnded { .. } => (SessionPhase::AwaitingUpstream, Seq::<SessionAction>::empty()),
        },
        SessionPhase::Relaying => match ev {
            SessionEvent::DirectionEnded { dir, cause } => (
                SessionPhase::Closed,
                seq![
                    SessionAction::HalfCloseWrite { peer: destination_of(dir) },
                    SessionAction::CloseBoth,
                ],
            ),
            _ => (SessionPhase::Relaying, Seq::<SessionAction>::empty()),
        },
        SessionPhase::Closed => (SessionPhase::Closed, Seq::<SessionAction>::empty()),
    }
}

/// One session's shutdown coordination state. Sessions share nothing: each
/// is created on accept and stepped only by its own transport's events.
pub struct Session {
    phase: SessionPhase,
}

impl Session {
    pub closed spec fn phase(self) -> SessionPhase {
        self.phase
    }

    pub fn new() -> (s: Session)
        ensures
            s.phase() == SessionPhase::AwaitingUpstream,
    {
        Session { phase: SessionPhase::AwaitingUpstream }
    }

    /// Steps the lifecycle on one transport event and returns the actions
    /// to perform, exactly as `spec_step` decides them.
    pub fn on_event(&mut self, ev: SessionEvent) -> (acts: Vec<SessionAction>)
        ensures
            final(self).phase() == spec_step(old(self).phase(), ev).0,
            acts@ == spec_step(old(self).phase(), ev).1,
    {
        match self.phase {
            SessionPhase::AwaitingUpstream => match ev {
                SessionEvent::UpstreamConnected => {
                    self.phase = SessionPhase::Relaying;
                    let mut acts: Vec<SessionAction> = Vec::new();
                    acts.push(SessionAction::StartPumps);
                    proof {
                        assert(acts@ =~= spec_step(old(self).phase(), ev).1);
                    }
                    acts
                },
                SessionEvent::UpstreamUnreachable => {
                    self.phase = SessionPhase::Closed;
                    let mut acts: Vec<SessionAction> = Vec::new();
                    acts.push(SessionAction::CloseClient);
                    proof {
                        assert(acts@ =~= spec_step(old(self).phase(), ev).1);
                    }
                    acts
                },
                SessionEvent::DirectionEnded { .. } => {
                    let acts: Vec<SessionAction> = Vec::new();
                    proof {
                        assert(acts@ =~= spec_step(old(self).phase(), ev).1);
                    }
                    acts
                },
            },
            SessionPhase::Relaying => match ev {
                SessionEvent::DirectionEnded { dir, cause: _ } => {
                    self.phase = SessionPhase::Closed;
                    let mut acts: Vec<SessionAction> = Vec::new();
                    acts.push(SessionAction::HalfCloseWrite { peer: destination(dir) });
                    acts.push(SessionAction::CloseBoth);
                    proof {
                        assert(acts@ =~= spec_step(old(self).phase(), ev).1);
                    }
                    acts
                },
                _ => {
                    let acts: Vec<SessionAction> = Vec::new();
                    proof {
                        assert(acts@ =~= spec_step(old(self).phase(), ev).1);
                    }
                    acts
                },
            },
            SessionPhase::Closed => {
                let acts: Vec<SessionAction> = Vec::new();
                proof {
                    assert(acts@ =~= spec_step(old(self).phase(), ev).1);
                }
                acts
            },
        }
    }
}

/// Shutdown propagation: whichever direction terminates first, for
/// whatever cause, the session half-closes the write side toward the peer
/// that direction was forwarding into and then closes both connections —
/// so closing the client's read side half-closes the upstream write side,
/// and the other way round.
pub proof fn lemma_shutdown_propagation(dir: Direction, cause: TerminationCause)
    ensures
        spec_step(SessionPhase::Relaying, SessionEvent::DirectionEnded { dir, cause }).0
            == SessionPhase::Closed,
        spec_step(SessionPhase::Relaying, SessionEvent::DirectionEnded { dir, cause }).1
            == seq![
                SessionAction::HalfCloseWrite { peer: destination_of(dir) },
                SessionAction::CloseBoth,
            ],
{
}

} // verus!
