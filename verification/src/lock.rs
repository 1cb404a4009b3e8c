//! The executable embodiment of the protocol for one thread of control.
//!
//! [`Dekker`] owns the protected value together with the coordination
//! fields of the protocol: the turn indicator, the two intent flags, and the
//! count of live handles. [`Process`] is one of the exactly two capability
//! tokens handed out at construction; [`Guard`] witnesses a successful
//! acquire and is surrendered on release.
//!
//! Verified code holds no aliased mutable state, so the two participants
//! cannot run against one another here; they take the uncontended path of
//! the protocol, and every acquire therefore asks (in its `requires`) that
//! nobody else is contending. The concurrent argument for the very same
//! algorithm — over every interleaving of the two sides' shared-memory
//! accesses — lives in [`crate::model`].

use crate::model;
use crate::participant::ProcessId;
use vstd::prelude::*;

verus! {

/// The shared state of the protocol: the protected value, the turn
/// indicator, the two intent flags, and the count of live handles.
pub struct Dekker<T> {
    value: T,
    turn: ProcessId,
    intent_first: bool,
    intent_second: bool,
    live_handles: u8,
}

/// One of the exactly two capability tokens granting access to a
/// [`Dekker`]. Its identity is fixed at creation.
pub struct Process {
    id: ProcessId,
    held: bool,
}

/// Witness of a successful acquire by the participant named in it; it is
/// surrendered to [`Process::unlock`] to release access.
pub struct Guard {
    id: ProcessId,
}

/// What one handle's teardown leaves behind: either the shared state, still
/// alive for the remaining handle, or — when the closing handle was the last
/// one — the protected value, reclaimed from the dissolved sharing.
pub enum CloseOutcome<T> {
    /// The other handle is still live; the shared state survives.
    StillShared(Dekker<T>),
    /// This was the last handle; the shared state is gone and the protected
    /// value is handed back. This happens exactly once per construction.
    Reclaimed(T),
}

impl<T> Dekker<T> {
    /// The protected value.
    pub closed spec fn spec_value(self) -> T {
        self.value
    }

    /// The turn indicator: which participant has priority when both contend.
    pub closed spec fn spec_turn(self) -> ProcessId {
        self.turn
    }

    /// The intent flag of participant `p`.
    pub closed spec fn spec_intent(self, p: ProcessId) -> bool {
        match p {
            ProcessId::First => self.intent_first,
            ProcessId::Second => self.intent_second,
        }
    }

    /// How many of the two handles are still live.
    pub closed spec fn spec_live(self) -> u8 {
        self.live_handles
    }

    /// Nobody contends: both intent flags are down. Since a live guard keeps
    /// its owner's intent flag up, a quiescent state has no outstanding
    /// guard.
    pub open spec fn quiescent(self) -> bool {
        &&& !self.spec_intent(ProcessId::First)
        &&& !self.spec_intent(ProcessId::Second)
    }

    /// Allocates the shared state around `value` and returns it together
    /// with the two capability tokens. The turn starts with the first
    /// participant, no intent is raised, and both handles are live.
    pub fn new(value: T) -> (r: (Dekker<T>, Process, Process))
        ensures
            r.0.spec_value() == value,
            r.0.spec_turn() == ProcessId::First,
            r.0.quiescent(),
            r.0.spec_live() == 2,
            r.1.spec_id() == ProcessId::First,
            !r.1.spec_held(),
            r.2.spec_id() == ProcessId::Second,
            !r.2.spec_held(),
    {
        let d = Dekker {
            value,
            turn: ProcessId::First,
            intent_first: false,
            intent_second: false,
            live_handles: 2,
        };
        (d, Process::new(ProcessId::First), Process::new(ProcessId::Second))
    }

    /// One shared-memory read: the intent flag of participant `p`.
    fn read_intent(&self, p: ProcessId) -> (b: bool)
        ensures
            b == self.spec_intent(p),
    {
        match p {
            ProcessId::First => self.intent_first,
            ProcessId::Second => self.intent_second,
        }
    }

    /// One shared-memory read: the turn indicator.
    fn read_turn(&self) -> (t: ProcessId)
        ensures
            t == self.spec_turn(),
    {
        self.turn
    }

    /// One shared-memory write: set the intent flag of participant `p`,
    /// leaving every other field as it was.
    fn write_intent(&mut self, p: ProcessId, b: bool)
        ensures
            final(self).spec_intent(p) == b,
            final(self).spec_intent(p.spec_other()) == old(self).spec_intent(p.spec_other()),
            final(self).spec_turn() == old(self).spec_turn(),
            final(self).spec_value() == old(self).spec_value(),
            final(self).spec_live() == old(self).spec_live(),
    {
        match p {
            ProcessId::First => self.intent_first = b,
            ProcessId::Second => self.intent_second = b,
        }
    }

    /// One shared-memory write: set the turn indicator, leaving every other
    /// field as it was.
    fn write_turn(&mut self, t: ProcessId)
        ensures
            final(self).spec_turn() == t,
            final(self).spec_intent(ProcessId::First) == old(self).spec_intent(ProcessId::First),
            final(self).spec_intent(ProcessId::Second) == old(self).spec_intent(ProcessId::Second),
            final(self).spec_value() == old(self).spec_value(),
            final(self).spec_live() == old(self).spec_live(),
    {
        self.turn = t;
    }

    /// The turn indicator, for observation from outside.
    pub fn turn(&self) -> (t: ProcessId)
        ensures
            t == self.spec_turn(),
    {
        self.turn
    }

    /// The intent flag of participant `p`, for observation from outside.
    pub fn intent(&self, p: ProcessId) -> (b: bool)
        ensures
            b == self.spec_intent(p),
    {
        self.read_intent(p)
    }

    /// How many of the two handles are still live, for observation from
    /// outside.
    pub fn live_handles(&self) -> (n: u8)
        ensures
            n == self.spec_live(),
    {
        self.live_handles
    }

    /// Read access to the protected value, against a guard that witnesses
    /// held access.
    pub fn value<'a>(&'a self, g: &Guard) -> (r: &'a T)
        requires
            self.spec_intent(g.spec_id()),
        ensures
            *r == self.spec_value(),
    {
        &self.value
    }

    /// Write access to the protected value, against a guard that witnesses
    /// held access. Only the protected value changes; the coordination
    /// fields stay as they were.
    pub fn value_mut<'a>(&'a mut self, g: &Guard) -> (r: &'a mut T)
        requires
            old(self).spec_intent(g.spec_id()),
        ensures
            *r == old(self).spec_value(),
            write_post(*old(self), *final(self), *final(r)),
    {
        &mut self.value
    }
}

/// How an access to the protected value relates the shared state after the
/// access to the state before it: the value is now `v` and the coordination
/// fields are untouched.
pub open spec fn write_post<T>(pre: Dekker<T>, post: Dekker<T>, v: T) -> bool {
    &&& post.spec_value() == v
    &&& post.spec_turn() == pre.spec_turn()
    &&& post.spec_live() == pre.spec_live()
    &&& post.spec_intent(ProcessId::First) == pre.spec_intent(ProcessId::First)
    &&& post.spec_intent(ProcessId::Second) == pre.spec_intent(ProcessId::Second)
}

/// How an acquire by participant `p` relates the shared state after the
/// call to the state before it: `p`'s intent flag is up and every other
/// field is untouched.
pub open spec fn lock_post<T>(pre: Dekker<T>, post: Dekker<T>, p: ProcessId) -> bool {
    &&& post.spec_value() == pre.spec_value()
    &&& post.spec_turn() == pre.spec_turn()
    &&& post.spec_live() == pre.spec_live()
    &&& post.spec_intent(p)
    &&& post.spec_intent(p.spec_other()) == pre.spec_intent(p.spec_other())
}

/// How a release by participant `p` relates the shared state after the call
/// to the state before it: the turn is handed to the other side, `p`'s
/// intent flag is down, and the value, the live count and the other side's
/// intent flag are untouched.
pub open spec fn unlock_post<T>(pre: Dekker<T>, post: Dekker<T>, p: ProcessId) -> bool {
    &&& post.spec_value() == pre.spec_value()
    &&& post.spec_live() == pre.spec_live()
    &&& post.spec_turn() == p.spec_other()
    &&& !post.spec_intent(p)
    &&& post.spec_intent(p.spec_other()) == pre.spec_intent(p.spec_other())
}

/// How one handle's teardown relates its outcome to the shared state before
/// it. The closing handle first acquires, then decrements the live count:
/// if it was the last handle the shared state dissolves and the protected
/// value is reclaimed; otherwise the state survives with one handle fewer,
/// released as usual, so the turn belongs to the remaining side.
pub open spec fn close_post<T>(pre: Dekker<T>, out: CloseOutcome<T>, p: ProcessId) -> bool {
    if pre.spec_live() == 1 {
        &&& out matches CloseOutcome::Reclaimed(v)
        &&& v == pre.spec_value()
    } else {
        &&& out matches CloseOutcome::StillShared(d)
        &&& d.spec_value() == pre.spec_value()
        &&& d.spec_live() == pre.spec_live() - 1
        &&& d.spec_turn() == p.spec_other()
        &&& d.quiescent()
    }
}

impl Process {
    /// The fixed identity of this handle.
    pub closed spec fn spec_id(self) -> ProcessId {
        self.id
    }

    /// Whether this handle currently holds the lock.
    pub closed spec fn spec_held(self) -> bool {
        self.held
    }

    /// A handle with the given identity, not holding the lock.
    fn new(id: ProcessId) -> (p: Process)
        ensures
            p.spec_id() == id,
            !p.spec_held(),
    {
        Process { id, held: false }
    }

    /// The fixed identity of this handle, for observation from outside.
    pub fn id(&self) -> (r: ProcessId)
        ensures
            r == self.spec_id(),
    {
        self.id
    }

    /// Acquire the lock for the critical section.
    ///
    /// The body is the acquire loop of the protocol, each shared field
    /// touched through one single-access helper. A verified caller is a
    /// single thread of control, so the other side's intent flag cannot
    /// change underneath the loop; the precondition that nobody contends
    /// therefore makes the call return at the first check, on the same path
    /// that [`crate::model::lemma_uncontended_entry`] walks through the
    /// protocol model. The contending paths of the loop are the ones the
    /// model verifies against every interleaving.
    pub fn lock<T>(&mut self, d: &mut Dekker<T>) -> (g: Guard)
        requires
            old(d).quiescent(),
            !old(self).spec_held(),
        ensures
            lock_post(*old(d), *final(d), old(self).spec_id()),
            g.spec_id() == old(self).spec_id(),
            final(self).spec_id() == old(self).spec_id(),
            final(self).spec_held(),
    {
        let me = self.id;
        d.write_intent(me, true);
        while d.read_intent(me.other())
            invariant
                !d.spec_intent(me.spec_other()),
                d.spec_intent(me),
                d.spec_turn() == old(d).spec_turn(),
                d.spec_value() == old(d).spec_value(),
                d.spec_live() == old(d).spec_live(),
            decreases 0int,
        {
            if d.read_turn() != me {
                d.write_intent(me, false);
                while d.read_turn() != me
                    invariant
                        d.spec_turn() == me,
                    decreases 0int,
                {
                }
                d.write_intent(me, true);
            }
        }
        self.held = true;
        Guard::new(me)
    }

    /// Release the lock: hand the turn to the other side, then lower this
    /// side's intent flag, surrendering the guard. The turn hand-off in the
    /// postcondition is the alternation that keeps the other side from
    /// starving.
    pub fn unlock<T>(&mut self, d: &mut Dekker<T>, g: Guard)
        requires
            g.spec_id() == old(self).spec_id(),
            old(self).spec_held(),
            old(d).spec_intent(g.spec_id()),
        ensures
            unlock_post(*old(d), *final(d), old(self).spec_id()),
            final(self).spec_id() == old(self).spec_id(),
            !final(self).spec_held(),
    {
        let me = self.id;
        let _ = g;
        d.write_turn(me.other());
        d.write_intent(me, false);
        self.held = false;
    }

    /// Tear this handle down: acquire the lock — the live count is shared
    /// state under the same discipline as the protected value — decrement
    /// the count, and either hand the surviving state back released, or,
    /// when this was the last of the two handles, dissolve the sharing and
    /// reclaim the protected value. On that last path there is nobody left
    /// to release toward, and the lock dies with the state.
    pub fn close<T>(self, d: Dekker<T>) -> (out: CloseOutcome<T>)
        requires
            d.quiescent(),
            d.spec_live() >= 1,
            !self.spec_held(),
        ensures
            close_post(d, out, self.spec_id()),
    {
        let mut me = self;
        let mut d = d;
        let g = me.lock(&mut d);
        d.live_handles = d.live_handles - 1;
        if d.live_handles == 0 {
            CloseOutcome::Reclaimed(d.value)
        } else {
            me.unlock(&mut d, g);
            CloseOutcome::StillShared(d)
        }
    }
}

impl Guard {
    /// The identity of the participant whose acquire this guard witnesses.
    pub closed spec fn spec_id(self) -> ProcessId {
        self.id
    }

    /// A guard for the given participant. Created only by a successful
    /// acquire.
    fn new(id: ProcessId) -> (g: Guard)
        ensures
            g.spec_id() == id,
    {
        Guard { id }
    }

    /// The identity of the participant whose acquire this guard witnesses,
    /// for observation from outside.
    pub fn id(&self) -> (r: ProcessId)
        ensures
            r == self.spec_id(),
    {
        self.id
    }
}

/// Single-thread sequencing: one thread of control that acquires, writes
/// and releases through the first handle and then does the same through the
/// second composes exactly as sequential code would. Each intermediate
/// state is quiescent when the next acquire asks for it, the value read
/// back is the value last written, the live count never moves, and after
/// the two rounds the turn has alternated back to the first participant.
pub proof fn lemma_single_thread_sequencing<T>(
    d0: Dekker<T>,
    d1: Dekker<T>,
    d2: Dekker<T>,
    d3: Dekker<T>,
    d4: Dekker<T>,
    d5: Dekker<T>,
    d6: Dekker<T>,
    v1: T,
    v2: T,
)
    requires
        d0.quiescent(),
        lock_post(d0, d1, ProcessId::First),
        write_post(d1, d2, v1),
        unlock_post(d2, d3, ProcessId::First),
        lock_post(d3, d4, ProcessId::Second),
        write_post(d4, d5, v2),
        unlock_post(d5, d6, ProcessId::Second),
    ensures
        d3.quiescent(),
        d3.spec_value() == v1,
        d3.spec_turn() == ProcessId::Second,
        d6.quiescent(),
        d6.spec_value() == v2,
        d6.spec_turn() == ProcessId::First,
        d6.spec_live() == d0.spec_live(),
{
}

/// The instant of the protocol model that a shared state observed between
/// operations of a single thread of control corresponds to. Such a thread
/// is never suspended inside an acquire or a release, so each participant
/// is either outside the protocol with its intent flag down, or inside the
/// critical section with its intent flag up: the flag determines the phase.
pub open spec fn protocol_view<T>(d: Dekker<T>) -> model::ProtocolState {
    (model::ProtocolState {
        turn: d.spec_turn(),
        intent_first: d.spec_intent(ProcessId::First),
        intent_second: d.spec_intent(ProcessId::Second),
        phase_first: if d.spec_intent(ProcessId::First) {
            model::Phase::Critical
        } else {
            model::Phase::Idle
        },
        phase_second: if d.spec_intent(ProcessId::Second) {
            model::Phase::Critical
        } else {
            model::Phase::Idle
        },
    })
}

/// An acquire of the executable layer is the uncontended entry path of the
/// protocol model: from the view of a quiescent state, exactly two steps of
/// the acquiring participant — raise intent, read the other flag down —
/// reach the view of the state the acquire leaves behind, with the
/// participant in the critical section.
pub proof fn lemma_lock_refines_model<T>(pre: Dekker<T>, post: Dekker<T>, p: ProcessId)
    requires
        pre.quiescent(),
        lock_post(pre, post, p),
    ensures
        model::step(protocol_view(pre), model::step_target(protocol_view(pre), p), p),
        model::step(
            model::step_target(protocol_view(pre), p),
            protocol_view(post),
            p,
        ),
        protocol_view(post).phase(p) is Critical,
{
    model::lemma_uncontended_entry(protocol_view(pre), p);
}

/// A release of the executable layer is the release path of the protocol
/// model: from the view of a state its owner holds, exactly two steps of
/// the releasing participant — hand over the turn, lower the intent flag —
/// reach the view of the state the release leaves behind, with the
/// participant back outside the protocol.
pub proof fn lemma_unlock_refines_model<T>(pre: Dekker<T>, post: Dekker<T>, p: ProcessId)
    requires
        pre.spec_intent(p),
        !pre.spec_intent(p.spec_other()),
        unlock_post(pre, post, p),
    ensures
        model::step(protocol_view(pre), model::step_target(protocol_view(pre), p), p),
        model::step(
            model::step_target(protocol_view(pre), p),
            protocol_view(post),
            p,
        ),
        protocol_view(post).phase(p) is Idle,
{
}

/// Teardown happens exactly once: starting from the two live handles that
/// construction hands out, the first close — by either handle — never
/// reclaims, and leaves the state quiescent with one live handle and the
/// value untouched; the second close always reclaims, handing back exactly
/// the protected value. The shared state is consumed by value on that
/// second close, so no path frees it twice or lets a handle reach it
/// afterwards.
pub proof fn lemma_teardown_exactly_once<T>(
    d0: Dekker<T>,
    p: ProcessId,
    q: ProcessId,
    o1: CloseOutcome<T>,
    o2: CloseOutcome<T>,
)
    requires
        d0.spec_live() == 2,
        d0.quiescent(),
        close_post(d0, o1, p),
        o1 matches CloseOutcome::StillShared(d1) ==> close_post(d1, o2, q),
    ensures
        (o1 matches CloseOutcome::StillShared(d1) && d1.spec_live() == 1 && d1.quiescent()
            && d1.spec_value() == d0.spec_value()),
        (o2 matches CloseOutcome::Reclaimed(v) && v == d0.spec_value()),
{
}

} // verus!
