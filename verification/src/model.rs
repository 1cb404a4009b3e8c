//! A small-step model of the two-participant protocol, and its proofs.
//!
//! Each participant runs the acquire loop of the protocol:
//!
//! 1. raise its own intent flag;
//! 2. while the other side's intent flag is up: if the turn belongs to the
//!    other side, lower its own intent, spin until the turn comes round, and
//!    raise its intent again;
//! 3. enter the critical section;
//!
//! and releases by handing the turn to the other side and then lowering its
//! own intent flag.
//!
//! The model breaks this code into steps that each perform exactly one read
//! or one write of the three shared fields (the two intent flags and the
//! turn), so that an execution of the model covers every interleaving of the
//! two participants' shared-memory accesses. [`Phase`] is the program counter
//! of one participant between two such accesses; [`step_target`] is the
//! (per-participant deterministic) successor state; [`next`] lets either
//! participant move.
//!
//! The proofs at the bottom establish, over all executions: mutual exclusion,
//! that the two sides can never both be stalled, and that only a release
//! moves the turn, always handing it to the non-releasing side.

use crate::participant::ProcessId;
use vstd::prelude::*;

verus! {

/// The program counter of one participant, naming the next shared-memory
/// access that participant will perform.
pub enum Phase {
    /// Outside the protocol; this participant's intent flag is down.
    Idle,
    /// Intent raised; about to read the other side's intent flag.
    Check,
    /// Saw the other side's intent up; about to read the turn.
    TestTurn,
    /// Saw the turn held by the other side; about to lower its own intent.
    Retract,
    /// Intent lowered; about to read the turn again, spinning until it
    /// comes round.
    Spin,
    /// Saw the turn come round; about to raise its intent again.
    Reraise,
    /// Inside the critical section.
    Critical,
    /// Releasing: the turn has been handed over, its own intent is still up.
    HandOver,
}

/// One instant of the whole system: the three shared fields and the two
/// program counters.
pub struct ProtocolState {
    pub turn: ProcessId,
    pub intent_first: bool,
    pub intent_second: bool,
    pub phase_first: Phase,
    pub phase_second: Phase,
}

impl ProtocolState {
    /// The intent flag of participant `p`.
    pub open spec fn intent(self, p: ProcessId) -> bool {
        match p {
            ProcessId::First => self.intent_first,
            ProcessId::Second => self.intent_second,
        }
    }

    /// The program counter of participant `p`.
    pub open spec fn phase(self, p: ProcessId) -> Phase {
        match p {
            ProcessId::First => self.phase_first,
            ProcessId::Second => self.phase_second,
        }
    }

    /// The same state with `p`'s intent flag set to `b`.
    pub open spec fn with_intent(self, p: ProcessId, b: bool) -> ProtocolState {
        match p {
            ProcessId::First => ProtocolState { intent_first: b, ..self },
            ProcessId::Second => ProtocolState { intent_second: b, ..self },
        }
    }

    /// The same state with `p`'s program counter set to `ph`.
    pub open spec fn with_phase(self, p: ProcessId, ph: Phase) -> ProtocolState {
        match p {
            ProcessId::First => ProtocolState { phase_first: ph, ..self },
            ProcessId::Second => ProtocolState { phase_second: ph, ..self },
        }
    }

    /// The same state with the turn set to `t`.
    pub open spec fn with_turn(self, t: ProcessId) -> ProtocolState {
        ProtocolState { turn: t, ..self }
    }
}

/// The initial state: nobody contends, the turn belongs to the first
/// participant.
pub open spec fn init(s: ProtocolState) -> bool {
    &&& s.turn == ProcessId::First
    &&& !s.intent_first
    &&& !s.intent_second
    &&& s.phase_first is Idle
    &&& s.phase_second is Idle
}

/// The state after participant `p` performs its one next shared-memory
/// access. Deterministic per participant: all nondeterminism of the system
/// lies in which participant moves.
pub open spec fn step_target(pre: ProtocolState, p: ProcessId) -> ProtocolState {
    match pre.phase(p) {
        Phase::Idle => pre.with_intent(p, true).with_phase(p, Phase::Check),
        Phase::Check => if pre.intent(p.spec_other()) {
            pre.with_phase(p, Phase::TestTurn)
        } else {
            pre.with_phase(p, Phase::Critical)
        },
        Phase::TestTurn => if pre.turn == p {
            pre.with_phase(p, Phase::Check)
        } else {
            pre.with_phase(p, Phase::Retract)
        },
        Phase::Retract => pre.with_intent(p, false).with_phase(p, Phase::Spin),
        Phase::Spin => if pre.turn == p {
            pre.with_phase(p, Phase::Reraise)
        } else {
            pre
        },
        Phase::Reraise => pre.with_intent(p, true).with_phase(p, Phase::Check),
        Phase::Critical => pre.with_turn(p.spec_other()).with_phase(p, Phase::HandOver),
        Phase::HandOver => pre.with_intent(p, false).with_phase(p, Phase::Idle),
    }
}

/// Participant `p` moves from `pre` to `post`.
pub open spec fn step(pre: ProtocolState, post: ProtocolState, p: ProcessId) -> bool {
    post == step_target(pre, p)
}

/// One of the two participants moves.
pub open spec fn next(pre: ProtocolState, post: ProtocolState) -> bool {
    exists|p: ProcessId| step(pre, post, p)
}

/// The phases in which a participant's intent flag is up.
pub open spec fn intent_raised(ph: Phase) -> bool {
    ||| ph is Check
    ||| ph is TestTurn
    ||| ph is Retract
    ||| ph is Critical
    ||| ph is HandOver
}

/// The phases in which a participant holds exclusive access: inside the
/// critical section, or releasing but not yet done.
pub open spec fn holding(ph: Phase) -> bool {
    ||| ph is Critical
    ||| ph is HandOver
}

/// The inductive invariant: each intent flag is up exactly in the phases
/// that keep it up, and the two sides never hold exclusive access at once.
pub open spec fn inv(s: ProtocolState) -> bool {
    &&& s.intent_first == intent_raised(s.phase_first)
    &&& s.intent_second == intent_raised(s.phase_second)
    &&& !(holding(s.phase_first) && holding(s.phase_second))
}

/// The initial state satisfies the invariant.
pub proof fn lemma_init_inv(s: ProtocolState)
    requires
        init(s),
    ensures
        inv(s),
{
}

/// Every step of either participant preserves the invariant. The key case is
/// entry into the critical section: it happens only after reading the other
/// side's intent flag down, and a holder keeps its intent flag up, so the
/// other side cannot be holding at that instant.
pub proof fn lemma_step_preserves_inv(pre: ProtocolState, post: ProtocolState, p: ProcessId)
    requires
        inv(pre),
        step(pre, post, p),
    ensures
        inv(post),
{
}

/// Either participant's move preserves the invariant.
pub proof fn lemma_next_preserves_inv(pre: ProtocolState, post: ProtocolState)
    requires
        inv(pre),
        next(pre, post),
    ensures
        inv(post),
{
    let p = choose|p: ProcessId| step(pre, post, p);
    lemma_step_preserves_inv(pre, post, p);
}

/// An execution: a nonempty sequence of states that starts in the initial
/// state, each followed state reached by a step of one of the participants.
/// Which participant moves at each instant is arbitrary, so executions range
/// over every interleaving.
pub open spec fn is_execution(ex: Seq<ProtocolState>) -> bool {
    &&& ex.len() > 0
    &&& init(ex[0])
    &&& forall|i: int| 0 <= i < ex.len() - 1 ==> next(#[trigger] ex[i], ex[i + 1])
}

/// Every state of every execution satisfies the invariant.
pub proof fn lemma_execution_inv(ex: Seq<ProtocolState>, i: int)
    requires
        is_execution(ex),
        0 <= i < ex.len(),
    ensures
        inv(ex[i]),
    decreases i,
{
    if i == 0 {
        lemma_init_inv(ex[0]);
    } else {
        lemma_execution_inv(ex, i - 1);
        lemma_next_preserves_inv(ex[i - 1], ex[i]);
    }
}

/// Mutual exclusion: in no execution of the protocol — under any
/// interleaving of the two participants' shared-memory accesses — is there
/// an instant at which both participants hold exclusive access.
pub proof fn lemma_mutual_exclusion(ex: Seq<ProtocolState>, i: int)
    requires
        is_execution(ex),
        0 <= i < ex.len(),
    ensures
        !(holding(ex[i].phase_first) && holding(ex[i].phase_second)),
        !(ex[i].phase_first is Critical && ex[i].phase_second is Critical),
{
    lemma_execution_inv(ex, i);
}

/// Participant `p` is stalled: its next step leaves the state unchanged.
/// This happens exactly when `p` spins for a turn held by the other side.
pub open spec fn stalled(s: ProtocolState, p: ProcessId) -> bool {
    step_target(s, p) == s
}

/// A participant is stalled only when it is spinning while the turn belongs
/// to the other side.
pub proof fn lemma_stalled_is_spinning(s: ProtocolState, p: ProcessId)
    requires
        stalled(s, p),
    ensures
        s.phase(p) is Spin,
        s.turn != p,
{
    match s.phase(p) {
        Phase::Idle => {
            assert(step_target(s, p).phase(p) is Check);
        },
        Phase::Check => {
            assert(!(step_target(s, p).phase(p) is Check));
        },
        Phase::TestTurn => {
            assert(!(step_target(s, p).phase(p) is TestTurn));
        },
        Phase::Retract => {
            assert(step_target(s, p).phase(p) is Spin);
        },
        Phase::Spin => {
            if s.turn == p {
                assert(step_target(s, p).phase(p) is Reraise);
            }
        },
        Phase::Reraise => {
            assert(step_target(s, p).phase(p) is Check);
        },
        Phase::Critical => {
            assert(step_target(s, p).phase(p) is HandOver);
        },
        Phase::HandOver => {
            assert(step_target(s, p).phase(p) is Idle);
        },
    }
}

/// The protocol never wedges: in every state, each participant has its one
/// next step enabled, so the system as a whole can always move.
pub proof fn lemma_step_always_enabled(s: ProtocolState, p: ProcessId)
    ensures
        next(s, step_target(s, p)),
{
    assert(step(s, step_target(s, p), p));
}

/// Progress: at no instant are both participants stalled. The turn always
/// belongs to one of the two sides, and only the side that does not hold the
/// turn can be stuck spinning for it, so at least one participant's next
/// step always changes the state.
pub proof fn lemma_no_mutual_block(s: ProtocolState)
    ensures
        !(stalled(s, ProcessId::First) && stalled(s, ProcessId::Second)),
{
    if stalled(s, ProcessId::First) && stalled(s, ProcessId::Second) {
        lemma_stalled_is_spinning(s, ProcessId::First);
        lemma_stalled_is_spinning(s, ProcessId::Second);
    }
}

/// Turn hand-off: the release step of participant `p` — the single write it
/// performs on leaving the critical section — hands the turn to the
/// participant that did not just release.
pub proof fn lemma_release_hands_turn(s: ProtocolState, p: ProcessId)
    requires
        s.phase(p) is Critical,
    ensures
        step_target(s, p).turn == p.spec_other(),
{
}

/// The turn moves only on release: a step of `p` that changes the turn can
/// only be `p`'s release step out of the critical section.
pub proof fn lemma_only_release_moves_turn(s: ProtocolState, p: ProcessId)
    requires
        step_target(s, p).turn != s.turn,
    ensures
        s.phase(p) is Critical,
        step_target(s, p).turn == p.spec_other(),
{
}

/// Turn alternation over whole executions: whenever the turn changes
/// between two consecutive instants of an execution, the step in between
/// was a release, and the turn now names the participant that did not just
/// release.
pub proof fn lemma_execution_turn_alternation(ex: Seq<ProtocolState>, i: int)
    requires
        is_execution(ex),
        0 <= i < ex.len() - 1,
        ex[i + 1].turn != ex[i].turn,
    ensures
        exists|p: ProcessId|
            {
                &&& #[trigger] step(ex[i], ex[i + 1], p)
                &&& ex[i].phase(p) is Critical
                &&& ex[i + 1].turn == p.spec_other()
            },
{
    let s1 = ex[i];
    let s2 = ex[i + 1];
    let p = choose|p: ProcessId| step(s1, s2, p);
    lemma_only_release_moves_turn(s1, p);
    assert(step(ex[i], ex[i + 1], p) && ex[i].phase(p) is Critical && ex[i + 1].turn
        == p.spec_other());
}

/// An uncontended acquire takes exactly two steps: from `Idle`, with the
/// other side's intent flag down, a participant raises its intent and then
/// reads the other flag down and enters the critical section. This is the
/// path the executable single-thread embodiment takes.
pub proof fn lemma_uncontended_entry(s: ProtocolState, p: ProcessId)
    requires
        s.phase(p) is Idle,
        !s.intent(p.spec_other()),
    ensures
        step_target(step_target(s, p), p).phase(p) is Critical,
        step_target(step_target(s, p), p).turn == s.turn,
        step_target(step_target(s, p), p).phase(p.spec_other()) == s.phase(p.spec_other()),
{
}

} // verus!
