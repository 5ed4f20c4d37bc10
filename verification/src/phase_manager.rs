//! The turn sequencer: eight phases, each with a beginning and an end, run
//! through in a fixed order that wraps around after the last one.

use vstd::prelude::*;

verus! {

/// The phases of a turn, in the order in which a turn runs through them.
#[derive(Debug, PartialEq, Eq, Clone, Copy, Structural)]
pub enum Phase {
    Untap,
    Upkeep,
    Draw,
    PreCombatMain,
    Combat,
    PostCombatMain,
    End,
    Cleanup,
}

/// The two halves of every phase.
#[derive(Debug, PartialEq, Eq, Clone, Copy, Structural)]
pub enum SubPhase {
    Beginning,
    End,
}

impl Phase {
    /// The place of the phase within a turn, counted from zero.
    pub open spec fn ordinal(self) -> nat {
        match self {
            Phase::Untap => 0,
            Phase::Upkeep => 1,
            Phase::Draw => 2,
            Phase::PreCombatMain => 3,
            Phase::Combat => 4,
            Phase::PostCombatMain => 5,
            Phase::End => 6,
            Phase::Cleanup => 7,
        }
    }

    /// The phase that comes after this one; after `Cleanup` comes `Untap`.
    pub open spec fn following(self) -> Phase {
        match self {
            Phase::Untap => Phase::Upkeep,
            Phase::Upkeep => Phase::Draw,
            Phase::Draw => Phase::PreCombatMain,
            Phase::PreCombatMain => Phase::Combat,
            Phase::Combat => Phase::PostCombatMain,
            Phase::PostCombatMain => Phase::End,
            Phase::End => Phase::Cleanup,
            Phase::Cleanup => Phase::Untap,
        }
    }
}

/// The number of distinct steps of a turn: every phase has two halves.
pub open spec fn steps_per_turn() -> nat {
    16
}

/// Where every game starts.
pub open spec fn first_step() -> (Phase, SubPhase) {
    (Phase::Untap, SubPhase::Beginning)
}

/// The place of a step within a turn, counted from zero: the beginning of a
/// phase comes right before its end, and a phase before the one following it.
pub open spec fn position(at: (Phase, SubPhase)) -> nat {
    2 * at.0.ordinal() + match at.1 {
        SubPhase::Beginning => 0nat,
        SubPhase::End => 1nat,
    }
}

/// The step that follows `at`: from the beginning of a phase to its end, from
/// its end to the beginning of the following phase.
pub open spec fn step_after(at: (Phase, SubPhase)) -> (Phase, SubPhase) {
    match at.1 {
        SubPhase::Beginning => (at.0, SubPhase::End),
        SubPhase::End => (at.0.following(), SubPhase::Beginning),
    }
}

/// The step reached from `at` by advancing `n` times.
pub open spec fn after_steps(at: (Phase, SubPhase), n: nat) -> (Phase, SubPhase)
    decreases n,
{
    if n == 0 {
        at
    } else {
        step_after(after_steps(at, (n - 1) as nat))
    }
}

/// Keeps track of the phase and sub-phase that a turn is in.
#[derive(Debug)]
pub struct PhaseManager {
    current_phase: Phase,
    current_subphase: SubPhase,
}

impl View for PhaseManager {
    type V = (Phase, SubPhase);

    closed spec fn view(&self) -> (Phase, SubPhase) {
        (self.current_phase, self.current_subphase)
    }
}

impl PhaseManager {
    /// A sequencer at the beginning of the untap phase.
    pub fn new() -> (manager: Self)
        ensures
            manager@ == first_step(),
    {
        Self { current_phase: Phase::Untap, current_subphase: SubPhase::Beginning }
    }

    /// The trigger pass that `process_phase` runs for the step the turn is in.
    /// This library attaches no effect to any step, so the pass is empty; game
    /// logic hands its own pass to `process_phase_with`.
    pub fn resolve_phase_triggers(&self, phase: &Phase, subphase: &SubPhase) {
    }

    /// Runs the library's own trigger pass for the current step, then moves on
    /// by one step.
    pub fn process_phase(&mut self)
        ensures
            final(self)@ == step_after(old(self)@),
    {
        self.resolve_phase_triggers(&self.current_phase, &self.current_subphase);
        self.next()
    }

    /// Runs `resolve` once, on the step the turn is in before anything changes,
    /// and hands back what it returned. The turn moves on by one step if the
    /// pass succeeded; after a failed pass it stays where it was, so that the
    /// caller can decide whether to run the pass again or to skip it with
    /// `next`.
    pub fn process_phase_with<X, F>(&mut self, resolve: F) -> (outcome: Result<(), X>) where
        F: FnOnce(Phase, SubPhase) -> Result<(), X>,

        requires
            resolve.requires((old(self)@.0, old(self)@.1)),
        ensures
            resolve.ensures((old(self)@.0, old(self)@.1), outcome),
            outcome is Ok ==> final(self)@ == step_after(old(self)@),
            outcome is Err ==> final(self)@ == old(self)@,
    {
        let outcome = resolve(self.current_phase, self.current_subphase);
        if outcome.is_ok() {
            self.next();
        }
        outcome
    }

    /// Moves on by exactly one step.
    pub fn next(&mut self)
        ensures
            final(self)@ == step_after(old(self)@),
    {
        match self.current_subphase {
            SubPhase::Beginning => {
                self.current_subphase = SubPhase::End;
            },
            SubPhase::End => {
                self.current_phase =
                match self.current_phase {
                    Phase::Untap => Phase::Upkeep,
                    Phase::Upkeep => Phase::Draw,
                    Phase::Draw => Phase::PreCombatMain,
                    Phase::PreCombatMain => Phase::Combat,
                    Phase::Combat => Phase::PostCombatMain,
                    Phase::PostCombatMain => Phase::End,
                    Phase::End => Phase::Cleanup,
                    Phase::Cleanup => Phase::Untap,
                };
                self.current_subphase = SubPhase::Beginning;
            },
        }
    }

    /// The phase and sub-phase that the turn is in.
    pub fn get_phase(&self) -> (at: (Phase, SubPhase))
        ensures
            at == self@,
    {
        (self.current_phase, self.current_subphase)
    }

    /// Whether the turn is in the given phase and sub-phase.
    pub fn is_phase(&self, phase: Phase, subphase: SubPhase) -> (yes: bool)
        ensures
            yes == (self@ == (phase, subphase)),
    {
        self.current_phase == phase && self.current_subphase == subphase
    }
}

/// One step moves the turn one place further and, from the last place, back
/// to the first.
pub proof fn lemma_step_moves_one_place(at: (Phase, SubPhase))
    ensures
        position(at) < steps_per_turn(),
        position(step_after(at)) == (position(at) + 1) % steps_per_turn(),
{
}

/// No two steps share a place within the turn.
pub proof fn lemma_position_is_injective(a: (Phase, SubPhase), b: (Phase, SubPhase))
    requires
        position(a) == position(b),
    ensures
        a == b,
{
}

/// Advancing `n` times moves the turn `n` places further, wrapping around at
/// the end of the turn.
pub proof fn lemma_position_after_steps(at: (Phase, SubPhase), n: nat)
    ensures
        position(after_steps(at, n)) == (position(at) + n) % steps_per_turn(),
    decreases n,
{
    if n > 0 {
        lemma_position_after_steps(at, (n - 1) as nat);
        lemma_step_moves_one_place(after_steps(at, (n - 1) as nat));
    }
}

/// A full cycle: sixteen advances lead from any step back to that step, and
/// the steps passed on the way are all different. Counted from the first step
/// of a game, the advances visit the steps in the order of their places, every
/// step exactly once.
pub proof fn lemma_full_cycle(at: (Phase, SubPhase))
    ensures
        after_steps(at, steps_per_turn()) == at,
        forall|i: nat, j: nat|
            i < j < steps_per_turn() ==> after_steps(at, i) != after_steps(at, j),
        forall|i: nat|
            i < steps_per_turn() ==> position(#[trigger] after_steps(first_step(), i)) == i,
        forall|step: (Phase, SubPhase)|
            after_steps(first_step(), #[trigger] position(step)) == step,
{
    lemma_position_after_steps(at, steps_per_turn());
    lemma_position_is_injective(after_steps(at, steps_per_turn()), at);
    assert forall|i: nat, j: nat| i < j < steps_per_turn() implies after_steps(at, i)
        != after_steps(at, j) by {
        lemma_position_after_steps(at, i);
        lemma_position_after_steps(at, j);
    }
    assert forall|i: nat| i < steps_per_turn() implies position(
        #[trigger] after_steps(first_step(), i),
    ) == i by {
        lemma_position_after_steps(first_step(), i);
    }
    assert forall|step: (Phase, SubPhase)|
        after_steps(first_step(), #[trigger] position(step)) == step by {
        lemma_position_after_steps(first_step(), position(step));
        lemma_position_is_injective(after_steps(first_step(), position(step)), step);
    }
}

} // verus!
