//! The phase cycle of the `.unwrap()` particle animation.
//!
//! The animation runs through four phases (scatter, converge, stable,
//! dissolve), each split into sub-phases, seventeen steps in all. The steps
//! come in a fixed order; after the last one the animation starts over.
use vstd::prelude::*;

verus! {

#[derive(Clone, Copy, PartialEq, Eq, Structural, Debug)]
pub enum ScatterSubPhase {
    Initial,
    Expansion,
    Contraction,
    PreConverge,
}

#[derive(Clone, Copy, PartialEq, Eq, Structural, Debug)]
pub enum ConvergeSubPhase {
    Alignment,
    Formation,
    Refinement,
    Solidification,
}

#[derive(Clone, Copy, PartialEq, Eq, Structural, Debug)]
pub enum StableSubPhase {
    Pulse,
    Orbit,
    Ripple,
    Shimmer,
    PreDissolve,
}

#[derive(Clone, Copy, PartialEq, Eq, Structural, Debug)]
pub enum DissolveSubPhase {
    Fracture,
    Explosion,
    Dispersion,
    Fade,
}

#[derive(Clone, Copy, PartialEq, Eq, Structural, Debug)]
pub enum AnimationPhase {
    Scatter(ScatterSubPhase),
    Converge(ConvergeSubPhase),
    Stable(StableSubPhase),
    Dissolve(DissolveSubPhase),
}

/// Number of steps in one cycle of the animation.
pub open spec fn cycle_len() -> nat {
    17
}

/// Position of a phase in the cycle: 0 for the first step, 16 for the last.
pub open spec fn order(p: AnimationPhase) -> nat {
    match p {
        AnimationPhase::Scatter(s) => match s {
            ScatterSubPhase::Initial => 0,
            ScatterSubPhase::Expansion => 1,
            ScatterSubPhase::Contraction => 2,
            ScatterSubPhase::PreConverge => 3,
        },
        AnimationPhase::Converge(s) => match s {
            ConvergeSubPhase::Alignment => 4,
            ConvergeSubPhase::Formation => 5,
            ConvergeSubPhase::Refinement => 6,
            ConvergeSubPhase::Solidification => 7,
        },
        AnimationPhase::Stable(s) => match s {
            StableSubPhase::Pulse => 8,
            StableSubPhase::Orbit => 9,
            StableSubPhase::Ripple => 10,
            StableSubPhase::Shimmer => 11,
            StableSubPhase::PreDissolve => 12,
        },
        AnimationPhase::Dissolve(s) => match s {
            DissolveSubPhase::Fracture => 13,
            DissolveSubPhase::Explosion => 14,
            DissolveSubPhase::Dispersion => 15,
            DissolveSubPhase::Fade => 16,
        },
    }
}

/// The phase at position `i` of the cycle (positions past the end give the last phase).
pub open spec fn phase_at(i: nat) -> AnimationPhase {
    if i == 0 {
        AnimationPhase::Scatter(ScatterSubPhase::Initial)
    } else if i == 1 {
        AnimationPhase::Scatter(ScatterSubPhase::Expansion)
    } else if i == 2 {
        AnimationPhase::Scatter(ScatterSubPhase::Contraction)
    } else if i == 3 {
        AnimationPhase::Scatter(ScatterSubPhase::PreConverge)
    } else if i == 4 {
        AnimationPhase::Converge(ConvergeSubPhase::Alignment)
    } else if i == 5 {
        AnimationPhase::Converge(ConvergeSubPhase::Formation)
    } else if i == 6 {
        AnimationPhase::Converge(ConvergeSubPhase::Refinement)
    } else if i == 7 {
        AnimationPhase::Converge(ConvergeSubPhase::Solidification)
    } else if i == 8 {
        AnimationPhase::Stable(StableSubPhase::Pulse)
    } else if i == 9 {
        AnimationPhase::Stable(StableSubPhase::Orbit)
    } else if i == 10 {
        AnimationPhase::Stable(StableSubPhase::Ripple)
    } else if i == 11 {
        AnimationPhase::Stable(StableSubPhase::Shimmer)
    } else if i == 12 {
        AnimationPhase::Stable(StableSubPhase::PreDissolve)
    } else if i == 13 {
        AnimationPhase::Dissolve(DissolveSubPhase::Fracture)
    } else if i == 14 {
        AnimationPhase::Dissolve(DissolveSubPhase::Explosion)
    } else if i == 15 {
        AnimationPhase::Dissolve(DissolveSubPhase::Dispersion)
    } else {
        AnimationPhase::Dissolve(DissolveSubPhase::Fade)
    }
}

/// How long a phase lasts, in milliseconds of animation progress.
pub open spec fn duration_ms(p: AnimationPhase) -> u32 {
    match p {
        AnimationPhase::Scatter(s) => match s {
            ScatterSubPhase::Initial => 600,
            ScatterSubPhase::Expansion => 1200,
            ScatterSubPhase::Contraction => 1800,
            ScatterSubPhase::PreConverge => 2500,
        },
        AnimationPhase::Converge(s) => match s {
            ConvergeSubPhase::Alignment => 800,
            ConvergeSubPhase::Formation => 1400,
            ConvergeSubPhase::Refinement => 1800,
            ConvergeSubPhase::Solidification => 2200,
        },
        AnimationPhase::Stable(s) => match s {
            StableSubPhase::Pulse => 600,
            StableSubPhase::Orbit => 600,
            StableSubPhase::Ripple => 600,
            StableSubPhase::Shimmer => 600,
            StableSubPhase::PreDissolve => 1000,
        },
        AnimationPhase::Dissolve(s) => match s {
            DissolveSubPhase::Fracture => 500,
            DissolveSubPhase::Explosion => 1000,
            DissolveSubPhase::Dispersion => 1500,
            DissolveSubPhase::Fade => 2000,
        },
    }
}

impl AnimationPhase {
    /// The step that follows this one, or `None` after the last step of the cycle.
    pub fn next(self) -> (r: Option<AnimationPhase>)
        ensures
            order(self) + 1 < cycle_len() ==> r == Some(phase_at(order(self) + 1)),
            order(self) + 1 >= cycle_len() ==> r is None,
    {
        match self {
            AnimationPhase::Scatter(s) => match s {
                ScatterSubPhase::Initial => Some(AnimationPhase::Scatter(ScatterSubPhase::Expansion)),
                ScatterSubPhase::Expansion => Some(AnimationPhase::Scatter(ScatterSubPhase::Contraction)),
                ScatterSubPhase::Contraction => Some(AnimationPhase::Scatter(ScatterSubPhase::PreConverge)),
                ScatterSubPhase::PreConverge => Some(AnimationPhase::Converge(ConvergeSubPhase::Alignment)),
            },
            AnimationPhase::Converge(s) => match s {
                ConvergeSubPhase::Alignment => Some(AnimationPhase::Converge(ConvergeSubPhase::Formation)),
                ConvergeSubPhase::Formation => Some(AnimationPhase::Converge(ConvergeSubPhase::Refinement)),
                ConvergeSubPhase::Refinement => Some(AnimationPhase::Converge(ConvergeSubPhase::Solidification)),
                ConvergeSubPhase::Solidification => Some(AnimationPhase::Stable(StableSubPhase::Pulse)),
            },
            AnimationPhase::Stable(s) => match s {
                StableSubPhase::Pulse => Some(AnimationPhase::Stable(StableSubPhase::Orbit)),
                StableSubPhase::Orbit => Some(AnimationPhase::Stable(StableSubPhase::Ripple)),
                StableSubPhase::Ripple => Some(AnimationPhase::Stable(StableSubPhase::Shimmer)),
                StableSubPhase::Shimmer => Some(AnimationPhase::Stable(StableSubPhase::PreDissolve)),
                StableSubPhase::PreDissolve => Some(AnimationPhase::Dissolve(DissolveSubPhase::Fracture)),
            },
            AnimationPhase::Dissolve(s) => match s {
                DissolveSubPhase::Fracture => Some(AnimationPhase::Dissolve(DissolveSubPhase::Explosion)),
                DissolveSubPhase::Explosion => Some(AnimationPhase::Dissolve(DissolveSubPhase::Dispersion)),
                DissolveSubPhase::Dispersion => Some(AnimationPhase::Dissolve(DissolveSubPhase::Fade)),
                DissolveSubPhase::Fade => None,
            },
        }
    }

    /// How long this phase lasts, in milliseconds of animation progress.
    pub fn duration(&self) -> (ms: u32)
        ensures
            ms == duration_ms(*self),
    {
        match self {
            AnimationPhase::Scatter(s) => match s {
                ScatterSubPhase::Initial => 600,
                ScatterSubPhase::Expansion => 1200,
                ScatterSubPhase::Contraction => 1800,
                ScatterSubPhase::PreConverge => 2500,
            },
            AnimationPhase::Converge(s) => match s {
                ConvergeSubPhase::Alignment => 800,
                ConvergeSubPhase::Formation => 1400,
                ConvergeSubPhase::Refinement => 1800,
                ConvergeSubPhase::Solidification => 2200,
            },
            AnimationPhase::Stable(s) => match s {
                StableSubPhase::Pulse => 600,
                StableSubPhase::Orbit => 600,
                StableSubPhase::Ripple => 600,
                StableSubPhase::Shimmer => 600,
                StableSubPhase::PreDissolve => 1000,
            },
            AnimationPhase::Dissolve(s) => match s {
                DissolveSubPhase::Fracture => 500,
                DissolveSubPhase::Explosion => 1000,
                DissolveSubPhase::Dispersion => 1500,
                DissolveSubPhase::Fade => 2000,
            },
        }
    }

    /// The first step of the cycle.
    pub fn initial() -> (p: AnimationPhase)
        ensures
            p == phase_at(0),
            order(p) == 0,
    {
        AnimationPhase::Scatter(ScatterSubPhase::Initial)
    }
}

/// What one animation tick does to the phase: the phase to show next, whether
/// the particles start over, and whether progress goes back to zero.
#[derive(Clone, Copy, PartialEq, Eq, Structural, Debug)]
pub struct PhaseTick {
    pub phase: AnimationPhase,
    pub restart: bool,
    pub reset_progress: bool,
}

/// The outcome of a tick in `phase`, given whether the phase's duration has
/// passed and whether a step is already under way.
pub open spec fn tick_outcome(phase: AnimationPhase, expired: bool, advancing: bool) -> PhaseTick {
    if expired && !advancing {
        if order(phase) + 1 < cycle_len() {
            PhaseTick { phase: phase_at(order(phase) + 1), restart: false, reset_progress: true }
        } else {
            PhaseTick { phase: phase_at(0), restart: true, reset_progress: true }
        }
    } else {
        PhaseTick { phase, restart: false, reset_progress: false }
    }
}

/// Decides one tick of the animation. Once the phase's time is up (and no
/// step is under way) the animation moves to the next phase, or after the last
/// one starts over from the first with fresh particles; progress then starts
/// again from zero. Otherwise nothing changes.
pub fn tick(phase: AnimationPhase, expired: bool, advancing: bool) -> (t: PhaseTick)
    ensures
        t == tick_outcome(phase, expired, advancing),
{
    if expired && !advancing {
        match phase.next() {
            Some(next) => PhaseTick { phase: next, restart: false, reset_progress: true },
            None => PhaseTick { phase: AnimationPhase::initial(), restart: true, reset_progress: true },
        }
    } else {
        PhaseTick { phase, restart: false, reset_progress: false }
    }
}

/// A tick never skips a phase: the phase stays, moves one place forward, or
/// (only after the last phase) starts over at the first with fresh particles.
pub proof fn lemma_tick_never_skips(phase: AnimationPhase, expired: bool, advancing: bool)
    ensures
        ({
            let t = tick_outcome(phase, expired, advancing);
            ||| t.phase == phase && !t.restart
            ||| order(t.phase) == order(phase) + 1 && !t.restart
            ||| order(t.phase) == 0 && t.restart && phase == AnimationPhase::Dissolve(
                DissolveSubPhase::Fade,
            )
        }),
{
    lemma_order_is_a_bijection(phase, order(phase) + 1);
}

/// Every phase has a place in the cycle, and that place holds that phase:
/// the order of the steps lists each phase exactly once.
pub proof fn lemma_order_is_a_bijection(p: AnimationPhase, i: nat)
    ensures
        order(p) < cycle_len(),
        phase_at(order(p)) == p,
        i < cycle_len() ==> order(phase_at(i)) == i,
{
}

/// Stepping moves exactly one place forward in the cycle: a phase is never
/// followed by itself or by an earlier phase, so a cycle has seventeen steps.
pub proof fn lemma_next_moves_forward(p: AnimationPhase)
    requires
        order(p) + 1 < cycle_len(),
    ensures
        order(phase_at(order(p) + 1)) == order(p) + 1,
        phase_at(order(p) + 1) != p,
{
}

/// The cycle ends only at the last sub-phase of dissolving.
pub proof fn lemma_cycle_ends_at_fade(p: AnimationPhase)
    ensures
        order(p) + 1 >= cycle_len() <==> p == AnimationPhase::Dissolve(DissolveSubPhase::Fade),
{
}

/// Every phase lasts a positive time of at most 2.5 seconds.
pub proof fn lemma_durations_positive(p: AnimationPhase)
    ensures
        500 <= duration_ms(p) <= 2500,
{
}

/// A tick whose phase time is up, with no step under way, always changes the
/// phase and always starts progress again from zero, for every phase; it
/// starts the particles over exactly when it leaves the last phase.
pub proof fn lemma_advancing_tick_resets_progress(phase: AnimationPhase)
    ensures
        tick_outcome(phase, true, false).reset_progress,
        tick_outcome(phase, true, false).phase != phase,
        tick_outcome(phase, true, false).restart <==> phase == AnimationPhase::Dissolve(
            DissolveSubPhase::Fade,
        ),
        !tick_outcome(phase, false, false).reset_progress,
        !tick_outcome(phase, true, true).reset_progress,
{
    lemma_order_is_a_bijection(phase, order(phase) + 1);
}

} // verus!
