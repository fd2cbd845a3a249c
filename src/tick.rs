use vstd::prelude::*;

verus! {

/// One piece of work that the driver performs during a simulation tick.
#[derive(Clone, Copy, Debug, PartialEq, Eq, Structural)]
pub enum TickAction {
    /// Read the energy decomposition of the current state.
    MeasureEnergy,
    /// Advance the oscillator by one integration step.
    Advance,
    /// Append the measured (potential, kinetic, total) row to the record sink.
    RecordEnergy,
    /// Apply the ground-collision rule.
    Collide,
    /// Overwrite the bob position with the dragged position.
    PlaceBob,
    /// Set the bob velocity to zero.
    ZeroVelocity,
}

/// What the control surface reports at the start of a tick.
#[derive(Clone, Copy, Debug, PartialEq, Eq, Structural)]
pub struct TickInput {
    /// The ground-collision switch is on.
    pub collision_enabled: bool,
    /// The user is holding the bob at a pointer position.
    pub dragging: bool,
}

/// The ordered work of one tick: the energy of the state before the step is
/// measured, the state is advanced once, the measured row is recorded, the
/// collision rule runs after the step when enabled, and a drag overrides the
/// position last, always together with a zero velocity.
pub open spec fn tick_plan(input: TickInput) -> Seq<TickAction> {
    let stepped = seq![TickAction::MeasureEnergy, TickAction::Advance, TickAction::RecordEnergy];
    let collided = if input.collision_enabled {
        stepped.push(TickAction::Collide)
    } else {
        stepped
    };
    if input.dragging {
        collided.push(TickAction::PlaceBob).push(TickAction::ZeroVelocity)
    } else {
        collided
    }
}

/// Number of times `a` occurs in `plan`.
pub open spec fn occurrences(plan: Seq<TickAction>, a: TickAction) -> nat
    decreases plan.len(),
{
    if plan.len() == 0 {
        0
    } else {
        occurrences(plan.drop_last(), a) + if plan.last() == a {
            1nat
        } else {
            0nat
        }
    }
}

/// Decides the work of one tick from the control surface's report.
pub fn plan_tick(input: TickInput) -> (plan: Vec<TickAction>)
    ensures
        plan@ == tick_plan(input),
{
    let mut plan: Vec<TickAction> = Vec::new();
    plan.push(TickAction::MeasureEnergy);
    plan.push(TickAction::Advance);
    plan.push(TickAction::RecordEnergy);
    if input.collision_enabled {
        plan.push(TickAction::Collide);
    }
    if input.dragging {
        plan.push(TickAction::PlaceBob);
        plan.push(TickAction::ZeroVelocity);
    }
    proof {
        assert(plan@ =~= tick_plan(input));
    }
    plan
}

/// Each tick advances the oscillator exactly once, and the energy that is
/// recorded for the tick is the one measured before that step.
pub proof fn lemma_one_step_per_tick(input: TickInput)
    ensures
        occurrences(tick_plan(input), TickAction::Advance) == 1,
        occurrences(tick_plan(input), TickAction::MeasureEnergy) == 1,
        occurrences(tick_plan(input), TickAction::RecordEnergy) == 1,
        tick_plan(input)[0] == TickAction::MeasureEnergy,
        tick_plan(input)[1] == TickAction::Advance,
        tick_plan(input)[2] == TickAction::RecordEnergy,
{
    reveal_with_fuel(occurrences, 7);
}

/// The collision rule runs at most once per tick, exactly when it is enabled,
/// so a bounce is never undone by a second flip within the same tick; and it
/// runs after the integration step.
pub proof fn lemma_collision_at_most_once(input: TickInput)
    ensures
        occurrences(tick_plan(input), TickAction::Collide) == if input.collision_enabled {
            1nat
        } else {
            0nat
        },
        forall|i: int, j: int|
            0 <= i < tick_plan(input).len() && 0 <= j < tick_plan(input).len()
                && tick_plan(input)[i] == TickAction::Advance && tick_plan(input)[j]
                == TickAction::Collide ==> i < j,
{
    reveal_with_fuel(occurrences, 7);
}

/// A drag that overrides the bob position is always immediately followed by a
/// zeroed velocity, it happens exactly when the user drags, and nothing else
/// runs after it in the tick, so the next tick starts from rest at the dragged
/// position.
pub proof fn lemma_drag_zeroes_velocity(input: TickInput)
    ensures
        forall|i: int|
            0 <= i < tick_plan(input).len() && #[trigger] tick_plan(input)[i] == TickAction::PlaceBob
                ==> i + 1 < tick_plan(input).len() && tick_plan(input)[i + 1]
                == TickAction::ZeroVelocity,
        occurrences(tick_plan(input), TickAction::PlaceBob) == if input.dragging {
            1nat
        } else {
            0nat
        },
        occurrences(tick_plan(input), TickAction::ZeroVelocity) == occurrences(
            tick_plan(input),
            TickAction::PlaceBob,
        ),
        input.dragging ==> tick_plan(input).last() == TickAction::ZeroVelocity,
{
    reveal_with_fuel(occurrences, 7);
}

} // verus!
