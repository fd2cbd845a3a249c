use spring_pendulum::tick::{plan_tick, TickAction, TickInput};

fn input(collision_enabled: bool, dragging: bool) -> TickInput {
    TickInput { collision_enabled, dragging }
}

#[test]
fn plain_tick_measures_advances_records() {
    assert_eq!(
        plan_tick(input(false, false)),
        vec![TickAction::MeasureEnergy, TickAction::Advance, TickAction::RecordEnergy]
    );
}

#[test]
fn collision_runs_after_the_step() {
    assert_eq!(
        plan_tick(input(true, false)),
        vec![
            TickAction::MeasureEnergy,
            TickAction::Advance,
            TickAction::RecordEnergy,
            TickAction::Collide,
        ]
    );
}

#[test]
fn drag_places_bob_then_zeroes_velocity() {
    assert_eq!(
        plan_tick(input(false, true)),
        vec![
            TickAction::MeasureEnergy,
            TickAction::Advance,
            TickAction::RecordEnergy,
            TickAction::PlaceBob,
            TickAction::ZeroVelocity,
        ]
    );
}

#[test]
fn collision_and_drag_together() {
    assert_eq!(
        plan_tick(input(true, true)),
        vec![
            TickAction::MeasureEnergy,
            TickAction::Advance,
            TickAction::RecordEnergy,
            TickAction::Collide,
            TickAction::PlaceBob,
            TickAction::ZeroVelocity,
        ]
    );
}

#[test]
fn collision_never_twice_in_a_tick() {
    for c in [false, true] {
        for d in [false, true] {
            let plan = plan_tick(input(c, d));
            let n = plan.iter().filter(|a| **a == TickAction::Collide).count();
            assert_eq!(n, if c { 1 } else { 0 });
            let n_steps = plan.iter().filter(|a| **a == TickAction::Advance).count();
            assert_eq!(n_steps, 1);
        }
    }
}

#[test]
fn every_placement_is_followed_by_zero_velocity() {
    for c in [false, true] {
        for d in [false, true] {
            let plan = plan_tick(input(c, d));
            for (i, a) in plan.iter().enumerate() {
                if *a == TickAction::PlaceBob {
                    assert_eq!(plan[i + 1], TickAction::ZeroVelocity);
                }
            }
            assert_eq!(plan.contains(&TickAction::PlaceBob), d);
            if d {
                assert_eq!(plan.last(), Some(&TickAction::ZeroVelocity));
            }
        }
    }
}
