use ecs_sim::status::Status;
use ecs_sim::systems::{
    alive_entities_display_system, alive_system, acceleration_update_system, axis_step,
    delta_step, health_changes_system, health_update_system, position_update_system,
    user_input_system, velocity_update_system,
};

#[test]
fn scenario_one_position_tick_over_four_entities() {
    let mut positions: Vec<Option<(isize, isize)>> =
        vec![Some((0, 0)), Some((1, 1)), Some((-1, -1)), None];
    let velocities: Vec<Option<(isize, isize)>> = vec![Some((1, 0)), None, None, None];
    position_update_system(&mut positions, &velocities);
    assert_eq!(
        positions,
        vec![Some((1, 0)), Some((1, 1)), Some((-1, -1)), None]
    );
}

#[test]
fn position_update_clamps_to_grid_bounds() {
    let mut positions: Vec<Option<(isize, isize)>> = vec![Some((105, 24)), Some((-106, -25))];
    let velocities: Vec<Option<(isize, isize)>> = vec![Some((3, 3)), Some((-2, -2))];
    position_update_system(&mut positions, &velocities);
    assert_eq!(positions, vec![Some((105, 24)), Some((-106, -25))]);
}

#[test]
fn position_update_saturates_huge_velocities_onto_the_border() {
    let mut positions: Vec<Option<(isize, isize)>> = vec![Some((100, -20)), Some((-1, 1))];
    let velocities: Vec<Option<(isize, isize)>> = vec![
        Some((isize::MAX, isize::MIN)),
        Some((isize::MIN, isize::MAX)),
    ];
    position_update_system(&mut positions, &velocities);
    assert_eq!(positions, vec![Some((105, -25)), Some((-106, 24))]);
}

#[test]
fn position_update_skips_entity_missing_velocity() {
    let mut positions: Vec<Option<(isize, isize)>> = vec![Some((7, -3))];
    let velocities: Vec<Option<(isize, isize)>> = vec![None];
    position_update_system(&mut positions, &velocities);
    assert_eq!(positions, vec![Some((7, -3))]);
}

#[test]
fn velocity_update_adds_acceleration_without_clamp() {
    let mut velocities: Vec<Option<(isize, isize)>> =
        vec![Some((200, -300)), Some((1, 1)), None];
    let accelerations: Vec<Option<(isize, isize)>> = vec![Some((1, -1)), None, Some((1, 1))];
    velocity_update_system(&mut velocities, &accelerations);
    assert_eq!(velocities, vec![Some((201, -301)), Some((1, 1)), None]);
}

#[test]
fn health_update_applies_delta_and_clamps() {
    let mut healths: Vec<Option<usize>> = vec![Some(5), Some(0), Some(10), Some(3), None];
    let changes: Vec<Option<isize>> = vec![Some(1), Some(-1), Some(1), None, Some(1)];
    health_update_system(&mut healths, &changes);
    assert_eq!(healths, vec![Some(6), Some(0), Some(10), Some(3), None]);
}

#[test]
fn health_update_saturates_on_large_negative_delta() {
    let mut healths: Vec<Option<usize>> = vec![Some(4)];
    let changes: Vec<Option<isize>> = vec![Some(-100)];
    health_update_system(&mut healths, &changes);
    assert_eq!(healths, vec![Some(0)]);
}

#[test]
fn scenario_zero_health_marks_entity_dead() {
    let mut alives: Vec<Option<bool>> = vec![Some(true)];
    let healths: Vec<Option<usize>> = vec![Some(0)];
    alive_system(&mut alives, &healths);
    assert_eq!(alives, vec![Some(false)]);
}

#[test]
fn alive_check_kills_on_absent_health_and_never_resurrects() {
    let mut alives: Vec<Option<bool>> = vec![Some(true), Some(false), None, Some(true)];
    let healths: Vec<Option<usize>> = vec![None, Some(9), Some(0), Some(9)];
    alive_system(&mut alives, &healths);
    assert_eq!(alives, vec![Some(false), Some(false), None, Some(true)]);
}

#[test]
fn acceleration_toggle_has_period_two_presence() {
    let mut accelerations: Vec<Option<(isize, isize)>> = vec![Some((0, 0)), None];
    acceleration_update_system(&mut accelerations);
    assert!(accelerations[0].is_none());
    let (ax, ay) = accelerations[1].expect("absent slot must be refilled");
    assert!((-1..=1).contains(&ax) && (-1..=1).contains(&ay));
    acceleration_update_system(&mut accelerations);
    assert!(accelerations[0].is_some());
    assert!(accelerations[1].is_none());
}

#[test]
fn health_changes_toggle_has_period_two_presence() {
    let mut changes: Vec<Option<isize>> = vec![Some(1), None];
    health_changes_system(&mut changes);
    assert!(changes[0].is_none());
    let d = changes[1].expect("absent slot must be refilled");
    assert!((-1..=1).contains(&d));
    health_changes_system(&mut changes);
    assert!(changes[0].is_some());
    assert!(changes[1].is_none());
}

#[test]
fn axis_step_follows_the_quarter_split() {
    assert_eq!(axis_step(0), 1);
    assert_eq!(axis_step(1), -1);
    assert_eq!(axis_step(2), 0);
    assert_eq!(axis_step(3), 0);
    assert_eq!(axis_step(4), 1);
    assert_eq!(axis_step(7), 0);
}

#[test]
fn delta_step_signs_the_drawn_magnitude() {
    assert_eq!(delta_step(1, true), 1);
    assert_eq!(delta_step(1, false), -1);
    assert_eq!(delta_step(0, true), 0);
    assert_eq!(delta_step(0, false), 0);
    assert_eq!(delta_step(3, false), -1);
}

#[test]
fn alive_count_counts_present_true_flags_only() {
    let alives: Vec<Option<bool>> = vec![Some(true), Some(false), None, Some(true), Some(true)];
    assert_eq!(alive_entities_display_system(&alives), 3);
    let empty: Vec<Option<bool>> = vec![];
    assert_eq!(alive_entities_display_system(&empty), 0);
}

#[test]
fn user_input_quits_only_on_q_press() {
    let mut running = true;
    user_input_system(&mut running, None);
    assert!(running);
    user_input_system(&mut running, Some((false, 'q')));
    assert!(running);
    user_input_system(&mut running, Some((true, 'a')));
    assert!(running);
    user_input_system(&mut running, Some((true, 'q')));
    assert!(!running);
    user_input_system(&mut running, Some((true, 'q')));
    assert!(!running);
}

#[test]
fn classify_matches_the_thresholds() {
    assert_eq!(ecs_sim::status::classify(0), Status::Dead);
    assert_eq!(ecs_sim::status::classify(1), Status::Low);
    assert_eq!(ecs_sim::status::classify(3), Status::Low);
    assert_eq!(ecs_sim::status::classify(4), Status::Medium);
    assert_eq!(ecs_sim::status::classify(6), Status::Medium);
    assert_eq!(ecs_sim::status::classify(7), Status::High);
    assert_eq!(ecs_sim::status::classify(10), Status::High);
}

#[test]
fn status_glyph_marks_living_cells() {
    assert_eq!(ecs_sim::status::status_glyph(Status::Dead), '_');
    assert_eq!(ecs_sim::status::status_glyph(Status::Low), 'X');
    assert_eq!(ecs_sim::status::status_glyph(Status::Medium), 'X');
    assert_eq!(ecs_sim::status::status_glyph(Status::High), 'X');
}
