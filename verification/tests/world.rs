use ecs_sim::canvas::Canvas;
use ecs_sim::status::Status;
use ecs_sim::world::World;

fn cell_index(x: isize, y: isize) -> usize {
    ((y + 25) * 212 + (x + 106)) as usize
}

fn small_world() -> World {
    World {
        running: true,
        living_entities: 0,
        positions: vec![Some((0, 0)), Some((10, 10)), None],
        velocities: vec![Some((1, 0)), None, Some((2, 2))],
        accelerations: vec![Some((1, 1)), None, None],
        alives: vec![Some(true), Some(true), Some(true)],
        healths: vec![Some(8), Some(0), Some(5)],
        health_changes: vec![None, Some(-1), None],
        canvas: Canvas::new(),
    }
}

#[test]
fn new_world_starts_alive_healthy_and_in_bounds() {
    let w = World::new(64);
    assert_eq!(w.positions.len(), 64);
    assert_eq!(w.velocities.len(), 64);
    assert_eq!(w.accelerations.len(), 64);
    assert_eq!(w.alives.len(), 64);
    assert_eq!(w.healths.len(), 64);
    assert_eq!(w.health_changes.len(), 64);
    assert!(w.running);
    assert_eq!(w.living_entities, 0);
    assert!(w.alives.iter().all(|a| *a == Some(true)));
    assert!(w.health_changes.iter().all(|c| c.is_none()));
    assert!(w.healths.iter().all(|h| matches!(h, Some(v) if *v <= 10)));
    assert!(w
        .positions
        .iter()
        .flatten()
        .all(|(x, y)| (-106..=105).contains(x) && (-25..=24).contains(y)));
    assert!(w.velocities.iter().flatten().all(|v| *v == (0, 0)));
    assert!(w.accelerations.iter().flatten().all(|a| *a == (0, 0)));
}

#[test]
fn tick_runs_every_system_once_in_order() {
    let mut w = small_world();
    assert!(w.sums_fit());
    w.tick(None);
    // PositionUpdate before the render: entity 0 moved by its old velocity
    assert_eq!(w.positions, vec![Some((1, 0)), Some((10, 10)), None]);
    // VelocityUpdate added the old acceleration where both were present
    assert_eq!(w.velocities, vec![Some((2, 1)), None, Some((2, 2))]);
    // the toggles flipped presence
    assert!(w.accelerations[0].is_none());
    assert!(w.accelerations[1].is_some() && w.accelerations[2].is_some());
    assert!(w.health_changes[0].is_some() && w.health_changes[2].is_some());
    assert!(w.health_changes[1].is_none());
    // HealthUpdate applied the pending delta of entity 1 before AliveCheck
    assert_eq!(w.healths, vec![Some(8), Some(0), Some(5)]);
    // AliveCheck read the updated healths: entity 1 died at zero
    assert_eq!(w.alives, vec![Some(true), Some(false), Some(true)]);
    // the published count reflects the flags after AliveCheck
    assert_eq!(w.living_entities, 2);
    // the canvas was rendered from the moved positions and the flags and
    // healths as they stood before AliveCheck and HealthUpdate ran
    assert_eq!(w.canvas.cells[cell_index(1, 0)], Status::High);
    assert_eq!(w.canvas.cells[cell_index(0, 0)], Status::Dead);
    assert_eq!(w.canvas.cells[cell_index(10, 10)], Status::Dead);
    assert!(w.running);
}

#[test]
fn tick_keeps_dead_entities_dead() {
    let mut w = small_world();
    w.alives = vec![Some(false), Some(false), Some(false)];
    for _ in 0..3 {
        assert!(w.sums_fit());
        w.tick(None);
        assert!(w.alives.iter().all(|a| *a == Some(false)));
        assert_eq!(w.living_entities, 0);
    }
}

#[test]
fn tick_toggles_recover_presence_after_two_ticks() {
    let mut w = small_world();
    let accel_presence: Vec<bool> = w.accelerations.iter().map(|a| a.is_some()).collect();
    let change_presence: Vec<bool> = w.health_changes.iter().map(|c| c.is_some()).collect();
    assert!(w.sums_fit());
    w.tick(None);
    assert!(w.sums_fit());
    w.tick(None);
    let accel_after: Vec<bool> = w.accelerations.iter().map(|a| a.is_some()).collect();
    let change_after: Vec<bool> = w.health_changes.iter().map(|c| c.is_some()).collect();
    assert_eq!(accel_presence, accel_after);
    assert_eq!(change_presence, change_after);
}

#[test]
fn tick_stops_on_a_q_press_and_stays_stopped() {
    let mut w = small_world();
    w.tick(Some((true, 'x')));
    assert!(w.running);
    w.tick(Some((true, 'q')));
    assert!(!w.running);
    w.tick(None);
    assert!(!w.running);
}

#[test]
fn sums_fit_rejects_an_overflowing_velocity() {
    let mut w = small_world();
    w.velocities[0] = Some((isize::MAX, 0));
    assert!(!w.sums_fit());
    w.velocities[0] = Some((1, 0));
    w.accelerations[0] = Some((1, 1));
    assert!(w.sums_fit());
}
