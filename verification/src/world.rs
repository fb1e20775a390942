use vstd::prelude::*;

use crate::canvas::{cell_ok, component_render_system, Canvas};
use crate::grid::{clamp_isize, MAX_HEALTH, MAX_X, MAX_Y, MIN_X, MIN_Y, HEIGHT, WIDTH};
use crate::status::Status;
use crate::systems::{
    add_fits, alive_count_spec, alive_entities_display_system, alive_step, alive_system,
    acceleration_update_system, health_changes_system, health_step, health_update_system,
    pos_in_bounds, position_step, position_update_system, quit_event, small_delta, small_pair,
    user_input_system, velocity_step, velocity_update_system,
};

verus! {

/// The component store: one column of optional values per component kind,
/// all of one length, together with the derived canvas, the published count
/// of living entities and the running flag of the driving loop.
pub struct World {
    /// Whether the simulation is running.
    pub running: bool,
    /// Number of living entities, as last published.
    pub living_entities: usize,
    /// Positions of entities, clamped to the grid bounds.
    pub positions: Vec<Option<(isize, isize)>>,
    /// Velocities of moving entities.
    pub velocities: Vec<Option<(isize, isize)>>,
    /// Accelerations of moving entities, each axis a one-step delta.
    pub accelerations: Vec<Option<(isize, isize)>>,
    /// Whether or not entities are alive.
    pub alives: Vec<Option<bool>>,
    /// Healths of entities, in [0, MAX_HEALTH].
    pub healths: Vec<Option<usize>>,
    /// Pending health deltas, each a one-step delta.
    pub health_changes: Vec<Option<isize>>,
    /// The canvas to display.
    pub canvas: Canvas,
}

impl World {
    /// How many entities the store holds.
    pub open spec fn entity_count(self) -> int {
        self.positions@.len() as int
    }

    /// The store's invariant: every column has the same length, positions lie
    /// inside the grid bounds, healths are capped, toggled deltas are small,
    /// and the canvas covers the grid.
    pub open spec fn wf(self) -> bool {
        &&& self.velocities@.len() == self.positions@.len()
        &&& self.accelerations@.len() == self.positions@.len()
        &&& self.alives@.len() == self.positions@.len()
        &&& self.healths@.len() == self.positions@.len()
        &&& self.health_changes@.len() == self.positions@.len()
        &&& forall|i: int|
            0 <= i < self.positions@.len() && self.positions@[i] is Some ==> pos_in_bounds(
                self.positions@[i].unwrap(),
            )
        &&& forall|i: int|
            0 <= i < self.healths@.len() && self.healths@[i] is Some ==> self.healths@[i].unwrap()
                <= MAX_HEALTH
        &&& forall|i: int|
            0 <= i < self.accelerations@.len() && self.accelerations@[i] is Some ==> small_pair(
                self.accelerations@[i].unwrap(),
            )
        &&& forall|i: int|
            0 <= i < self.health_changes@.len() && self.health_changes@[i] is Some ==> small_delta(
                self.health_changes@[i].unwrap(),
            )
        &&& self.canvas.wf()
    }

    /// Every present velocity-acceleration pair can be added without leaving isize.
    pub open spec fn velocity_sums_fit(self) -> bool {
        forall|i: int|
            0 <= i < self.velocities@.len() && self.velocities@[i] is Some
                && self.accelerations@[i] is Some ==> add_fits(
                self.velocities@[i].unwrap(),
                self.accelerations@[i].unwrap(),
            )
    }

    /// Build a store of `entities` entities with randomized initial values:
    /// each entity has a fifty-fifty chance of a position (random, clamped to
    /// the grid), of a zero velocity and of a zero acceleration; every entity
    /// starts alive, with a random health up to the cap and no pending delta.
    pub fn new(entities: usize) -> (w: World)
        ensures
            w.wf(),
            w.entity_count() == entities,
            w.running,
            w.living_entities == 0,
            forall|i: int| 0 <= i < entities ==> w.alives@[i] == Some(true),
            forall|i: int| 0 <= i < entities ==> w.healths@[i] is Some,
            forall|i: int| 0 <= i < entities ==> w.health_changes@[i] is None,
            forall|i: int|
                0 <= i < entities && w.velocities@[i] is Some ==> w.velocities@[i].unwrap() == (
                    0isize,
                    0isize,
                ),
            forall|i: int|
                0 <= i < entities && w.accelerations@[i] is Some ==> w.accelerations@[i].unwrap()
                    == (0isize, 0isize),
            forall|x: int, y: int|
                0 <= x < WIDTH as int && 0 <= y < HEIGHT as int ==> w.canvas.cell(x, y)
                    == Status::Dead,
            w.velocity_sums_fit(),
    {
        let mut positions: Vec<Option<(isize, isize)>> = Vec::new();
        let mut velocities: Vec<Option<(isize, isize)>> = Vec::new();
        let mut accelerations: Vec<Option<(isize, isize)>> = Vec::new();
        let mut alives: Vec<Option<bool>> = Vec::new();
        let mut healths: Vec<Option<usize>> = Vec::new();
        let mut health_changes: Vec<Option<isize>> = Vec::new();
        let mut id: usize = 0;
        while id < entities
            invariant
                id <= entities,
                positions.len() == id,
                velocities.len() == id,
                accelerations.len() == id,
                alives.len() == id,
                healths.len() == id,
                health_changes.len() == id,
                forall|i: int|
                    0 <= i < id && positions@[i] is Some ==> pos_in_bounds(positions@[i].unwrap()),
                forall|i: int| 0 <= i < id ==> alives@[i] == Some(true),
                forall|i: int|
                    0 <= i < id ==> healths@[i] is Some && healths@[i].unwrap() <= MAX_HEALTH,
                forall|i: int| 0 <= i < id ==> health_changes@[i] is None,
                forall|i: int|
                    0 <= i < id && velocities@[i] is Some ==> velocities@[i].unwrap() == (
                        0isize,
                        0isize,
                    ),
                forall|i: int|
                    0 <= i < id && accelerations@[i] is Some ==> accelerations@[i].unwrap() == (
                        0isize,
                        0isize,
                    ),
            decreases entities - id,
        {
            if rand::random::<bool>() {
                let px = clamp_isize(rand::random::<isize>(), MIN_X, MAX_X);
                let py = clamp_isize(rand::random::<isize>(), MIN_Y, MAX_Y);
                positions.push(Some((px, py)));
            } else {
                positions.push(None);
            }
            if rand::random::<bool>() {
                velocities.push(Some((0, 0)));
            } else {
                velocities.push(None);
            }
            if rand::random::<bool>() {
                accelerations.push(Some((0, 0)));
            } else {
                accelerations.push(None);
            }
            alives.push(Some(true));
            healths.push(Some(rand::random::<usize>() % (MAX_HEALTH + 1)));
            health_changes.push(None);
            id = id + 1;
        }
        World {
            running: true,
            living_entities: 0,
            positions,
            velocities,
            accelerations,
            alives,
            healths,
            health_changes,
            canvas: Canvas::new(),
        }
    }

    /// Whether the next tick's velocity additions all fit into isize: a
    /// runnable check of `velocity_sums_fit` for callers that cannot
    /// establish it otherwise.
    pub fn sums_fit(&self) -> (b: bool)
        requires
            self.wf(),
        ensures
            b == self.velocity_sums_fit(),
    {
        let n: usize = self.velocities.len();
        let mut e: usize = 0;
        let mut ok: bool = true;
        while e < n
            invariant
                e <= n,
                self.wf(),
                n == self.velocities.len(),
                ok == (forall|i: int|
                    0 <= i < e && self.velocities@[i] is Some && self.accelerations@[i] is Some
                        ==> add_fits(
                        self.velocities@[i].unwrap(),
                        self.accelerations@[i].unwrap(),
                    )),
            decreases n - e,
        {
            let v = self.velocities[e];
            let a = self.accelerations[e];
            if v.is_some() && a.is_some() {
                let (vx, vy) = v.unwrap();
                let (ax, ay) = a.unwrap();
                if vx.checked_add(ax).is_none() || vy.checked_add(ay).is_none() {
                    ok = false;
                }
            }
            e = e + 1;
        }
        ok
    }

    /// One tick: run every system once, in the catalog's submission order —
    /// user input, position update, velocity update, canvas render, health
    /// update, acceleration toggle, alive check, health-delta toggle, and the
    /// living-entity count.
    pub fn tick(&mut self, event: Option<(bool, char)>)
        requires
            old(self).wf(),
            old(self).velocity_sums_fit(),
        ensures
            final(self).wf(),
            final(self).entity_count() == old(self).entity_count(),
            final(self).running == (if quit_event(event) {
                false
            } else {
                old(self).running
            }),
            forall|i: int|
                0 <= i < old(self).entity_count() ==> final(self).positions@[i] == position_step(
                    old(self).positions@[i],
                    old(self).velocities@[i],
                ),
            forall|i: int|
                0 <= i < old(self).entity_count() ==> final(self).velocities@[i] == velocity_step(
                    old(self).velocities@[i],
                    old(self).accelerations@[i],
                ),
            forall|i: int|
                0 <= i < old(self).entity_count() ==> final(self).healths@[i] == health_step(
                    old(self).healths@[i],
                    old(self).health_changes@[i],
                ),
            forall|i: int|
                0 <= i < old(self).entity_count() ==> final(self).alives@[i] == alive_step(
                    old(self).alives@[i],
                    final(self).healths@[i],
                ),
            // death is monotonic across the tick
            forall|i: int|
                0 <= i < old(self).entity_count() && old(self).alives@[i] == Some(false) ==> final(self).alives@[i] == Some(false),
            forall|i: int|
                0 <= i < old(self).entity_count() && old(self).accelerations@[i] is Some ==> final(self).accelerations@[i] is None,
            forall|i: int|
                0 <= i < old(self).entity_count() && old(self).accelerations@[i] is None ==> final(self).accelerations@[i] is Some && small_pair(final(self).accelerations@[i].unwrap()),
            forall|i: int|
                0 <= i < old(self).entity_count() && old(self).health_changes@[i] is Some ==> final(self).health_changes@[i] is None,
            forall|i: int|
                0 <= i < old(self).entity_count() && old(self).health_changes@[i] is None ==> final(self).health_changes@[i] is Some && small_delta(
                    final(self).health_changes@[i].unwrap(),
                ),
            // the canvas is recomputed from the updated positions and the
            // alive flags and healths as they stood when the render ran
            forall|x: int, y: int|
                0 <= x < WIDTH as int && 0 <= y < HEIGHT as int ==> cell_ok(
                    final(self).positions@,
                    old(self).alives@,
                    old(self).healths@,
                    old(self).entity_count(),
                    x,
                    y,
                    final(self).canvas.cell(x, y),
                ),
            final(self).living_entities == alive_count_spec(final(self).alives@),
    {
        user_input_system(&mut self.running, event);
        position_update_system(&mut self.positions, &self.velocities);
        velocity_update_system(&mut self.velocities, &self.accelerations);
        component_render_system(&mut self.canvas, &self.positions, &self.alives, &self.healths);
        health_update_system(&mut self.healths, &self.health_changes);
        acceleration_update_system(&mut self.accelerations);
        alive_system(&mut self.alives, &self.healths);
        health_changes_system(&mut self.health_changes);
        let count = alive_entities_display_system(&self.alives);
        self.living_entities = count;
    }
}

} // verus!
