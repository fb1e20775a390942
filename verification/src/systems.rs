use vstd::prelude::*;

use crate::grid::{clamp_isize, clamp_spec, MAX_HEALTH, MAX_X, MAX_Y, MIN_X, MIN_Y};

verus! {

/// Both coordinate sums of the two pairs fit into an isize.
pub open spec fn add_fits(a: (isize, isize), b: (isize, isize)) -> bool {
    &&& isize::MIN <= a.0 + b.0 <= isize::MAX
    &&& isize::MIN <= a.1 + b.1 <= isize::MAX
}

/// The pair lies inside the grid bounds.
pub open spec fn pos_in_bounds(p: (isize, isize)) -> bool {
    &&& MIN_X <= p.0 <= MAX_X
    &&& MIN_Y <= p.1 <= MAX_Y
}

/// A one-step delta, as the toggle systems draw them.
pub open spec fn small_delta(v: isize) -> bool {
    -1 <= v <= 1
}

/// Both axes of the pair are one-step deltas.
pub open spec fn small_pair(p: (isize, isize)) -> bool {
    small_delta(p.0) && small_delta(p.1)
}

/// What PositionUpdate does to one entity: where position and velocity are
/// both present, add them and clamp to the grid; otherwise leave the position.
pub open spec fn position_step(p: Option<(isize, isize)>, v: Option<(isize, isize)>) -> Option<
    (isize, isize),
> {
    if p is Some && v is Some {
        Some(
            (
                clamp_spec(p.unwrap().0 + v.unwrap().0, MIN_X as int, MAX_X as int) as isize,
                clamp_spec(p.unwrap().1 + v.unwrap().1, MIN_Y as int, MAX_Y as int) as isize,
            ),
        )
    } else {
        p
    }
}

/// Add two coordinates, saturating at the ends of isize: an overflow can only
/// land outside the grid bounds, so the clamp that follows hides it.
fn saturating_add_isize(a: isize, b: isize) -> (r: isize)
    ensures
        r as int == if a + b > isize::MAX {
            isize::MAX as int
        } else if a + b < isize::MIN {
            isize::MIN as int
        } else {
            a + b
        },
{
    match a.checked_add(b) {
        Some(s) => s,
        None => if b >= 0 {
            isize::MAX
        } else {
            isize::MIN
        },
    }
}

/// PositionUpdate: add each entity's velocity to its position, saturating,
/// and clamp the result to the grid bounds; an entity missing either
/// component keeps its position untouched.
pub fn position_update_system(
    positions: &mut Vec<Option<(isize, isize)>>,
    velocities: &Vec<Option<(isize, isize)>>,
)
    requires
        old(positions).len() == velocities.len(),
        forall|i: int|
            0 <= i < old(positions)@.len() && old(positions)@[i] is Some ==> pos_in_bounds(
                old(positions)@[i].unwrap(),
            ),
    ensures
        final(positions).len() == old(positions).len(),
        forall|i: int|
            0 <= i < old(positions)@.len() ==> final(positions)@[i] == position_step(
                old(positions)@[i],
                velocities@[i],
            ),
        // a missing velocity leaves the position exactly as it was
        forall|i: int|
            0 <= i < old(positions)@.len() && velocities@[i] is None ==> final(positions)@[i]
                == old(positions)@[i],
        // every position present after the update lies inside the grid bounds
        forall|i: int|
            0 <= i < old(positions)@.len() && final(positions)@[i] is Some ==> pos_in_bounds(
                final(positions)@[i].unwrap(),
            ),
{
    let n: usize = positions.len();
    let mut e: usize = 0;
    while e < n
        invariant
            e <= n,
            n == velocities.len(),
            positions.len() == n,
            old(positions).len() == n,
            forall|i: int|
                0 <= i < e ==> positions@[i] == position_step(old(positions)@[i], velocities@[i]),
            forall|i: int| e <= i < n ==> positions@[i] == old(positions)@[i],
        decreases n - e,
    {
        let p = positions[e];
        let v = velocities[e];
        if p.is_some() && v.is_some() {
            let (px, py) = p.unwrap();
            let (vx, vy) = v.unwrap();
            let nx = clamp_isize(saturating_add_isize(px, vx), MIN_X, MAX_X);
            let ny = clamp_isize(saturating_add_isize(py, vy), MIN_Y, MAX_Y);
            positions.set(e, Some((nx, ny)));
        }
        e = e + 1;
    }
}

/// What VelocityUpdate does to one entity: where velocity and acceleration are
/// both present, add them (no clamp); otherwise leave the velocity.
pub open spec fn velocity_step(v: Option<(isize, isize)>, a: Option<(isize, isize)>) -> Option<
    (isize, isize),
> {
    if v is Some && a is Some {
        Some(
            (
                (v.unwrap().0 + a.unwrap().0) as isize,
                (v.unwrap().1 + a.unwrap().1) as isize,
            ),
        )
    } else {
        v
    }
}

/// VelocityUpdate: add each entity's acceleration to its velocity, without
/// clamping; an entity missing either component keeps its velocity untouched.
pub fn velocity_update_system(
    velocities: &mut Vec<Option<(isize, isize)>>,
    accelerations: &Vec<Option<(isize, isize)>>,
)
    requires
        old(velocities).len() == accelerations.len(),
        forall|i: int|
            0 <= i < old(velocities)@.len() && old(velocities)@[i] is Some
                && accelerations@[i] is Some ==> add_fits(
                old(velocities)@[i].unwrap(),
                accelerations@[i].unwrap(),
            ),
    ensures
        final(velocities).len() == old(velocities).len(),
        forall|i: int|
            0 <= i < old(velocities)@.len() ==> final(velocities)@[i] == velocity_step(
                old(velocities)@[i],
                accelerations@[i],
            ),
{
    let n: usize = velocities.len();
    let mut e: usize = 0;
    while e < n
        invariant
            e <= n,
            n == accelerations.len(),
            velocities.len() == n,
            old(velocities).len() == n,
            forall|i: int|
                0 <= i < old(velocities)@.len() && old(velocities)@[i] is Some
                    && accelerations@[i] is Some ==> add_fits(
                    old(velocities)@[i].unwrap(),
                    accelerations@[i].unwrap(),
                ),
            forall|i: int|
                0 <= i < e ==> velocities@[i] == velocity_step(
                    old(velocities)@[i],
                    accelerations@[i],
                ),
            forall|i: int| e <= i < n ==> velocities@[i] == old(velocities)@[i],
        decreases n - e,
    {
        let v = velocities[e];
        let a = accelerations[e];
        if v.is_some() && a.is_some() {
            let (vx, vy) = v.unwrap();
            let (ax, ay) = a.unwrap();
            velocities.set(e, Some((vx + ax, vy + ay)));
        }
        e = e + 1;
    }
}

/// What HealthUpdate does to one entity: where health and delta are both
/// present, add them saturating at zero and clamp to the health cap;
/// otherwise leave the health.
pub open spec fn health_step(h: Option<usize>, d: Option<isize>) -> Option<usize> {
    if h is Some && d is Some {
        Some(clamp_spec(h.unwrap() + d.unwrap(), 0, MAX_HEALTH as int) as usize)
    } else {
        h
    }
}

/// HealthUpdate: apply each entity's health delta to its health, saturating at
/// zero and clamped to the health cap; an entity missing either component
/// keeps its health untouched.
pub fn health_update_system(healths: &mut Vec<Option<usize>>, health_changes: &Vec<Option<isize>>)
    requires
        old(healths).len() == health_changes.len(),
        forall|i: int|
            0 <= i < old(healths)@.len() && old(healths)@[i] is Some ==> old(healths)@[i].unwrap()
                <= MAX_HEALTH,
    ensures
        final(healths).len() == old(healths).len(),
        forall|i: int|
            0 <= i < old(healths)@.len() ==> final(healths)@[i] == health_step(
                old(healths)@[i],
                health_changes@[i],
            ),
        // every health present after the update lies in [0, MAX_HEALTH]
        forall|i: int|
            0 <= i < old(healths)@.len() && final(healths)@[i] is Some ==> final(healths)@[i].unwrap() <= MAX_HEALTH,
{
    let n: usize = healths.len();
    let mut e: usize = 0;
    while e < n
        invariant
            e <= n,
            n == health_changes.len(),
            healths.len() == n,
            old(healths).len() == n,
            forall|i: int|
                0 <= i < old(healths)@.len() && old(healths)@[i] is Some ==> old(
                    healths,
                )@[i].unwrap() <= MAX_HEALTH,
            forall|i: int|
                0 <= i < e ==> healths@[i] == health_step(old(healths)@[i], health_changes@[i]),
            forall|i: int| e <= i < n ==> healths@[i] == old(healths)@[i],
        decreases n - e,
    {
        let h = healths[e];
        let d = health_changes[e];
        if h.is_some() && d.is_some() {
            let sum: usize = match h.unwrap().checked_add_signed(d.unwrap()) {
                Some(v) => v,
                None => if d.unwrap() >= 0 {
                    usize::MAX
                } else {
                    0
                },
            };
            let capped: usize = if sum > MAX_HEALTH {
                MAX_HEALTH
            } else {
                sum
            };
            healths.set(e, Some(capped));
        }
        e = e + 1;
    }
}

/// What AliveCheck does to one entity: an entity that carries an alive flag
/// and whose health is absent or zero is marked dead; anything else keeps its
/// flag. A dead flag is never set back to true.
pub open spec fn alive_step(a: Option<bool>, h: Option<usize>) -> Option<bool> {
    if a is Some && (h is None || h.unwrap() == 0) {
        Some(false)
    } else {
        a
    }
}

/// AliveCheck: mark every entity that carries an alive flag and has absent or
/// zero health as dead; never resurrects an entity.
pub fn alive_system(alives: &mut Vec<Option<bool>>, healths: &Vec<Option<usize>>)
    requires
        old(alives).len() == healths.len(),
    ensures
        final(alives).len() == old(alives).len(),
        forall|i: int|
            0 <= i < old(alives)@.len() ==> final(alives)@[i] == alive_step(
                old(alives)@[i],
                healths@[i],
            ),
        // death is monotonic: a dead entity stays dead
        forall|i: int|
            0 <= i < old(alives)@.len() && old(alives)@[i] == Some(false) ==> final(alives)@[i]
                == Some(false),
{
    let n: usize = alives.len();
    let mut e: usize = 0;
    while e < n
        invariant
            e <= n,
            n == healths.len(),
            alives.len() == n,
            old(alives).len() == n,
            forall|i: int| 0 <= i < e ==> alives@[i] == alive_step(old(alives)@[i], healths@[i]),
            forall|i: int| e <= i < n ==> alives@[i] == old(alives)@[i],
        decreases n - e,
    {
        let a = alives[e];
        let h = healths[e];
        if a.is_some() {
            if h.is_none() || h.unwrap() == 0 {
                alives.set(e, Some(false));
            }
        }
        e = e + 1;
    }
}

/// What one axis of a fresh acceleration is, given a raw draw: a quarter of
/// draws step up, a quarter step down, the rest stand still.
pub open spec fn axis_step_spec(draw: usize) -> isize {
    if draw % 4 == 0 {
        1
    } else if draw % 4 == 1 {
        (-1) as isize
    } else {
        0
    }
}

/// Turn a raw draw into one axis of a fresh acceleration.
pub fn axis_step(draw: usize) -> (d: isize)
    ensures
        d == axis_step_spec(draw),
        small_delta(d),
{
    let m: usize = draw % 4;
    if m == 0 {
        1
    } else if m == 1 {
        -1
    } else {
        0
    }
}

/// AccelerationUpdate: toggle each entity's acceleration — clear it where
/// present, else assign a fresh random pair with each axis in {-1, 0, 1}.
pub fn acceleration_update_system(accelerations: &mut Vec<Option<(isize, isize)>>)
    ensures
        final(accelerations).len() == old(accelerations).len(),
        forall|i: int|
            0 <= i < old(accelerations)@.len() && old(accelerations)@[i] is Some ==> final(accelerations)@[i] is None,
        forall|i: int|
            0 <= i < old(accelerations)@.len() && old(accelerations)@[i] is None ==> final(accelerations)@[i] is Some && small_pair(final(accelerations)@[i].unwrap()),
{
    let n: usize = accelerations.len();
    let mut e: usize = 0;
    while e < n
        invariant
            e <= n,
            accelerations.len() == n,
            old(accelerations).len() == n,
            forall|i: int|
                0 <= i < e && old(accelerations)@[i] is Some ==> accelerations@[i] is None,
            forall|i: int|
                0 <= i < e && old(accelerations)@[i] is None ==> accelerations@[i] is Some
                    && small_pair(accelerations@[i].unwrap()),
            forall|i: int| e <= i < n ==> accelerations@[i] == old(accelerations)@[i],
        decreases n - e,
    {
        if accelerations[e].is_some() {
            accelerations.set(e, None);
        } else {
            let left_right = axis_step(rand::random::<usize>());
            let up_down = axis_step(rand::random::<usize>());
            accelerations.set(e, Some((left_right, up_down)));
        }
        e = e + 1;
    }
}

/// What a fresh health delta is, given a raw draw and a healing coin: the
/// draw picks a magnitude of zero or one, the coin picks its sign.
pub open spec fn delta_step_spec(draw: usize, heal: bool) -> isize {
    if heal {
        (draw % 2) as isize
    } else {
        (-((draw % 2) as int)) as isize
    }
}

/// Turn a raw draw and a healing coin into a fresh health delta.
pub fn delta_step(draw: usize, heal: bool) -> (d: isize)
    ensures
        d == delta_step_spec(draw, heal),
        small_delta(d),
{
    let m: usize = draw % 2;
    if heal {
        m as isize
    } else {
        if m == 0 {
            0
        } else {
            -1
        }
    }
}

/// HealthChanges: toggle each entity's health delta — clear it where present,
/// else assign a fresh random delta in {-1, 0, 1}.
pub fn health_changes_system(health_changes: &mut Vec<Option<isize>>)
    ensures
        final(health_changes).len() == old(health_changes).len(),
        forall|i: int|
            0 <= i < old(health_changes)@.len() && old(health_changes)@[i] is Some ==> final(health_changes)@[i] is None,
        forall|i: int|
            0 <= i < old(health_changes)@.len() && old(health_changes)@[i] is None ==> final(health_changes)@[i] is Some && small_delta(final(health_changes)@[i].unwrap()),
{
    let n: usize = health_changes.len();
    let mut e: usize = 0;
    while e < n
        invariant
            e <= n,
            health_changes.len() == n,
            old(health_changes).len() == n,
            forall|i: int|
                0 <= i < e && old(health_changes)@[i] is Some ==> health_changes@[i] is None,
            forall|i: int|
                0 <= i < e && old(health_changes)@[i] is None ==> health_changes@[i] is Some
                    && small_delta(health_changes@[i].unwrap()),
            forall|i: int| e <= i < n ==> health_changes@[i] == old(health_changes)@[i],
        decreases n - e,
    {
        if health_changes[e].is_some() {
            health_changes.set(e, None);
        } else {
            let heal = rand::random::<bool>();
            let d = delta_step(rand::random::<usize>(), heal);
            health_changes.set(e, Some(d));
        }
        e = e + 1;
    }
}

/// How many entities of the prefix carry an alive flag that is true.
pub open spec fn alive_count_spec(s: Seq<Option<bool>>) -> int
    decreases s.len(),
{
    if s.len() == 0 {
        0
    } else {
        alive_count_spec(s.drop_last()) + if s.last() == Some(true) {
            1int
        } else {
            0int
        }
    }
}

/// AliveCountDisplay: count the entities whose alive flag is present and true.
pub fn alive_entities_display_system(alives: &Vec<Option<bool>>) -> (count: usize)
    ensures
        count == alive_count_spec(alives@),
{
    let n: usize = alives.len();
    let mut count: usize = 0;
    let mut e: usize = 0;
    while e < n
        invariant
            e <= n,
            alives.len() == n,
            count <= e,
            count == alive_count_spec(alives@.take(e as int)),
        decreases n - e,
    {
        let a = alives[e];
        proof {
            assert(alives@.take(e + 1int).drop_last() =~= alives@.take(e as int));
            assert(alives@.take(e + 1int).last() == alives@[e as int]);
        }
        if a.is_some() && a.unwrap() {
            count = count + 1;
        }
        e = e + 1;
    }
    proof {
        assert(alives@.take(n as int) =~= alives@);
    }
    count
}

/// The polled key event asks the simulation to quit: a press of the letter q.
pub open spec fn quit_event(e: Option<(bool, char)>) -> bool {
    e is Some && e.unwrap().0 && e.unwrap().1 == 'q'
}

/// UserInput: given the key event polled this tick — whether it was a press,
/// and its character — flip the running flag off on a press of q; any other
/// event, or none, leaves the flag as it was.
pub fn user_input_system(running: &mut bool, event: Option<(bool, char)>)
    ensures
        *final(running) == (if quit_event(event) {
            false
        } else {
            *old(running)
        }),
{
    if event.is_some() {
        let (pressed, key) = event.unwrap();
        if pressed && key == 'q' {
            *running = false;
        }
    }
}

} // verus!
