use vstd::prelude::*;

verus! {

/// Four-level health classification shown on the canvas.
#[derive(Clone, Copy, Debug, PartialEq, Eq, Structural)]
pub enum Status {
    Dead,
    Low,
    Medium,
    High,
}

/// The classification thresholds: 0 is Dead, 1 to 3 Low, 4 to 6 Medium, 7 and up High.
pub open spec fn classify_spec(health: int) -> Status {
    if health >= 7 {
        Status::High
    } else if health >= 4 {
        Status::Medium
    } else if health >= 1 {
        Status::Low
    } else {
        Status::Dead
    }
}

/// Classify a health value into its display status.
pub fn classify(health: usize) -> (s: Status)
    ensures
        s == classify_spec(health as int),
{
    if health >= 7 {
        Status::High
    } else if health >= 4 {
        Status::Medium
    } else if health >= 1 {
        Status::Low
    } else {
        Status::Dead
    }
}

/// The character drawn for a cell: an underscore for a dead cell, a cross
/// for a living one (the display colours the cross by its status).
pub fn status_glyph(s: Status) -> (c: char)
    ensures
        c == (if s == Status::Dead {
            '_'
        } else {
            'X'
        }),
{
    match s {
        Status::Dead => '_',
        Status::Low => 'X',
        Status::Medium => 'X',
        Status::High => 'X',
    }
}

} // verus!
