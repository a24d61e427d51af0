//! The mouse: what a boot-protocol report says, and where the cursor goes.

use vstd::prelude::*;

verus! {

/// Length of a boot-protocol mouse report: buttons, horizontal
/// displacement, vertical displacement.
pub const MOUSE_REPORT_LENGTH: usize = 3;

/// A position on the screen, or a displacement, in pixels. Arithmetic on
/// positions wraps at 2^32, so a displacement to the left or upwards is
/// the large number that wraps to it.
#[derive(Clone, Copy, Debug, PartialEq, Eq, Structural)]
pub struct Vector2D {
    pub x: u32,
    pub y: u32,
}

/// The byte `b` read as a signed number in two's complement.
pub open spec fn spec_signed(b: u8) -> i8 {
    if b < 0x80 {
        b as i8
    } else {
        (b - 0x100) as i8
    }
}

/// The signed number `d` as the unsigned number that has the same effect
/// when added modulo 2^32.
pub open spec fn spec_wrapped(d: i8) -> u32 {
    if d >= 0 {
        d as u32
    } else {
        (0x1_0000_0000 + d) as u32
    }
}

/// The displacement `(dx, dy)` that a report tells of: its second and third
/// bytes, read as signed numbers. A report shorter than
/// `MOUSE_REPORT_LENGTH` tells nothing.
pub open spec fn spec_report_displacement(report: Seq<u8>) -> Option<(i8, i8)> {
    if report.len() < MOUSE_REPORT_LENGTH {
        None
    } else {
        Some((spec_signed(report[1]), spec_signed(report[2])))
    }
}

/// The position reached from `position` by moving `displacement`, each
/// coordinate taken modulo 2^32.
pub open spec fn spec_move_relative(position: Vector2D, displacement: Vector2D) -> Vector2D {
    Vector2D {
        x: ((position.x + displacement.x) % 0x1_0000_0000) as u32,
        y: ((position.y + displacement.y) % 0x1_0000_0000) as u32,
    }
}

fn signed(b: u8) -> (d: i8)
    ensures
        d == spec_signed(b),
{
    if b < 0x80 {
        b as i8
    } else {
        (b as i16 - 0x100) as i8
    }
}

fn wrapped(d: i8) -> (w: u32)
    ensures
        w == spec_wrapped(d),
{
    if d >= 0 {
        d as u32
    } else {
        (0x1_0000_0000i64 + d as i64) as u32
    }
}

/// Decodes a boot-protocol mouse report.
pub fn report_displacement(report: &Vec<u8>) -> (displacement: Option<(i8, i8)>)
    ensures
        displacement == spec_report_displacement(report@),
{
    if report.len() < MOUSE_REPORT_LENGTH {
        None
    } else {
        Some((signed(report[1]), signed(report[2])))
    }
}

/// Moves a position by a displacement.
pub fn move_relative(position: Vector2D, displacement: Vector2D) -> (moved: Vector2D)
    ensures
        moved == spec_move_relative(position, displacement),
{
    Vector2D {
        x: ((position.x as u64 + displacement.x as u64) % 0x1_0000_0000) as u32,
        y: ((position.y as u64 + displacement.y as u64) % 0x1_0000_0000) as u32,
    }
}

/// What the mouse observer does with a displacement reported by the mouse:
/// the cursor at `position` moves by `(displacement_x, displacement_y)`.
/// Where the move stays on the coordinate range, the new position is the
/// plain sum.
pub fn mouse_observer(position: Vector2D, displacement_x: i8, displacement_y: i8) -> (moved:
    Vector2D)
    ensures
        moved == spec_move_relative(
            position,
            Vector2D { x: spec_wrapped(displacement_x), y: spec_wrapped(displacement_y) },
        ),
        0 <= position.x + displacement_x < 0x1_0000_0000 ==> moved.x == position.x
            + displacement_x,
        0 <= position.y + displacement_y < 0x1_0000_0000 ==> moved.y == position.y
            + displacement_y,
{
    let displacement = Vector2D { x: wrapped(displacement_x), y: wrapped(displacement_y) };
    move_relative(position, displacement)
}

} // verus!
