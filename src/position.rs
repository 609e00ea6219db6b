use vstd::prelude::*;

verus! {

/// A screen location in whole logical units, as a probe reports it.
#[derive(Clone, Copy, Debug, PartialEq, Eq, Structural)]
pub struct CursorPosition {
    pub x: i32,
    pub y: i32,
}

/// A caret reading is trusted only when both coordinates exceed this value;
/// some applications report `(0, 0)` or `(1, 1)` for an unset caret.
pub const CARET_MIN: i32 = 1;

/// Caret and pointer further apart than this (Manhattan distance) mark the
/// caret reading as stale.
pub const STALE_DISTANCE: i64 = 800;

/// Added to each caret coordinate, so that the overlay sits above and to the
/// left of the text being typed.
pub const CARET_OFFSET: i64 = -35;

/// Added to each pointer coordinate, so that the overlay does not hide the
/// mouse cursor.
pub const POINTER_OFFSET: i64 = 16;

/// Where the overlay goes when neither caret nor pointer can be read.
pub const DEFAULT_X: i64 = 100;

/// The vertical coordinate of that fallback point.
pub const DEFAULT_Y: i64 = 100;

pub open spec fn abs_diff(a: int, b: int) -> int {
    if a >= b {
        a - b
    } else {
        b - a
    }
}

pub open spec fn manhattan(a: CursorPosition, b: CursorPosition) -> int {
    abs_diff(a.x as int, b.x as int) + abs_diff(a.y as int, b.y as int)
}

pub open spec fn caret_is_plausible(c: CursorPosition) -> bool {
    c.x > CARET_MIN && c.y > CARET_MIN
}

pub open spec fn caret_anchor(c: CursorPosition) -> (int, int) {
    (c.x + CARET_OFFSET, c.y + CARET_OFFSET)
}

pub open spec fn pointer_anchor(m: CursorPosition) -> (int, int) {
    (m.x + POINTER_OFFSET, m.y + POINTER_OFFSET)
}

pub open spec fn default_anchor() -> (int, int) {
    (DEFAULT_X as int, DEFAULT_Y as int)
}

/// The placement policy: a plausible caret wins unless the pointer is far
/// from it; otherwise the pointer; otherwise the fixed default point.
pub open spec fn obeys_placement_policy(
    caret: Option<CursorPosition>,
    mouse: Option<CursorPosition>,
    r: (i64, i64),
) -> bool {
    let t = (r.0 as int, r.1 as int);
    let trusted = caret is Some && caret_is_plausible(caret->0);
    // no usable caret: the pointer, else the default point
    &&& !trusted && mouse is None ==> t == default_anchor()
    &&& !trusted && mouse is Some ==> t == pointer_anchor(mouse->0)
    // a usable caret and no pointer to check it against
    &&& trusted && mouse is None ==> t == caret_anchor(caret->0)
    // a usable caret close enough to the pointer
    &&& trusted && mouse is Some && manhattan(caret->0, mouse->0) <= STALE_DISTANCE ==> t
        == caret_anchor(caret->0)
    // a caret far from the pointer is stale, whatever its coordinates
    &&& caret is Some && mouse is Some && manhattan(caret->0, mouse->0) > STALE_DISTANCE ==> t
        == pointer_anchor(mouse->0)
}

fn distance(a: CursorPosition, b: CursorPosition) -> (r: i64)
    ensures
        r == manhattan(a, b),
{
    let dx: i64 = if a.x >= b.x {
        a.x as i64 - b.x as i64
    } else {
        b.x as i64 - a.x as i64
    };
    let dy: i64 = if a.y >= b.y {
        a.y as i64 - b.y as i64
    } else {
        b.y as i64 - a.y as i64
    };
    dx + dy
}

/// Decides where the overlay goes for one tick, from the caret and pointer
/// readings of that tick.
pub fn get_best_position_logic(caret: Option<CursorPosition>, mouse: Option<CursorPosition>) -> (r: (
    i64,
    i64,
))
    ensures
        obeys_placement_policy(caret, mouse, r),
{
    if let Some(c) = caret {
        if c.x > CARET_MIN && c.y > CARET_MIN {
            if let Some(m) = mouse {
                if distance(c, m) > STALE_DISTANCE {
                    return (m.x as i64 + POINTER_OFFSET, m.y as i64 + POINTER_OFFSET);
                }
            }
            return (c.x as i64 + CARET_OFFSET, c.y as i64 + CARET_OFFSET);
        }
    }
    if let Some(m) = mouse {
        return (m.x as i64 + POINTER_OFFSET, m.y as i64 + POINTER_OFFSET);
    }
    (DEFAULT_X, DEFAULT_Y)
}

/// Deciding twice on the same readings gives the same target: the policy
/// leaves exactly one target for each pair of readings, so the decision
/// depends on nothing but them.
pub proof fn lemma_placement_is_repeatable(
    caret: Option<CursorPosition>,
    mouse: Option<CursorPosition>,
    first: (i64, i64),
    second: (i64, i64),
)
    requires
        obeys_placement_policy(caret, mouse, first),
        obeys_placement_policy(caret, mouse, second),
    ensures
        first == second,
{
}

} // verus!
