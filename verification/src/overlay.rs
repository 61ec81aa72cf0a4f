use vstd::prelude::*;

verus! {

/// Whether a monitor starting at `pos_x` and `width` wide contains the
/// horizontal position `x`.
pub open spec fn monitor_contains(pos_x: int, width: int, x: int) -> bool {
    pos_x <= x < pos_x + width
}

/// The cursor position used to choose which monitor shows the recording
/// overlay. Only a platform shell can ask the window system where the
/// cursor is; the core has no such query, so it reports that no position
/// is known and the overlay falls back to the primary monitor.
pub fn get_cursor_x_position() -> (r: Option<(i32, i32)>)
    ensures
        r is None,
{
    None
}

/// Picks the first monitor — each given as its horizontal origin and
/// width — that contains the cursor's horizontal position.
pub fn pick_monitor(cursor_x: i32, monitors: &Vec<(i32, u32)>) -> (r: Option<usize>)
    ensures
        r matches Some(i) ==> i < monitors@.len() && monitor_contains(
            monitors@[i as int].0 as int,
            monitors@[i as int].1 as int,
            cursor_x as int,
        ) && forall|j: int|
            0 <= j < i ==> !monitor_contains(
                monitors@[j].0 as int,
                monitors@[j].1 as int,
                cursor_x as int,
            ),
        r is None ==> forall|j: int|
            0 <= j < monitors@.len() ==> !monitor_contains(
                monitors@[j].0 as int,
                monitors@[j].1 as int,
                cursor_x as int,
            ),
{
    let mut i: usize = 0;
    while i < monitors.len()
        invariant
            i <= monitors@.len(),
            forall|j: int|
                0 <= j < i ==> !monitor_contains(
                    monitors@[j].0 as int,
                    monitors@[j].1 as int,
                    cursor_x as int,
                ),
        decreases monitors@.len() - i,
    {
        let m = monitors[i];
        if cursor_x as i64 >= m.0 as i64 && (cursor_x as i64) < m.0 as i64 + m.1 as i64 {
            return Some(i);
        }
        i = i + 1;
    }
    None
}

} // verus!
