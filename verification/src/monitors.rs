//! Monitors as plain values, and the three decisions made about them:
//! enumeration with fallback labels, lookup of the first monitor with a given
//! name, and the arithmetic that centers a window on a monitor. The OS
//! windowing layer hands in a snapshot of `Monitor` values and carries out
//! the returned positions; nothing here queries or moves anything itself.

use vstd::prelude::*;

use crate::text::append_dec;
use crate::text::dec_str;
use crate::text::str_eq;

verus! {

/// A monitor as the OS layer reports it: an optional name, the pixel size,
/// and the top-left corner in virtual screen coordinates.
pub struct Monitor {
    pub name: Option<String>,
    pub width: u32,
    pub height: u32,
    pub pos_x: i32,
    pub pos_y: i32,
}

/// What the enumeration endpoint reports for one monitor.
pub struct MonitorInfo {
    pub name: String,
    pub width: u32,
    pub height: u32,
}

/// The view of an optional monitor name.
pub open spec fn name_view(name: Option<String>) -> Option<Seq<char>> {
    match name {
        Some(s) => Some(s@),
        None => None,
    }
}

/// The display label of the monitor at 0-based position idx: its own name,
/// or "Display {idx+1}" (1-based) when the OS reports none.
pub open spec fn spec_label(name: Option<Seq<char>>, idx: nat) -> Seq<char> {
    match name {
        Some(n) => n,
        None => "Display "@ + dec_str(idx + 1),
    }
}

/// The label for the monitor at position idx, with the 1-based fallback.
pub fn monitor_label(name: &Option<String>, idx: usize) -> (r: String)
    requires
        idx < usize::MAX,
    ensures
        r@ == spec_label(name_view(*name), idx as nat),
{
    match name {
        Some(n) => n.clone(),
        None => {
            let mut s = String::from_str("Display ");
            append_dec(&mut s, (idx + 1) as u64);
            s
        },
    }
}

/// One MonitorInfo per reported monitor, in enumeration order: the size is
/// copied through unchanged and the name falls back to "Display {idx+1}".
/// An empty snapshot gives an empty list, never an error.
pub fn get_available_monitors(monitors: &Vec<Monitor>) -> (r: Vec<MonitorInfo>)
    ensures
        r@.len() == monitors@.len(),
        forall|i: int|
            0 <= i < monitors@.len() ==> {
                &&& (#[trigger] r@[i]).width == monitors@[i].width
                &&& r@[i].height == monitors@[i].height
                &&& r@[i].name@ == spec_label(name_view(monitors@[i].name), i as nat)
            },
{
    let mut out: Vec<MonitorInfo> = Vec::new();
    let mut idx: usize = 0;
    while idx < monitors.len()
        invariant
            idx <= monitors@.len(),
            out@.len() == idx,
            forall|i: int|
                0 <= i < idx ==> {
                    &&& (#[trigger] out@[i]).width == monitors@[i].width
                    &&& out@[i].height == monitors@[i].height
                    &&& out@[i].name@ == spec_label(name_view(monitors@[i].name), i as nat)
                },
        decreases monitors@.len() - idx,
    {
        let m = &monitors[idx];
        let label = monitor_label(&m.name, idx);
        out.push(MonitorInfo { name: label, width: m.width, height: m.height });
        idx += 1;
    }
    out
}

/// Whether the OS reported exactly this name for m (an unnamed monitor
/// matches nothing).
pub open spec fn name_matches(m: Monitor, name: Seq<char>) -> bool {
    match m.name {
        Some(n) => n@ == name,
        None => false,
    }
}

/// Looks up the first monitor whose name is exactly monitor_name. On success
/// the result is that monitor's top-left corner, to be copied to the window
/// unchanged; when no monitor matches, the fixed "Monitor not found" message.
pub fn move_to_monitor(monitors: &Vec<Monitor>, monitor_name: &str) -> (r: Result<
    (i32, i32),
    String,
>)
    ensures
        match r {
            Ok(p) => exists|i: int|
                {
                    &&& 0 <= i < monitors@.len()
                    &&& #[trigger] name_matches(monitors@[i], monitor_name@)
                    &&& p == (monitors@[i].pos_x, monitors@[i].pos_y)
                    &&& forall|j: int| 0 <= j < i ==> !name_matches(monitors@[j], monitor_name@)
                },
            Err(e) => {
                &&& e@ == "Monitor not found"@
                &&& forall|i: int|
                    0 <= i < monitors@.len() ==> !name_matches(monitors@[i], monitor_name@)
            },
        },
{
    let mut idx: usize = 0;
    while idx < monitors.len()
        invariant
            idx <= monitors@.len(),
            forall|j: int| 0 <= j < idx ==> !name_matches(monitors@[j], monitor_name@),
        decreases monitors@.len() - idx,
    {
        let m = &monitors[idx];
        let matched = match &m.name {
            Some(n) => str_eq(n.as_str(), monitor_name),
            None => false,
        };
        if matched {
            proof {
                assert(name_matches(monitors@[idx as int], monitor_name@));
            }
            return Ok((m.pos_x, m.pos_y));
        }
        idx += 1;
    }
    Err(String::from_str("Monitor not found"))
}

/// Half of d, rounding toward zero, as Rust's signed division does.
pub open spec fn half_toward_zero(d: int) -> int {
    if d >= 0 {
        d / 2
    } else {
        -((-d) / 2)
    }
}

/// The centering formula for one axis: the monitor's offset plus half the
/// spare space (negative when the window is wider than the monitor).
pub open spec fn centered_axis(pos: int, monitor_extent: int, window_extent: int) -> int {
    pos + half_toward_zero(monitor_extent - window_extent)
}

/// Whether the centered position of a window of the given outer size on m
/// fits in screen coordinates on both axes.
pub open spec fn centered_fits(m: Monitor, win_w: int, win_h: int) -> bool {
    &&& i32::MIN <= centered_axis(m.pos_x as int, m.width as int, win_w) <= i32::MAX
    &&& i32::MIN <= centered_axis(m.pos_y as int, m.height as int, win_h) <= i32::MAX
}

/// Half the difference of two extents, rounding toward zero. The result
/// always fits an i32 because extents are u32.
fn half_extent_gap(monitor_extent: u32, window_extent: u32) -> (r: i32)
    ensures
        r as int == half_toward_zero(monitor_extent as int - window_extent as int),
{
    if monitor_extent >= window_extent {
        ((monitor_extent - window_extent) / 2) as i32
    } else {
        -(((window_extent - monitor_extent) / 2) as i32)
    }
}

/// The top-left position that centers a window of the given outer size on m
/// (truncating division per axis), or None when that position cannot be
/// represented in screen coordinates.
pub fn center_on_monitor(m: &Monitor, win_w: u32, win_h: u32) -> (r: Option<(i32, i32)>)
    ensures
        match r {
            Some(p) => {
                &&& centered_fits(*m, win_w as int, win_h as int)
                &&& p.0 == centered_axis(m.pos_x as int, m.width as int, win_w as int)
                &&& p.1 == centered_axis(m.pos_y as int, m.height as int, win_h as int)
            },
            None => !centered_fits(*m, win_w as int, win_h as int),
        },
{
    let dx = half_extent_gap(m.width, win_w);
    let dy = half_extent_gap(m.height, win_h);
    let x = match m.pos_x.checked_add(dx) {
        Some(x) => x,
        None => {
            return None;
        },
    };
    let y = match m.pos_y.checked_add(dy) {
        Some(y) => y,
        None => {
            return None;
        },
    };
    Some((x, y))
}

} // verus!
