//! The native menu as data, and the dispatch of its click events. The menu
//! bar has two branches: File holding Quit, and View holding Toggle
//! Fullscreen plus, when at least one monitor was detected at startup, a
//! "Move to Display" submenu with one entry per monitor. A click arrives as a
//! string id; `menu_action` decodes it into a closed set of actions, treating
//! anything malformed or out of range as a silent no-op.

use vstd::prelude::*;

use crate::monitors::Monitor;
use crate::monitors::monitor_label;
use crate::monitors::name_view;
use crate::monitors::spec_label;
use crate::text::all_digits;
use crate::text::append_dec;
use crate::text::dec_str;
use crate::text::dec_val;
use crate::text::lemma_dec_str_digits;
use crate::text::lemma_dec_val_of_dec_str;
use crate::text::parse_index;
use crate::text::str_eq;

verus! {

/// One clickable entry of the native menu.
pub struct MenuItemModel {
    pub id: String,
    pub label: String,
    pub accelerator: Option<String>,
}

/// A titled group of entries.
pub struct SubmenuModel {
    pub title: String,
    pub items: Vec<MenuItemModel>,
}

/// The whole menu bar. The File and View branches are always present;
/// move_to_display is None exactly when no monitor was detected, so an empty
/// submenu is never shown.
pub struct MenuModel {
    pub file_title: String,
    pub view_title: String,
    pub quit: MenuItemModel,
    pub toggle_fullscreen: MenuItemModel,
    pub move_to_display: Option<SubmenuModel>,
}

/// The id of the menu entry for the monitor at 0-based position idx.
pub open spec fn spec_display_id(idx: nat) -> Seq<char> {
    "display_"@ + dec_str(idx)
}

/// The label of that entry: "{name} ({width}x{height})".
pub open spec fn spec_display_label(m: Monitor, idx: nat) -> Seq<char> {
    spec_label(name_view(m.name), idx) + " ("@ + dec_str(m.width as nat) + "x"@ + dec_str(
        m.height as nat,
    ) + ")"@
}

/// The id string for the monitor at position idx.
pub fn display_id(idx: usize) -> (r: String)
    ensures
        r@ == spec_display_id(idx as nat),
{
    let mut s = String::from_str("display_");
    append_dec(&mut s, idx as u64);
    s
}

/// The menu label for the monitor at position idx.
fn display_label(m: &Monitor, idx: usize) -> (r: String)
    requires
        idx < usize::MAX,
    ensures
        r@ == spec_display_label(*m, idx as nat),
{
    let mut s = monitor_label(&m.name, idx);
    s.append(" (");
    append_dec(&mut s, m.width as u64);
    s.append("x");
    append_dec(&mut s, m.height as u64);
    s.append(")");
    proof {
        assert(s@ =~= spec_display_label(*m, idx as nat));
    }
    s
}

/// Builds the menu model for a startup snapshot of monitors: File → Quit
/// (CmdOrCtrl+Q), View → Toggle Fullscreen (CmdOrCtrl+F), and one
/// "Move to Display" entry per monitor — or no such submenu at all when the
/// snapshot is empty.
pub fn build_menu_model(monitors: &Vec<Monitor>) -> (r: MenuModel)
    ensures
        r.file_title@ == "File"@,
        r.view_title@ == "View"@,
        r.quit.id@ == "quit"@,
        r.quit.label@ == "Quit"@,
        r.quit.accelerator matches Some(a) && a@ == "CmdOrCtrl+Q"@,
        r.toggle_fullscreen.id@ == "toggle_fullscreen"@,
        r.toggle_fullscreen.label@ == "Toggle Fullscreen"@,
        r.toggle_fullscreen.accelerator matches Some(a) && a@ == "CmdOrCtrl+F"@,
        (r.move_to_display is Some) <==> monitors@.len() > 0,
        r.move_to_display matches Some(sub) ==> {
            &&& sub.title@ == "Move to Display"@
            &&& sub.items@.len() == monitors@.len()
            &&& forall|i: int|
                0 <= i < monitors@.len() ==> {
                    &&& (#[trigger] sub.items@[i]).id@ == spec_display_id(i as nat)
                    &&& sub.items@[i].label@ == spec_display_label(monitors@[i], i as nat)
                    &&& sub.items@[i].accelerator is None
                }
        },
{
    let quit = MenuItemModel {
        id: String::from_str("quit"),
        label: String::from_str("Quit"),
        accelerator: Some(String::from_str("CmdOrCtrl+Q")),
    };
    let toggle_fullscreen = MenuItemModel {
        id: String::from_str("toggle_fullscreen"),
        label: String::from_str("Toggle Fullscreen"),
        accelerator: Some(String::from_str("CmdOrCtrl+F")),
    };
    let move_to_display = if monitors.len() > 0 {
        let mut items: Vec<MenuItemModel> = Vec::new();
        let mut idx: usize = 0;
        while idx < monitors.len()
            invariant
                idx <= monitors@.len(),
                items@.len() == idx,
                forall|i: int|
                    0 <= i < idx ==> {
                        &&& (#[trigger] items@[i]).id@ == spec_display_id(i as nat)
                        &&& items@[i].label@ == spec_display_label(monitors@[i], i as nat)
                        &&& items@[i].accelerator is None
                    },
            decreases monitors@.len() - idx,
        {
            let m = &monitors[idx];
            items.push(
                MenuItemModel { id: display_id(idx), label: display_label(m, idx), accelerator: None },
            );
            idx += 1;
        }
        Some(SubmenuModel { title: String::from_str("Move to Display"), items })
    } else {
        None
    };
    MenuModel {
        file_title: String::from_str("File"),
        view_title: String::from_str("View"),
        quit,
        toggle_fullscreen,
        move_to_display,
    }
}

/// The decoded meaning of a clicked menu entry.
#[derive(Clone, Copy, Debug, PartialEq, Eq, Structural)]
pub enum MenuAction {
    /// Terminate the application with exit code 0.
    Quit,
    /// Flip the main window's fullscreen state.
    ToggleFullscreen,
    /// Center the main window on the monitor at this snapshot position.
    MoveToDisplay(usize),
    /// Anything else: do nothing.
    NoOp,
}

/// Whether id has the shape of a display entry: the "display_" prefix
/// followed by at least one character, all of them digits.
pub open spec fn is_display_id(id: Seq<char>) -> bool {
    &&& id.len() > 8
    &&& id.take(8) == "display_"@
    &&& all_digits(id.skip(8))
}

/// The action for a menu event id, dispatched against a snapshot of `count`
/// monitors: "quit" and "toggle_fullscreen" map to their actions; a
/// well-formed "display_{i}" with i inside the snapshot maps to a move; any
/// other id — a foreign one, a non-numeric or empty suffix, or an index at or
/// past count — is a no-op.
pub open spec fn spec_menu_action(id: Seq<char>, count: nat) -> MenuAction {
    if id == "quit"@ {
        MenuAction::Quit
    } else if id == "toggle_fullscreen"@ {
        MenuAction::ToggleFullscreen
    } else if is_display_id(id) && dec_val(id.skip(8)) < count {
        MenuAction::MoveToDisplay(dec_val(id.skip(8)) as usize)
    } else {
        MenuAction::NoOp
    }
}

/// Decodes a menu event id against the startup snapshot size.
pub fn menu_action(id: &str, monitor_count: usize) -> (r: MenuAction)
    ensures
        r == spec_menu_action(id@, monitor_count as nat),
{
    if str_eq(id, "quit") {
        return MenuAction::Quit;
    }
    if str_eq(id, "toggle_fullscreen") {
        return MenuAction::ToggleFullscreen;
    }
    let len = id.unicode_len();
    proof {
        reveal_strlit("display_");
    }
    if len <= 8 {
        return MenuAction::NoOp;
    }
    let prefix = id.substring_char(0, 8);
    if !str_eq(prefix, "display_") {
        return MenuAction::NoOp;
    }
    let suffix = id.substring_char(8, len);
    proof {
        assert(suffix@ =~= id@.skip(8));
    }
    match parse_index(suffix) {
        Some(v) => {
            if v < monitor_count {
                MenuAction::MoveToDisplay(v)
            } else {
                MenuAction::NoOp
            }
        },
        None => {
            proof {
                if dec_val(id@.skip(8)) > usize::MAX {
                    assert(!(dec_val(id@.skip(8)) < monitor_count as nat));
                }
            }
            MenuAction::NoOp
        },
    }
}

/// Law: the id built for display entry idx decodes, against any snapshot
/// that still has more than idx monitors, to moving to exactly display idx.
pub proof fn lemma_display_id_round_trip(idx: usize, count: nat)
    requires
        (idx as nat) < count,
    ensures
        spec_menu_action(spec_display_id(idx as nat), count) == MenuAction::MoveToDisplay(idx),
{
    reveal_strlit("display_");
    reveal_strlit("quit");
    reveal_strlit("toggle_fullscreen");
    let id = spec_display_id(idx as nat);
    lemma_dec_str_digits(idx as nat);
    lemma_dec_val_of_dec_str(idx as nat);
    assert(id.take(8) =~= "display_"@);
    assert(id.skip(8) =~= dec_str(idx as nat));
    assert(id != "quit"@) by {
        if id == "quit"@ {
            assert(id.len() == 4);
        }
    }
    assert(id != "toggle_fullscreen"@) by {
        if id == "toggle_fullscreen"@ {
            assert(id[0] == 't');
            assert(id[0] == "display_"@[0]);
        }
    }
    assert(is_display_id(id));
}

} // verus!
