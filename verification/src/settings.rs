//! The settings page: the six settings it lists, how each value reads, and
//! the help line for the selected one.

use vstd::prelude::*;
use crate::text::{decimal, push_decimal, push_str};

verus! {

/// What the settings page shows.
pub struct SettingsPage {
    pub theme_name: String,
    pub cava_available: bool,
    pub cava_enabled: bool,
    pub cava_size: u32,
    pub notifications_enabled: bool,
    pub scrobble_enabled: bool,
    pub save_queue_enabled: bool,
    pub selected_field: usize,
}

/// The number of settings on the page.
pub const SETTINGS_COUNT: usize = 6;

/// "On" or "Off".
pub open spec fn on_off(b: bool) -> Seq<char> {
    if b {
        "On"@
    } else {
        "Off"@
    }
}

/// The name of setting `field`.
pub open spec fn spec_setting_label(field: int) -> Seq<char> {
    if field == 0 {
        "Theme"@
    } else if field == 1 {
        "Cava Visualizer"@
    } else if field == 2 {
        "Cava Size"@
    } else if field == 3 {
        "Notifications"@
    } else if field == 4 {
        "Scrobble"@
    } else {
        "Save Queue"@
    }
}

/// The value of setting `field`: the theme's name; the visualizer's state
/// and size (in percent), each with a note when cava is not installed; and
/// the three switches.
pub open spec fn spec_setting_value(p: SettingsPage, field: int) -> Seq<char> {
    if field == 0 {
        p.theme_name@
    } else if field == 1 {
        if !p.cava_available {
            "Off (cava not found)"@
        } else {
            on_off(p.cava_enabled)
        }
    } else if field == 2 {
        if !p.cava_available {
            "N/A (cava not found)"@
        } else {
            decimal(p.cava_size as nat) + "%"@
        }
    } else if field == 3 {
        on_off(p.notifications_enabled)
    } else if field == 4 {
        on_off(p.scrobble_enabled)
    } else {
        on_off(p.save_queue_enabled)
    }
}

/// The value line under a setting's name: between arrows when the setting
/// is selected, indented otherwise.
pub open spec fn spec_value_line(value: Seq<char>, selected: bool) -> Seq<char> {
    if selected {
        "  ◀ "@ + value + " ▶"@
    } else {
        "    "@ + value
    }
}

/// The help line for the selected setting (empty when none is selected).
pub open spec fn spec_settings_help(field: int, cava_available: bool) -> Seq<char> {
    if field == 0 {
        "← → or Enter to change theme (auto-saves)"@
    } else if field == 1 && cava_available {
        "← → or Enter to toggle cava visualizer (auto-saves)"@
    } else if field == 2 && cava_available {
        "← → to adjust cava size (10%-80%, auto-saves)"@
    } else if field == 1 || field == 2 {
        "cava is not installed on this system"@
    } else if field == 3 {
        "← → or Enter to toggle desktop notifications"@
    } else if field == 4 {
        "← → or Enter to toggle scrobbling played tracks to the server"@
    } else if field == 5 {
        "← → or Enter to toggle saving queue on exit and restoring on launch"@
    } else {
        ""@
    }
}

fn setting_label(field: usize) -> (s: &'static str)
    ensures
        s@ == spec_setting_label(field as int),
{
    if field == 0 {
        "Theme"
    } else if field == 1 {
        "Cava Visualizer"
    } else if field == 2 {
        "Cava Size"
    } else if field == 3 {
        "Notifications"
    } else if field == 4 {
        "Scrobble"
    } else {
        "Save Queue"
    }
}

fn push_on_off(s: &mut String, b: bool)
    ensures
        final(s)@ == old(s)@ + on_off(b),
{
    if b {
        push_str(s, "On");
    } else {
        push_str(s, "Off");
    }
}

fn push_setting_value(s: &mut String, p: &SettingsPage, field: usize)
    ensures
        final(s)@ == old(s)@ + spec_setting_value(*p, field as int),
{
    if field == 0 {
        push_str(s, p.theme_name.as_str());
    } else if field == 1 {
        if !p.cava_available {
            push_str(s, "Off (cava not found)");
        } else {
            push_on_off(s, p.cava_enabled);
        }
    } else if field == 2 {
        if !p.cava_available {
            push_str(s, "N/A (cava not found)");
        } else {
            push_decimal(s, p.cava_size as u64);
            push_str(s, "%");
            assert(final(s)@ =~= old(s)@ + (decimal(p.cava_size as nat) + "%"@));
        }
    } else if field == 3 {
        push_on_off(s, p.notifications_enabled);
    } else if field == 4 {
        push_on_off(s, p.scrobble_enabled);
    } else {
        push_on_off(s, p.save_queue_enabled);
    }
}

/// The rows of the page, top to bottom: each setting's name and its value
/// line.
pub fn setting_rows(p: &SettingsPage) -> (rows: Vec<(String, String)>)
    ensures
        rows@.len() == SETTINGS_COUNT,
        forall|i: int|
            0 <= i < SETTINGS_COUNT ==> {
                &&& (#[trigger] rows@[i]).0@ == spec_setting_label(i)
                &&& rows@[i].1@ == spec_value_line(
                    spec_setting_value(*p, i),
                    p.selected_field == i,
                )
            },
{
    let mut rows: Vec<(String, String)> = Vec::new();
    let mut field: usize = 0;
    while field < SETTINGS_COUNT
        invariant
            field <= SETTINGS_COUNT,
            rows@.len() == field,
            forall|i: int|
                0 <= i < field ==> {
                    &&& (#[trigger] rows@[i]).0@ == spec_setting_label(i)
                    &&& rows@[i].1@ == spec_value_line(
                        spec_setting_value(*p, i),
                        p.selected_field == i,
                    )
                },
        decreases SETTINGS_COUNT - field,
    {
        let mut line = String::new();
        let selected = p.selected_field == field;
        if selected {
            push_str(&mut line, "  ◀ ");
        } else {
            push_str(&mut line, "    ");
        }
        push_setting_value(&mut line, p, field);
        if selected {
            push_str(&mut line, " ▶");
        }
        let mut label = String::new();
        push_str(&mut label, setting_label(field));
        assert(line@ =~= spec_value_line(spec_setting_value(*p, field as int), selected));
        rows.push((label, line));
        field = field + 1;
    }
    rows
}

/// The help line at the bottom of the page for the selected setting.
pub fn settings_help(selected_field: usize, cava_available: bool) -> (s: &'static str)
    ensures
        s@ == spec_settings_help(selected_field as int, cava_available),
{
    if selected_field == 0 {
        "← → or Enter to change theme (auto-saves)"
    } else if selected_field == 1 && cava_available {
        "← → or Enter to toggle cava visualizer (auto-saves)"
    } else if selected_field == 2 && cava_available {
        "← → to adjust cava size (10%-80%, auto-saves)"
    } else if selected_field == 1 || selected_field == 2 {
        "cava is not installed on this system"
    } else if selected_field == 3 {
        "← → or Enter to toggle desktop notifications"
    } else if selected_field == 4 {
        "← → or Enter to toggle scrobbling played tracks to the server"
    } else if selected_field == 5 {
        "← → or Enter to toggle saving queue on exit and restoring on launch"
    } else {
        ""
    }
}

} // verus!
