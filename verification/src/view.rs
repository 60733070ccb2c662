//! What the panels and popups show: which panel is highlighted, the text of each list
//! entry and hint, and where a popup sits on the screen.

use vstd::prelude::*;
use crate::app::{App, Dialog, Panel};
use crate::audio::{Loopback, Sink, SinkInput};
use crate::config::Preset;
use crate::text::{concat2, concat3, decimal, decimal_string};

verus! {

/// Whether `panel` is drawn highlighted: when it has focus, or when the open dialog
/// picks from it.
pub open spec fn highlighted(app: App, panel: Panel) -> bool {
    match panel {
        Panel::Applications => app.focused == Panel::Applications || app.dialog is MoveSinkInput,
        Panel::Sources => app.focused == Panel::Sources || app.dialog is NewLoopbackPickSource,
        Panel::Sinks => app.focused == Panel::Sinks || app.dialog is NewLoopbackPickSink
            || app.dialog is MoveSinkInput,
        Panel::Loopbacks => app.focused == Panel::Loopbacks,
    }
}

/// Whether `panel` is drawn highlighted.
pub fn panel_highlighted(app: &App, panel: Panel) -> (b: bool)
    ensures
        b == highlighted(*app, panel),
{
    match panel {
        Panel::Applications => app.focused == Panel::Applications || matches!(
            app.dialog,
            Dialog::MoveSinkInput { .. }
        ),
        Panel::Sources => app.focused == Panel::Sources || matches!(
            app.dialog,
            Dialog::NewLoopbackPickSource
        ),
        Panel::Sinks => app.focused == Panel::Sinks || matches!(
            app.dialog,
            Dialog::NewLoopbackPickSink { .. }
        ) || matches!(app.dialog, Dialog::MoveSinkInput { .. }),
        Panel::Loopbacks => app.focused == Panel::Loopbacks,
    }
}

/// The entry of a sink in the Sinks panel: its description, marked `[null]` when virtual.
pub fn sink_label(sink: &Sink) -> (r: String)
    ensures
        r@ == (if sink.is_virtual {
            "[null] "@ + sink.description@
        } else {
            sink.description@
        }),
{
    if sink.is_virtual {
        concat2("[null] ", sink.description.as_str())
    } else {
        sink.description.clone()
    }
}

/// What follows an application's name in the Applications panel: the sink it plays to.
pub fn sink_input_target(input: &SinkInput) -> (r: String)
    ensures
        r@ == "  → "@ + input.current_sink_name@,
{
    concat2("  → ", input.current_sink_name.as_str())
}

/// The entry of the loopback at position `i` (from 0) in the Active Loopbacks panel:
/// its number from 1, its source and its sink.
pub fn loopback_label(i: usize, lb: &Loopback) -> (r: String)
    requires
        i < u64::MAX,
    ensures
        r@ == "  "@ + decimal((i + 1) as nat) + "  "@ + lb.source_name@ + " → "@ + lb.sink_name@,
{
    let number = decimal_string((i as u64) + 1);
    let head = concat3("  ", number.as_str(), "  ");
    let middle = concat3(head.as_str(), lb.source_name.as_str(), " → ");
    concat2(middle.as_str(), lb.sink_name.as_str())
}

/// `noun` with `s` appended unless `n` is one.
pub open spec fn counted(n: nat, noun: Seq<char>) -> Seq<char> {
    decimal(n) + " "@ + noun + (if n == 1 {
        seq![]
    } else {
        "s"@
    })
}

fn counted_exec(n: usize, noun: &str) -> (r: String)
    requires
        n <= u64::MAX,
    ensures
        r@ == counted(n as nat, noun@),
{
    let number = decimal_string(n as u64);
    let phrase = concat3(number.as_str(), " ", noun);
    if n == 1 {
        assert(phrase@ + seq![] =~= phrase@);
        phrase
    } else {
        concat2(phrase.as_str(), "s")
    }
}

/// The summary after a preset's name in the presets popup, such as
/// `  (2 loopbacks, 1 virtual sink)`.
pub fn preset_summary(p: &Preset) -> (r: String)
    requires
        p.loopbacks@.len() <= u64::MAX,
        p.virtual_sinks@.len() <= u64::MAX,
    ensures
        r@ == "  ("@ + counted(p.loopbacks@.len(), "loopback"@) + ", "@ + counted(
            p.virtual_sinks@.len(),
            "virtual sink"@,
        ) + ")"@,
{
    let loopbacks = counted_exec(p.loopbacks.len(), "loopback");
    let sinks = counted_exec(p.virtual_sinks.len(), "virtual sink");
    let head = concat3("  (", loopbacks.as_str(), ", ");
    concat3(head.as_str(), sinks.as_str(), ")")
}

/// The hint line that a picking dialog shows above the help bar.
pub open spec fn hint_of(d: Dialog) -> Option<Seq<char>> {
    match d {
        Dialog::NewLoopbackPickSource => Some("Select source, then press Enter"@),
        Dialog::NewLoopbackPickSink { source } => Some(
            "Source: "@ + source.description@ + "  —  now select a sink"@,
        ),
        Dialog::MoveSinkInput { input } => Some(
            "Moving '"@ + input.app_name@ + "'  —  select target sink, then press Enter"@,
        ),
        Dialog::ListenToSink { sink } => Some(
            "Listening to '"@ + sink.description@ + "'  —  select output sink, then press Enter"@,
        ),
        _ => None,
    }
}

/// The hint line of the open dialog, if it is one that picks from a panel.
pub fn dialog_hint(d: &Dialog) -> (r: Option<String>)
    ensures
        match r {
            Some(t) => hint_of(*d) == Some(t@),
            None => hint_of(*d) is None,
        },
{
    match d {
        Dialog::NewLoopbackPickSource => Some(String::from_str("Select source, then press Enter")),
        Dialog::NewLoopbackPickSink { source } => Some(
            concat3("Source: ", source.description.as_str(), "  —  now select a sink"),
        ),
        Dialog::MoveSinkInput { input } => Some(
            concat3(
                "Moving '",
                input.app_name.as_str(),
                "'  —  select target sink, then press Enter",
            ),
        ),
        Dialog::ListenToSink { sink } => Some(
            concat3(
                "Listening to '",
                sink.description.as_str(),
                "'  —  select output sink, then press Enter",
            ),
        ),
        _ => None,
    }
}

/// A popup that reads a name: its title, the prompt above the field, and the field's
/// text with the cursor mark.
#[derive(Debug)]
pub struct InputPopup {
    pub title: String,
    pub prompt: String,
    pub field: String,
}

/// What the input popup of a dialog shows: title, prompt, and field text.
pub open spec fn input_popup_of(d: Dialog) -> Option<(Seq<char>, Seq<char>, Seq<char>)> {
    match d {
        Dialog::CreateVirtualSource { sink, name } => Some(
            (
                " Create Virtual Input "@,
                "Virtual mic name (wraps monitor of '"@ + sink.description@ + "'):"@,
                name@ + "_"@,
            ),
        ),
        Dialog::NewVirtualSink { input } => Some((" New Virtual Sink "@, "Sink name:"@, input@ + "_"@)),
        Dialog::SavePreset { input } => Some((" Save Preset "@, "Preset name:"@, input@ + "_"@)),
        _ => None,
    }
}

/// The input popup of the open dialog, if it is one that reads a name.
pub fn dialog_input_popup(d: &Dialog) -> (r: Option<InputPopup>)
    ensures
        match r {
            Some(p) => input_popup_of(*d) == Some((p.title@, p.prompt@, p.field@)),
            None => input_popup_of(*d) is None,
        },
{
    match d {
        Dialog::CreateVirtualSource { sink, name } => Some(
            InputPopup {
                title: String::from_str(" Create Virtual Input "),
                prompt: concat3(
                    "Virtual mic name (wraps monitor of '",
                    sink.description.as_str(),
                    "'):",
                ),
                field: concat2(name.as_str(), "_"),
            },
        ),
        Dialog::NewVirtualSink { input } => Some(
            InputPopup {
                title: String::from_str(" New Virtual Sink "),
                prompt: String::from_str("Sink name:"),
                field: concat2(input.as_str(), "_"),
            },
        ),
        Dialog::SavePreset { input } => Some(
            InputPopup {
                title: String::from_str(" Save Preset "),
                prompt: String::from_str("Preset name:"),
                field: concat2(input.as_str(), "_"),
            },
        ),
        _ => None,
    }
}

/// A rectangle of terminal cells.
#[derive(Debug, Clone, Copy, PartialEq, Eq, Structural)]
pub struct Rect {
    pub x: u16,
    pub y: u16,
    pub width: u16,
    pub height: u16,
}

/// `a - b`, or 0 when `b` is larger, as `u16::saturating_sub` gives.
pub open spec fn sat_sub(a: u16, b: int) -> int {
    if a > b {
        a - b
    } else {
        0
    }
}

/// A popup `percent_x` percent as wide as `r` and `height` rows high (both at most
/// those of `r`), centred in `r`. The width product and the coordinates must fit
/// in a `u16`.
pub fn centered_rect(percent_x: u16, height: u16, r: Rect) -> (p: Rect)
    requires
        r.width * percent_x <= u16::MAX,
        sat_sub(r.width, r.width * percent_x / 100) / 2 + r.x <= u16::MAX,
        sat_sub(r.height, height as int) / 2 + r.y <= u16::MAX,
    ensures
        ({
            let w = r.width * percent_x / 100;
            &&& p.x == sat_sub(r.width, w) / 2 + r.x
            &&& p.y == sat_sub(r.height, height as int) / 2 + r.y
            &&& p.width == (if w < r.width {
                w
            } else {
                r.width as int
            })
            &&& p.height == (if height < r.height {
                height
            } else {
                r.height
            })
        }),
{
    let popup_w = r.width * percent_x / 100;
    let popup_x = (if r.width > popup_w {
        r.width - popup_w
    } else {
        0
    }) / 2 + r.x;
    let popup_y = (if r.height > height {
        r.height - height
    } else {
        0
    }) / 2 + r.y;
    Rect {
        x: popup_x,
        y: popup_y,
        width: if popup_w < r.width {
            popup_w
        } else {
            r.width
        },
        height: if height < r.height {
            height
        } else {
            r.height
        },
    }
}

} // verus!
