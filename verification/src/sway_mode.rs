//! The window-manager binding-mode module: mirrors the window manager's
//! current binding mode on a bar label, clearing the label when the
//! default mode returns.

use vstd::prelude::*;

verus! {

/// A binding-mode change as the window manager's IPC session reports it:
/// the new mode's name and whether it should be rendered as markup.
pub struct ModeEvent {
    pub change: String,
    pub pango_markup: bool,
}

/// Configuration of the binding-mode module.
pub struct SwayModeModule {}

/// What the widget's receive callback applies for one mode change.
pub struct ModeDisplay {
    /// Whether the label renders its text as markup.
    pub use_markup: bool,
    /// The text the label shows.
    pub label: String,
}

impl SwayModeModule {
    /// The module's name.
    pub fn name() -> (n: &'static str)
        ensures
            n@ == "sway_mode"@,
    {
        "sway_mode"
    }

    /// Decides what the label shows for one mode change: the mode's name,
    /// except that the default mode clears the label; markup rendering
    /// follows the event.
    pub fn mode_display(ev: &ModeEvent) -> (d: ModeDisplay)
        ensures
            d.use_markup == ev.pango_markup,
            ev.change@ == "default"@ ==> d.label@ == Seq::<char>::empty(),
            ev.change@ != "default"@ ==> d.label@ == ev.change@,
    {
        let default_mode: String = "default".to_owned();
        if ev.change == default_mode {
            ModeDisplay { use_markup: ev.pango_markup, label: String::new() }
        } else {
            ModeDisplay { use_markup: ev.pango_markup, label: ev.change.clone() }
        }
    }
}

} // verus!
