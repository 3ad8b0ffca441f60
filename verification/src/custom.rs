//! Custom widgets: declarative box and button descriptions, the popup
//! button registry, and the click-routing decision that turns a button
//! press into a command event for the controller's inbox.

use vstd::prelude::*;

verus! {

/// Whether child widgets are laid out horizontally or vertically.
#[derive(Clone, Copy, Debug, PartialEq, Eq, Structural)]
pub enum ModuleOrientation {
    Horizontal,
    Vertical,
}

impl Default for ModuleOrientation {
    /// Widgets lay out horizontally unless the configuration says else.
    fn default() -> (o: ModuleOrientation)
        ensures
            o == ModuleOrientation::Horizontal,
    {
        ModuleOrientation::Horizontal
    }
}

impl ModuleOrientation {
    /// Reads an orientation from its configuration spelling: exactly
    /// `horizontal` and `h` name the horizontal orientation, `vertical`
    /// and `v` the vertical one, and anything else is rejected.
    pub fn parse(s: &str) -> (r: Option<ModuleOrientation>)
        ensures
            s@ == "horizontal"@ || s@ == "h"@ ==> r == Some(ModuleOrientation::Horizontal),
            s@ == "vertical"@ || s@ == "v"@ ==> r == Some(ModuleOrientation::Vertical),
            s@ != "horizontal"@ && s@ != "h"@ && s@ != "vertical"@ && s@ != "v"@ ==> r is None,
    {
        proof {
            reveal_strlit("horizontal");
            reveal_strlit("h");
            reveal_strlit("vertical");
            reveal_strlit("v");
            assert("horizontal"@.len() == 10 && "vertical"@.len() == 8 && "h"@.len() == 1 && "v"@.len() == 1);
            assert("h"@[0] == 'h' && "v"@[0] == 'v');
            assert("vertical"@ != "horizontal"@ && "vertical"@ != "h"@);
            assert("v"@ != "horizontal"@ && "v"@ != "h"@);
        }
        let value: String = s.to_owned();
        if value == "horizontal".to_owned() || value == "h".to_owned() {
            Some(ModuleOrientation::Horizontal)
        } else if value == "vertical".to_owned() || value == "v".to_owned() {
            Some(ModuleOrientation::Vertical)
        } else {
            None
        }
    }
}

/// A declarative container widget holding other widgets.
pub struct BoxWidget {
    /// Widget name.
    pub name: Option<String>,
    /// Widget class name.
    pub class: Option<String>,
    /// Direction in which child widgets are added.
    pub orientation: Option<ModuleOrientation>,
}

/// A declarative button widget, optionally running a command on click.
pub struct ButtonWidget {
    /// Widget name.
    pub name: Option<String>,
    /// Widget class name.
    pub class: Option<String>,
    /// Text label shown on the button.
    pub label: Option<String>,
    /// Command to execute when the button is clicked.
    pub on_click: Option<String>,
    /// Orientation of the button's label.
    pub orientation: ModuleOrientation,
}

/// A command event routed from a click back into the async runtime.
pub struct ExecEvent {
    pub cmd: String,
    pub args: Option<Vec<String>>,
    /// The popup identifier of the clicked button, or `usize::MAX` for a
    /// button that never registered as popup-capable.
    pub id: usize,
}

impl ButtonWidget {
    /// Routes one click on this button: a button with a command produces
    /// the event carrying that command, no arguments, and the button's
    /// popup identifier — or the sentinel `usize::MAX` when the button is
    /// not popup-capable.  A button without a command produces nothing.
    pub fn click_event(&self, popup_id: Option<usize>) -> (r: Option<ExecEvent>)
        ensures
            r is Some <==> self.on_click is Some,
            self.on_click matches Some(cmd) ==> r matches Some(e) && e.cmd@ == cmd@ && e.args
                is None && e.id == (match popup_id {
                Some(p) => p,
                None => usize::MAX,
            }),
    {
        match &self.on_click {
            Some(cmd) => Some(
                ExecEvent {
                    cmd: cmd.clone(),
                    args: None,
                    id: match popup_id {
                        Some(p) => p,
                        None => usize::MAX,
                    },
                },
            ),
            None => None,
        }
    }
}

/// The popup button registry: every popup-capable button registers itself
/// at construction time under a fresh identifier, and click routing later
/// looks the button up by it.  Guarded by one exclusive lock outside;
/// handles are opaque identifiers for the underlying button widgets.
pub struct PopupButtons {
    buttons: Vec<u64>,
}

impl PopupButtons {
    /// The registered button handles, indexed by assigned identifier.
    pub closed spec fn entries(self) -> Seq<u64> {
        self.buttons@
    }

    /// An empty registry.
    pub fn new() -> (r: PopupButtons)
        ensures
            r.entries() == Seq::<u64>::empty(),
    {
        PopupButtons { buttons: Vec::new() }
    }

    /// Registers a button and returns its fresh identifier: one more
    /// than any identifier assigned before, so identifiers never repeat,
    /// and every earlier registration stays retrievable unchanged.
    pub fn register(&mut self, handle: u64) -> (id: usize)
        ensures
            id == old(self).entries().len(),
            final(self).entries() == old(self).entries().push(handle),
    {
        let id = self.buttons.len();
        self.buttons.push(handle);
        id
    }

    /// Looks a button up by its identifier.
    pub fn get(&self, id: usize) -> (r: Option<u64>)
        ensures
            id < self.entries().len() ==> r == Some(self.entries()[id as int]),
            id >= self.entries().len() ==> r is None,
    {
        if id < self.buttons.len() {
            Some(self.buttons[id])
        } else {
            None
        }
    }

    /// How many buttons are registered.
    pub fn len(&self) -> (n: usize)
        ensures
            n == self.entries().len(),
    {
        self.buttons.len()
    }
}

} // verus!
