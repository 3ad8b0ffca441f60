//! Focus-tracking module: follows which toplevel window currently has
//! focus and emits an update for the bar widget on every change.

use vstd::prelude::*;

verus! {

/// A toplevel window as the compositor reports it: its identifier, its
/// title, its application id and whether it currently has focus.
#[derive(Clone)]
pub struct Toplevel {
    pub id: u64,
    pub title: String,
    pub app_id: String,
    pub focused: bool,
}

/// One event on the compositor's toplevel stream.
#[derive(Clone)]
pub enum ToplevelEvent {
    New(Toplevel),
    Update(Toplevel),
    Remove(Toplevel),
}

/// What the controller hands to the update channel: `Some((title, app_id))`
/// when a window takes focus, `None` when focus is cleared.
pub type FocusUpdate = Option<(String, String)>;

/// The tracker's state: the id of the focused window, if any.
pub struct FocusTracker {
    current: Option<u64>,
}

/// The next state after one event.  `New` is ignored; a focused `Update`
/// moves focus to that window; an unfocused `Update` clears focus only if
/// it names the window currently held; a `Remove` of a focused window
/// clears focus.
pub open spec fn spec_step_state(current: Option<u64>, ev: ToplevelEvent) -> Option<u64> {
    match ev {
        ToplevelEvent::New(_) => current,
        ToplevelEvent::Update(info) => if info.focused {
            Some(info.id)
        } else if current matches Some(c) && c == info.id {
            None
        } else {
            current
        },
        ToplevelEvent::Remove(info) => if info.focused {
            None
        } else {
            current
        },
    }
}

/// What one event makes the controller emit: `None` for silence,
/// `Some(update)` for an emission, where the update is `Some((title,
/// app_id))` on a focus gain and `None` on a focus clear.
pub open spec fn spec_step_emit(current: Option<u64>, ev: ToplevelEvent) -> Option<
    Option<(Seq<char>, Seq<char>)>,
> {
    match ev {
        ToplevelEvent::New(_) => None,
        ToplevelEvent::Update(info) => if info.focused {
            Some(Some((info.title@, info.app_id@)))
        } else if current matches Some(c) && c == info.id {
            Some(None)
        } else {
            None
        },
        ToplevelEvent::Remove(info) => if info.focused {
            Some(None)
        } else {
            None
        },
    }
}

/// The mathematical value of an update: the pair of title and app id.
pub open spec fn update_view(u: FocusUpdate) -> Option<(Seq<char>, Seq<char>)> {
    match u {
        None => None,
        Some(p) => Some((p.0@, p.1@)),
    }
}

/// The mathematical value of an optional emission.
pub open spec fn emit_view(e: Option<FocusUpdate>) -> Option<Option<(Seq<char>, Seq<char>)>> {
    match e {
        None => None,
        Some(u) => Some(update_view(u)),
    }
}

/// The first toplevel in the snapshot that reports itself focused,
/// scanning from position `i`.
pub open spec fn first_focused_from(s: Seq<Toplevel>, i: int) -> Option<Toplevel>
    decreases s.len() - i,
{
    if i < 0 || i >= s.len() {
        None
    } else if s[i].focused {
        Some(s[i])
    } else {
        first_focused_from(s, i + 1)
    }
}

/// The first toplevel in the snapshot that reports itself focused.
pub open spec fn first_focused(s: Seq<Toplevel>) -> Option<Toplevel> {
    first_focused_from(s, 0)
}

impl FocusTracker {
    /// The id of the window the tracker holds as focused.
    pub closed spec fn current_focus(self) -> Option<u64> {
        self.current
    }

    /// A tracker that has seen nothing: no window is focused.
    pub fn new() -> (t: FocusTracker)
        ensures
            t.current_focus() is None,
    {
        FocusTracker { current: None }
    }

    /// Builds the tracker from the initial snapshot of known toplevels and
    /// returns the first update to emit.  The update is never omitted: it
    /// carries the first window of the snapshot that reports itself
    /// focused, and is `None` when no window does.
    pub fn init(handles: &Vec<Toplevel>) -> (r: (FocusTracker, FocusUpdate))
        ensures
            first_focused(handles@) matches Some(f) ==> {
                &&& r.0.current_focus() == Some(f.id)
                &&& r.1 matches Some(p) && p.0@ == f.title@ && p.1@ == f.app_id@
            },
            first_focused(handles@) is None ==> {
                &&& r.0.current_focus() is None
                &&& r.1 is None
            },
            emit_view(Some(r.1)) == Some(
                match first_focused(handles@) {
                    Some(f) => Some((f.title@, f.app_id@)),
                    None => None,
                },
            ),
    {
        let n = handles.len();
        let mut i: usize = 0;
        while i < n
            invariant
                n == handles@.len(),
                0 <= i <= n,
                first_focused(handles@) == first_focused_from(handles@, i as int),
            decreases n - i,
        {
            if handles[i].focused {
                let f = &handles[i];
                return (
                    FocusTracker { current: Some(f.id) },
                    Some((f.title.clone(), f.app_id.clone())),
                );
            }
            i = i + 1;
        }
        (FocusTracker { current: None }, None)
    }

    /// Applies a whole run of toplevel events in order and collects one
    /// entry per event: what the controller emitted for it, if anything.
    /// The entries are exactly `run_emissions` of the event sequence, and
    /// the tracker ends in the state `run_state` prescribes.
    pub fn run(&mut self, events: &Vec<ToplevelEvent>) -> (emits: Vec<Option<FocusUpdate>>)
        ensures
            final(self).current_focus() == run_state(
                old(self).current_focus(),
                events@,
                events@.len() as int,
            ),
            emits@.len() == events@.len(),
            forall|j: int|
                0 <= j < events@.len() ==> emit_view(#[trigger] emits@[j]) == run_emissions(
                    old(self).current_focus(),
                    events@,
                )[j],
    {
        let ghost init = self.current_focus();
        let mut emits: Vec<Option<FocusUpdate>> = Vec::new();
        let n = events.len();
        let mut i: usize = 0;
        while i < n
            invariant
                n == events@.len(),
                0 <= i <= n,
                self.current_focus() == run_state(init, events@, i as int),
                emits@.len() == i,
                forall|j: int|
                    0 <= j < i ==> emit_view(#[trigger] emits@[j]) == run_emissions(
                        init,
                        events@,
                    )[j],
            decreases n - i,
        {
            let emit = self.handle_event(&events[i]);
            emits.push(emit);
            i = i + 1;
        }
        emits
    }

    /// Applies one toplevel event and returns what to emit, exactly as the
    /// step functions say: the state follows `spec_step_state` and the
    /// emission follows `spec_step_emit`.
    pub fn handle_event(&mut self, ev: &ToplevelEvent) -> (emit: Option<FocusUpdate>)
        ensures
            final(self).current_focus() == spec_step_state(old(self).current_focus(), *ev),
            emit_view(emit) == spec_step_emit(old(self).current_focus(), *ev),
    {
        match ev {
            ToplevelEvent::New(_) => None,
            ToplevelEvent::Update(info) => {
                if info.focused {
                    self.current = Some(info.id);
                    Some(Some((info.title.clone(), info.app_id.clone())))
                } else {
                    let clears = match self.current {
                        Some(c) => c == info.id,
                        None => false,
                    };
                    if clears {
                        self.current = None;
                        Some(None)
                    } else {
                        None
                    }
                }
            },
            ToplevelEvent::Remove(info) => {
                if info.focused {
                    self.current = None;
                    Some(None)
                } else {
                    None
                }
            },
        }
    }
}

/// Configuration of the focused-window module.
pub struct FocusedModule {
    /// Whether to show the focused window's icon on the bar.
    pub show_icon: bool,
    /// Whether to show the focused window's title on the bar.
    pub show_title: bool,
    /// Icon size in pixels.
    pub icon_size: i32,
}

impl Default for FocusedModule {
    /// By default both the icon and the title are shown, at icon size 32.
    fn default() -> (m: FocusedModule)
        ensures
            m.show_icon,
            m.show_title,
            m.icon_size == 32,
    {
        FocusedModule { show_icon: true, show_title: true, icon_size: 32 }
    }
}

/// What the widget's receive callback should do for one update.  A `None`
/// field leaves that part of the widget untouched.
pub struct FocusedDisplay {
    /// Show or hide the icon, if the icon is managed at all.
    pub icon_visible: Option<bool>,
    /// Show or hide the title label, if the title is managed at all.
    pub label_visible: Option<bool>,
    /// New text for the title label, if it changes.
    pub label_text: Option<String>,
}

impl FocusedModule {
    /// The module's name.
    pub fn name() -> (n: &'static str)
        ensures
            n@ == "focused"@,
    {
        "focused"
    }

    /// Decides how the widget reacts to one update from the controller.
    /// `icon_loaded` reports whether the icon image for the app id could
    /// be resolved — a presentation concern settled outside.  A cleared
    /// focus hides icon and label; a focused window shows the icon
    /// exactly when its image loaded, and shows the title when titles are
    /// on.  Parts the configuration turns off are never touched.
    pub fn apply_update(&self, data: &FocusUpdate, icon_loaded: bool) -> (d: FocusedDisplay)
        ensures
            data matches Some(p) ==> {
                &&& d.icon_visible == (if self.show_icon {
                    Some(icon_loaded)
                } else {
                    None::<bool>
                })
                &&& d.label_visible == (if self.show_title {
                    Some(true)
                } else {
                    None::<bool>
                })
                &&& if self.show_title {
                    d.label_text matches Some(t) && t@ == p.0@
                } else {
                    d.label_text is None
                }
            },
            data is None ==> {
                &&& d.icon_visible == Some(false)
                &&& d.label_visible == Some(false)
                &&& d.label_text is None
            },
    {
        match data {
            Some(p) => FocusedDisplay {
                icon_visible: if self.show_icon {
                    Some(icon_loaded)
                } else {
                    None
                },
                label_visible: if self.show_title {
                    Some(true)
                } else {
                    None
                },
                label_text: if self.show_title {
                    Some(p.0.clone())
                } else {
                    None
                },
            },
            None => FocusedDisplay {
                icon_visible: Some(false),
                label_visible: Some(false),
                label_text: None,
            },
        }
    }
}

/// Law: whenever a step emits, the emitted update mirrors the transition
/// exactly — a `None` update is emitted if and only if the step moved to
/// the unfocused state, and a `Some` update carries the title and app id
/// of the window whose focused `Update` event caused the step, which is
/// the window the new state holds.
pub proof fn lemma_emission_matches_state(current: Option<u64>, ev: ToplevelEvent)
    ensures
        spec_step_emit(current, ev) matches Some(u) ==> (u is None <==> spec_step_state(
            current,
            ev,
        ) is None),
        spec_step_emit(current, ev) matches Some(Some(p)) ==> ev matches ToplevelEvent::Update(
            info,
        ) && info.focused && spec_step_state(current, ev) == Some(info.id) && p == (
            info.title@,
            info.app_id@,
        ),
{
}

/// The tracker's state after the first `i` events of a run.
pub open spec fn run_state(init: Option<u64>, evs: Seq<ToplevelEvent>, i: int) -> Option<u64>
    decreases i,
{
    if i <= 0 {
        init
    } else {
        spec_step_state(run_state(init, evs, i - 1), evs[i - 1])
    }
}

/// The sequence of emissions a run of events produces, one entry per
/// event: `None` for silence, `Some(update)` for an emission.
pub open spec fn run_emissions(init: Option<u64>, evs: Seq<ToplevelEvent>) -> Seq<
    Option<Option<(Seq<char>, Seq<char>)>>,
> {
    Seq::new(evs.len(), |i: int| spec_step_emit(run_state(init, evs, i), evs[i]))
}

/// Law: over any sequence of focus events, every emitted `None` follows a
/// transition into the unfocused state and every emitted `Some` follows a
/// transition into a focused state.
pub proof fn lemma_run_emissions_match_states(
    init: Option<u64>,
    evs: Seq<ToplevelEvent>,
    i: int,
)
    requires
        0 <= i < evs.len(),
    ensures
        run_emissions(init, evs)[i] matches Some(u) ==> (u is None <==> run_state(
            init,
            evs,
            i + 1,
        ) is None),
{
    lemma_emission_matches_state(run_state(init, evs, i), evs[i]);
}

} // verus!
