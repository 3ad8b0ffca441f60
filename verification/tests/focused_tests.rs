use ironbar_core::focused::{FocusTracker, FocusUpdate, FocusedModule, Toplevel, ToplevelEvent};

fn window(id: u64, title: &str, app_id: &str, focused: bool) -> Toplevel {
    Toplevel { id, title: title.to_owned(), app_id: app_id.to_owned(), focused }
}

#[test]
fn initial_scan_finds_focused_window() {
    let handles = vec![
        window(1, "Editor", "editor", false),
        window(2, "Browser", "browser", true),
        window(3, "Terminal", "term", false),
    ];
    let (tracker, update) = FocusTracker::init(&handles);
    assert_eq!(update, Some(("Browser".to_owned(), "browser".to_owned())));
    let mut t = tracker;
    // The tracker holds window 2: a stale unfocus of window 1 is ignored.
    let emit = t.handle_event(&ToplevelEvent::Update(window(1, "Editor", "editor", false)));
    assert_eq!(emit, None);
}

#[test]
fn initial_scan_without_focus_emits_none() {
    let handles = vec![window(1, "Editor", "editor", false)];
    let (_, update) = FocusTracker::init(&handles);
    assert_eq!(update, None);
}

#[test]
fn initial_scan_of_empty_snapshot_emits_none() {
    let handles: Vec<Toplevel> = Vec::new();
    let (_, update) = FocusTracker::init(&handles);
    assert_eq!(update, None);
}

#[test]
fn initial_scan_takes_first_of_equal_candidates() {
    let handles = vec![
        window(5, "First", "one", true),
        window(6, "Second", "two", true),
    ];
    let (_, update) = FocusTracker::init(&handles);
    assert_eq!(update, Some(("First".to_owned(), "one".to_owned())));
}

#[test]
fn focus_switch_ignores_stale_unfocus() {
    // New(A), Update(A, focused), New(B), Update(B, focused),
    // Update(A, unfocused): emits Some(A), Some(B), and the stale
    // unfocus of A is ignored since B now holds the focus.
    let mut t = FocusTracker::new();
    let mut emissions: Vec<FocusUpdate> = Vec::new();
    let events = vec![
        ToplevelEvent::New(window(1, "A", "a", false)),
        ToplevelEvent::Update(window(1, "A", "a", true)),
        ToplevelEvent::New(window(2, "B", "b", false)),
        ToplevelEvent::Update(window(2, "B", "b", true)),
        ToplevelEvent::Update(window(1, "A", "a", false)),
    ];
    for ev in &events {
        if let Some(update) = t.handle_event(ev) {
            emissions.push(update);
        }
    }
    assert_eq!(
        emissions,
        vec![
            Some(("A".to_owned(), "a".to_owned())),
            Some(("B".to_owned(), "b".to_owned())),
        ]
    );
}

#[test]
fn batch_run_collects_one_entry_per_event() {
    let mut t = FocusTracker::new();
    let events = vec![
        ToplevelEvent::New(window(1, "A", "a", false)),
        ToplevelEvent::Update(window(1, "A", "a", true)),
        ToplevelEvent::Remove(window(1, "A", "a", true)),
    ];
    let emits = t.run(&events);
    assert_eq!(
        emits,
        vec![
            None,
            Some(Some(("A".to_owned(), "a".to_owned()))),
            Some(None),
        ]
    );
}

#[test]
fn remove_clears_focus_only_for_focused_window() {
    let mut t = FocusTracker::new();
    t.handle_event(&ToplevelEvent::Update(window(1, "A", "a", true)));
    // Removing the focused window clears the widget.
    let emit = t.handle_event(&ToplevelEvent::Remove(window(1, "A", "a", true)));
    assert_eq!(emit, Some(None));
    // Removing an unfocused window emits nothing.
    let mut t2 = FocusTracker::new();
    t2.handle_event(&ToplevelEvent::Update(window(1, "A", "a", true)));
    let emit2 = t2.handle_event(&ToplevelEvent::Remove(window(2, "B", "b", false)));
    assert_eq!(emit2, None);
}

#[test]
fn unfocus_for_unknown_window_is_ignored() {
    // With no focus held, an unfocused update emits nothing, whatever its id.
    let mut t = FocusTracker::new();
    let emit = t.handle_event(&ToplevelEvent::Update(window(0, "Z", "z", false)));
    assert_eq!(emit, None);
}

#[test]
fn default_configuration() {
    let m = FocusedModule::default();
    assert!(m.show_icon);
    assert!(m.show_title);
    assert_eq!(m.icon_size, 32);
    assert_eq!(FocusedModule::name(), "focused");
}

#[test]
fn apply_update_shows_and_hides() {
    let m = FocusedModule::default();
    let d = m.apply_update(&Some(("Editor".to_owned(), "editor".to_owned())), true);
    assert_eq!(d.icon_visible, Some(true));
    assert_eq!(d.label_visible, Some(true));
    assert_eq!(d.label_text, Some("Editor".to_owned()));

    let d2 = m.apply_update(&Some(("Editor".to_owned(), "editor".to_owned())), false);
    assert_eq!(d2.icon_visible, Some(false));
    assert_eq!(d2.label_visible, Some(true));

    let d3 = m.apply_update(&None, true);
    assert_eq!(d3.icon_visible, Some(false));
    assert_eq!(d3.label_visible, Some(false));
    assert_eq!(d3.label_text, None);
}

#[test]
fn apply_update_leaves_disabled_parts_alone() {
    let m = FocusedModule { show_icon: false, show_title: false, icon_size: 16 };
    let d = m.apply_update(&Some(("Editor".to_owned(), "editor".to_owned())), true);
    assert_eq!(d.icon_visible, None);
    assert_eq!(d.label_visible, None);
    assert_eq!(d.label_text, None);
}
