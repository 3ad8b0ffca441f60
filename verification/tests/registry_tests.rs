use ironbar_core::registry::{ClientKind, ClientRegistry};

#[test]
fn first_access_adopts_the_fresh_connection() {
    let mut r = ClientRegistry::new();
    let h = r.client(ClientKind::Wayland, 100);
    assert_eq!(h, 100);
}

#[test]
fn later_accesses_reuse_the_first_connection() {
    // Two modules racing for the same client kind run their
    // lookup-or-insert steps one after the other under the registry's
    // lock: only the first connection is kept.
    let mut r = ClientRegistry::new();
    let first = r.client(ClientKind::Sway, 7);
    let second = r.client(ClientKind::Sway, 8);
    let third = r.client(ClientKind::Sway, 9);
    assert_eq!(first, 7);
    assert_eq!(second, 7);
    assert_eq!(third, 7);
}

#[test]
fn kinds_are_independent() {
    let mut r = ClientRegistry::new();
    let wl = r.client(ClientKind::Wayland, 1);
    let sway = r.client(ClientKind::Sway, 2);
    assert_eq!(wl, 1);
    assert_eq!(sway, 2);
    // Each kind still answers with its own connection.
    assert_eq!(r.client(ClientKind::Wayland, 3), 1);
    assert_eq!(r.client(ClientKind::Sway, 4), 2);
}
