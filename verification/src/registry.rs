//! The shared client registry: one lazily-established protocol connection
//! per client kind, process-wide.  The registry sits behind a single
//! exclusive lock held only for the short lookup-or-insert below, so its
//! accesses are serialized; a connection handle is an opaque identifier
//! handed in by the caller that actually opened the connection.

use vstd::prelude::*;

verus! {

/// The kinds of protocol client the bar's modules share.
#[derive(Clone, Copy, PartialEq, Eq, Structural)]
pub enum ClientKind {
    /// The compositor's toplevel registry.
    Wayland,
    /// The window manager's IPC session.
    Sway,
}

/// One slot per client kind; `None` until the first module asks for it.
pub struct ClientRegistry {
    wayland: Option<u64>,
    sway: Option<u64>,
}

impl ClientRegistry {
    /// The connection held for a kind, if one was established.
    pub closed spec fn slot(self, kind: ClientKind) -> Option<u64> {
        match kind {
            ClientKind::Wayland => self.wayland,
            ClientKind::Sway => self.sway,
        }
    }

    /// How many connections the registry holds.
    pub open spec fn conn_count(self) -> int {
        (if self.slot(ClientKind::Wayland) is Some {
            1int
        } else {
            0int
        }) + (if self.slot(ClientKind::Sway) is Some {
            1int
        } else {
            0int
        })
    }

    /// An empty registry: no client is connected yet.
    pub fn new() -> (r: ClientRegistry)
        ensures
            forall|k: ClientKind| r.slot(k) is None,
    {
        ClientRegistry { wayland: None, sway: None }
    }

    /// The lookup-or-insert step run under the registry's lock.  `fresh`
    /// is the connection the caller established in case the slot was
    /// empty: it is adopted only then, so a kind's connection is created
    /// exactly once and every later access returns the memoized handle.
    pub fn client(&mut self, kind: ClientKind, fresh: u64) -> (handle: u64)
        ensures
            *final(self) == spec_client_state(*old(self), kind, fresh),
            handle == spec_client_handle(*old(self), kind, fresh),
            old(self).slot(kind) matches Some(existing) ==> handle == existing && *final(self)
                == *old(self),
            old(self).slot(kind) is None ==> handle == fresh && final(self).slot(kind) == Some(
                fresh,
            ) && final(self).conn_count() == old(self).conn_count() + 1,
            forall|k: ClientKind| k != kind ==> final(self).slot(k) == old(self).slot(k),
    {
        match kind {
            ClientKind::Wayland => {
                match self.wayland {
                    Some(existing) => existing,
                    None => {
                        self.wayland = Some(fresh);
                        fresh
                    },
                }
            },
            ClientKind::Sway => {
                match self.sway {
                    Some(existing) => existing,
                    None => {
                        self.sway = Some(fresh);
                        fresh
                    },
                }
            },
        }
    }
}

/// The registry after a lookup-or-insert for `kind` with fallback `fresh`.
pub closed spec fn spec_client_state(r: ClientRegistry, kind: ClientKind, fresh: u64) -> ClientRegistry {
    if r.slot(kind) is Some {
        r
    } else {
        match kind {
            ClientKind::Wayland => ClientRegistry { wayland: Some(fresh), ..r },
            ClientKind::Sway => ClientRegistry { sway: Some(fresh), ..r },
        }
    }
}

/// The handle that lookup-or-insert returns.
pub open spec fn spec_client_handle(r: ClientRegistry, kind: ClientKind, fresh: u64) -> u64 {
    match r.slot(kind) {
        Some(existing) => existing,
        None => fresh,
    }
}

/// Law: first-time accesses to the same client kind are idempotent.  The
/// registry's lock serializes contending modules, so two accesses run as
/// two consecutive lookup-or-insert steps: whatever connections the two
/// callers prepared, the second access changes nothing, both receive the
/// same handle, and starting from an empty slot exactly one connection is
/// added.
pub proof fn lemma_lazy_init_once(r: ClientRegistry, kind: ClientKind, f1: u64, f2: u64)
    ensures
        spec_client_state(spec_client_state(r, kind, f1), kind, f2) == spec_client_state(
            r,
            kind,
            f1,
        ),
        spec_client_handle(spec_client_state(r, kind, f1), kind, f2) == spec_client_handle(
            r,
            kind,
            f1,
        ),
        r.slot(kind) is None ==> spec_client_state(r, kind, f1).conn_count() == r.conn_count() + 1,
{
}

} // verus!
