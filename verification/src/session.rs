//! The client session and its event-driven transitions.
//!
//! The transport delivers protocol events in an order the client does not
//! control. Each handler here takes the session by exclusive access, mutates
//! it, and returns the batch of requests the transport must perform, in
//! order. Every handler's contract pins both the new session and the batch
//! to a pure specification-level step function, so the ordering invariants
//! of the handshake — the window role is created exactly once, only after
//! both of its prerequisites arrived; the buffer is attached exactly once,
//! only after both the buffer and the first configure arrived — are facts
//! about those step functions, proved in [`crate::laws`].

use crate::protocol::{classify_interface, spec_classify, Action, InterfaceKind};
use vstd::prelude::*;

verus! {

/// Key code that requests quit (the escape key's code).
pub const QUIT_KEY: u32 = 1;

/// Bit set in a seat's capability mask when a keyboard is available.
pub const KEYBOARD_CAPABILITY: u32 = 2;

/// Width, in pixels, of the single buffer the client creates.
pub const INITIAL_WIDTH: u32 = 320;

/// Height, in pixels, of the single buffer the client creates.
pub const INITIAL_HEIGHT: u32 = 240;

/// The client's whole mutable state: the run flag, which protocol objects
/// have been created so far, and whether the first configure was
/// acknowledged. The transport shell owns the actual object handles; a flag
/// here is true exactly when the shell holds the corresponding handle.
#[derive(Clone, Copy, Debug, PartialEq, Eq, Structural)]
pub struct Session {
    /// The main loop keeps running while this is set.
    pub running: bool,
    /// The base surface has been created from the compositor.
    pub has_surface: bool,
    /// The pixel buffer has been created from the shared-memory pool.
    pub has_buffer: bool,
    /// The window-base global has been bound.
    pub has_wm_base: bool,
    /// The window-role pair has been created.
    pub has_window_role: bool,
    /// The first configure event has been acknowledged.
    pub configured: bool,
}

impl Session {
    /// Internal consistency: a window role exists only if both of its
    /// prerequisites do, and a configure can only have been acknowledged on
    /// an existing window role.
    pub open spec fn wf(self) -> bool {
        &&& self.has_window_role ==> (self.has_surface && self.has_wm_base)
        &&& self.configured ==> self.has_window_role
    }

    /// The state at startup: running, nothing created yet.
    pub open spec fn initial() -> Session {
        Session {
            running: true,
            has_surface: false,
            has_buffer: false,
            has_wm_base: false,
            has_window_role: false,
            configured: false,
        }
    }

    /// Creates the startup session.
    pub fn new() -> (s: Session)
        ensures
            s == Session::initial(),
            s.wf(),
    {
        Session {
            running: true,
            has_surface: false,
            has_buffer: false,
            has_wm_base: false,
            has_window_role: false,
            configured: false,
        }
    }

    /// Executable check of [`Session::wf`], for unverified callers that must
    /// establish a handler's precondition before calling it.
    pub fn is_wf(&self) -> (r: bool)
        ensures
            r == self.wf(),
    {
        (!self.has_window_role || (self.has_surface && self.has_wm_base)) && (!self.configured
            || self.has_window_role)
    }
}

/// The requests that create the window role: derive the role pair from the
/// base surface (setting title and application identifier), then perform the
/// mandatory role-establishing commit, which carries no buffer attach.
pub open spec fn role_init_actions() -> Seq<Action> {
    seq![Action::CreateWindowRole, Action::Commit]
}

/// Step function for a global advertisement carrying `name`, an interface
/// name, and `version`: binds a recognized interface, ignores the rest, and
/// fires the next handshake step whose prerequisites just became complete.
pub open spec fn step_global(s: Session, name: u32, interface: Seq<char>, version: u32) -> (
    Session,
    Seq<Action>,
) {
    match spec_classify(interface) {
        InterfaceKind::Compositor => {
            let bound = Session { has_surface: true, ..s };
            if bound.has_wm_base && !bound.has_window_role {
                (
                    Session { has_window_role: true, ..bound },
                    seq![
                        Action::BindCompositor { name, version },
                        Action::CreateSurface,
                        Action::CreateWindowRole,
                        Action::Commit,
                    ],
                )
            } else {
                (bound, seq![Action::BindCompositor { name, version }, Action::CreateSurface])
            }
        },
        InterfaceKind::SharedMemory => {
            let bound = Session { has_buffer: true, ..s };
            if s.configured {
                (
                    bound,
                    seq![
                        Action::BindShm { name, version },
                        Action::CreateBuffer { width: INITIAL_WIDTH, height: INITIAL_HEIGHT },
                        Action::AttachBuffer,
                        Action::Commit,
                    ],
                )
            } else {
                (
                    bound,
                    seq![
                        Action::BindShm { name, version },
                        Action::CreateBuffer { width: INITIAL_WIDTH, height: INITIAL_HEIGHT },
                    ],
                )
            }
        },
        InterfaceKind::Seat => (s, seq![Action::BindSeat { name, version }]),
        InterfaceKind::WindowBase => {
            let bound = Session { has_wm_base: true, ..s };
            if bound.has_surface && !bound.has_window_role {
                (
                    Session { has_window_role: true, ..bound },
                    seq![Action::BindWmBase { name, version }, Action::CreateWindowRole, Action::Commit],
                )
            } else {
                (bound, seq![Action::BindWmBase { name, version }])
            }
        },
        InterfaceKind::Other => (s, Seq::empty()),
    }
}

/// Step function for a keep-alive ping: one pong echoing the serial, no
/// state change.
pub open spec fn step_ping(s: Session, serial: u32) -> (Session, Seq<Action>) {
    (s, seq![Action::Pong { serial }])
}

/// Step function for a configure event: acknowledge the exact serial, record
/// that the surface is configured, and — only if the buffer already exists —
/// attach it and commit.
pub open spec fn step_configure(s: Session, serial: u32) -> (Session, Seq<Action>) {
    let next = Session { configured: true, ..s };
    if s.has_buffer {
        (next, seq![Action::AckConfigure { serial }, Action::AttachBuffer, Action::Commit])
    } else {
        (next, seq![Action::AckConfigure { serial }])
    }
}

/// Step function for a window-close event: clear the run flag, issue
/// nothing.
pub open spec fn step_close(s: Session) -> (Session, Seq<Action>) {
    (Session { running: false, ..s }, Seq::empty())
}

/// Step function for a seat capability advertisement: bind a keyboard when
/// the mask is well-formed and carries the keyboard bit; ignore anything
/// else, malformed masks included.
pub open spec fn step_seat_capabilities(s: Session, known: bool, caps: u32) -> (
    Session,
    Seq<Action>,
) {
    if known && (caps & KEYBOARD_CAPABILITY) != 0 {
        (s, seq![Action::BindKeyboard])
    } else {
        (s, Seq::empty())
    }
}

/// Step function for a key event: always report the key; the quit key also
/// clears the run flag, any other key leaves the session unchanged.
pub open spec fn step_key(s: Session, serial: u32, time: u32, key: u32) -> (Session, Seq<Action>) {
    let next = if key == QUIT_KEY {
        Session { running: false, ..s }
    } else {
        s
    };
    (next, seq![Action::ReportKey { serial, time, key }])
}

/// Any protocol event the session reacts to, as the specification sees it.
pub enum SessionEvent {
    Global { name: u32, interface: Seq<char>, version: u32 },
    Ping { serial: u32 },
    Configure { serial: u32 },
    Close,
    SeatCapabilities { known: bool, caps: u32 },
    Key { serial: u32, time: u32, key: u32 },
}

/// The step function for any event: what the matching handler does.
pub open spec fn step(s: Session, e: SessionEvent) -> (Session, Seq<Action>) {
    match e {
        SessionEvent::Global { name, interface, version } => step_global(
            s,
            name,
            interface,
            version,
        ),
        SessionEvent::Ping { serial } => step_ping(s, serial),
        SessionEvent::Configure { serial } => step_configure(s, serial),
        SessionEvent::Close => step_close(s),
        SessionEvent::SeatCapabilities { known, caps } => step_seat_capabilities(s, known, caps),
        SessionEvent::Key { serial, time, key } => step_key(s, serial, time, key),
    }
}

impl Session {
    /// Creates the window-role pair once both prerequisites are present:
    /// role creation, then the role-establishing commit with no buffer
    /// attached.
    pub fn init_window_role(&mut self) -> (acts: Vec<Action>)
        requires
            old(self).has_surface,
            old(self).has_wm_base,
            !old(self).has_window_role,
        ensures
            *final(self) == (Session { has_window_role: true, ..*old(self) }),
            acts@ == role_init_actions(),
    {
        self.has_window_role = true;
        let mut acts: Vec<Action> = Vec::new();
        acts.push(Action::CreateWindowRole);
        acts.push(Action::Commit);
        proof {
            assert(acts@ =~= role_init_actions());
        }
        acts
    }

    /// Handles one global advertisement from the registry, exactly as
    /// [`step_global`] describes it.
    pub fn handle_registry_global(&mut self, name: u32, interface: &str, version: u32) -> (acts:
        Vec<Action>)
        requires
            old(self).wf(),
        ensures
            *final(self) == step_global(*old(self), name, interface@, version).0,
            acts@ == step_global(*old(self), name, interface@, version).1,
            final(self).wf(),
    {
        let ghost s0 = *self;
        let kind = classify_interface(interface);
        let mut acts: Vec<Action> = Vec::new();
        match kind {
            InterfaceKind::Compositor => {
                acts.push(Action::BindCompositor { name, version });
                acts.push(Action::CreateSurface);
                self.has_surface = true;
                if self.has_wm_base && !self.has_window_role {
                    let mut role_acts = self.init_window_role();
                    acts.append(&mut role_acts);
                }
                proof {
                    assert(acts@ =~= step_global(s0, name, interface@, version).1);
                }
            },
            InterfaceKind::SharedMemory => {
                acts.push(Action::BindShm { name, version });
                acts.push(Action::CreateBuffer { width: INITIAL_WIDTH, height: INITIAL_HEIGHT });
                self.has_buffer = true;
                if self.configured {
                    acts.push(Action::AttachBuffer);
                    acts.push(Action::Commit);
                }
                proof {
                    assert(acts@ =~= step_global(s0, name, interface@, version).1);
                }
            },
            InterfaceKind::Seat => {
                acts.push(Action::BindSeat { name, version });
                proof {
                    assert(acts@ =~= step_global(s0, name, interface@, version).1);
                }
            },
            InterfaceKind::WindowBase => {
                acts.push(Action::BindWmBase { name, version });
                self.has_wm_base = true;
                if self.has_surface && !self.has_window_role {
                    let mut role_acts = self.init_window_role();
                    acts.append(&mut role_acts);
                }
                proof {
                    assert(acts@ =~= step_global(s0, name, interface@, version).1);
                }
            },
            InterfaceKind::Other => {
                proof {
                    assert(acts@ =~= step_global(s0, name, interface@, version).1);
                }
            },
        }
        acts
    }

    /// Answers a keep-alive ping from the window base with one pong carrying
    /// the identical serial, before any further event is handled.
    pub fn handle_wm_base_ping(&mut self, serial: u32) -> (acts: Vec<Action>)
        ensures
            *final(self) == step_ping(*old(self), serial).0,
            acts@ == step_ping(*old(self), serial).1,
    {
        let mut acts: Vec<Action> = Vec::new();
        acts.push(Action::Pong { serial });
        proof {
            assert(acts@ =~= step_ping(*self, serial).1);
        }
        acts
    }

    /// Handles a configure event on the window role: acknowledges the exact
    /// serial it carried, records the surface as configured, and attaches
    /// and commits the buffer if — and only if — it already exists. A
    /// configure can only arrive on an existing window role.
    pub fn handle_surface_configure(&mut self, serial: u32) -> (acts: Vec<Action>)
        requires
            old(self).wf(),
            old(self).has_window_role,
        ensures
            *final(self) == step_configure(*old(self), serial).0,
            acts@ == step_configure(*old(self), serial).1,
            final(self).wf(),
    {
        let ghost s0 = *self;
        let mut acts: Vec<Action> = Vec::new();
        acts.push(Action::AckConfigure { serial });
        self.configured = true;
        if self.has_buffer {
            acts.push(Action::AttachBuffer);
            acts.push(Action::Commit);
        }
        proof {
            assert(acts@ =~= step_configure(s0, serial).1);
        }
        acts
    }

    /// Handles a window-close event: clears the run flag so the main loop
    /// exits on its next check, and issues no further request.
    pub fn handle_toplevel_close(&mut self) -> (acts: Vec<Action>)
        ensures
            *final(self) == step_close(*old(self)).0,
            acts@ == step_close(*old(self)).1,
            !final(self).running,
    {
        self.running = false;
        let acts: Vec<Action> = Vec::new();
        proof {
            assert(acts@ =~= step_close(*old(self)).1);
        }
        acts
    }

    /// Handles a seat capability advertisement. `known` is false for a
    /// malformed mask, which is ignored rather than treated as fatal; a
    /// well-formed mask with the keyboard bit set binds a keyboard.
    pub fn handle_seat_capabilities(&mut self, known: bool, caps: u32) -> (acts: Vec<Action>)
        ensures
            *final(self) == step_seat_capabilities(*old(self), known, caps).0,
            acts@ == step_seat_capabilities(*old(self), known, caps).1,
    {
        let mut acts: Vec<Action> = Vec::new();
        if known && (caps & KEYBOARD_CAPABILITY) != 0 {
            acts.push(Action::BindKeyboard);
        }
        proof {
            assert(acts@ =~= step_seat_capabilities(*old(self), known, caps).1);
        }
        acts
    }

    /// Handles a key event from the bound keyboard: reports the key, and
    /// clears the run flag exactly when the key is [`QUIT_KEY`].
    pub fn handle_keyboard_key(&mut self, serial: u32, time: u32, key: u32) -> (acts: Vec<Action>)
        ensures
            *final(self) == step_key(*old(self), serial, time, key).0,
            acts@ == step_key(*old(self), serial, time, key).1,
    {
        if key == QUIT_KEY {
            self.running = false;
        }
        let mut acts: Vec<Action> = Vec::new();
        acts.push(Action::ReportKey { serial, time, key });
        proof {
            assert(acts@ =~= step_key(*old(self), serial, time, key).1);
        }
        acts
    }
}

} // verus!
