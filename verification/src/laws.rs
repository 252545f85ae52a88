//! The ordering guarantees of the session state machine, stated and proved
//! over the step functions of [`crate::session`].
//!
//! The protocol delivers the two halves of each handshake in an order the
//! client cannot choose: the compositor and window-base globals arrive in
//! either order, and so do buffer readiness and the first configure. The
//! laws here show that the handlers resolve both races with idempotent
//! "both ready?" guards: each guarded request is issued exactly once, only
//! after both of its prerequisites hold, whichever arrived first.

use crate::protocol::{
    compositor_interface, shm_interface, spec_classify, wm_base_interface, Action, InterfaceKind,
};
use crate::session::{
    step, step_close, step_configure, step_global, step_key, step_ping, step_seat_capabilities,
    Session, SessionEvent, INITIAL_HEIGHT, INITIAL_WIDTH, KEYBOARD_CAPABILITY, QUIT_KEY,
};
use vstd::prelude::*;

verus! {

/// Holds of the window-role creation request.
pub open spec fn role_creation_pred() -> spec_fn(Action) -> bool {
    |a: Action| a is CreateWindowRole
}

/// Holds of the buffer-attach request.
pub open spec fn attach_pred() -> spec_fn(Action) -> bool {
    |a: Action| a is AttachBuffer
}

/// Holds of a configure acknowledgment.
pub open spec fn ack_pred() -> spec_fn(Action) -> bool {
    |a: Action| a is AckConfigure
}

/// How many window-role creation requests a batch holds.
pub open spec fn role_creations(acts: Seq<Action>) -> nat {
    acts.filter(role_creation_pred()).len()
}

/// How many buffer-attach requests a batch holds.
pub open spec fn buffer_attaches(acts: Seq<Action>) -> nat {
    acts.filter(attach_pred()).len()
}

/// How many configure acknowledgments a batch holds.
pub open spec fn configure_acks(acts: Seq<Action>) -> nat {
    acts.filter(ack_pred()).len()
}

/// 1 when the predicate holds of the action, else 0.
spec fn ind(p: spec_fn(Action) -> bool, a: Action) -> int {
    if p(a) {
        1
    } else {
        0
    }
}

proof fn lemma_count0(p: spec_fn(Action) -> bool)
    ensures
        Seq::<Action>::empty().filter(p).len() == 0,
{
    broadcast use Seq::lemma_filter_len;

    assert(Seq::<Action>::empty().filter(p).len() <= 0);
}

proof fn lemma_count1(p: spec_fn(Action) -> bool, a0: Action)
    ensures
        (seq![a0]).filter(p).len() == ind(p, a0),
{
    broadcast use Seq::lemma_filter_push;

    lemma_count0(p);
}

proof fn lemma_count2(p: spec_fn(Action) -> bool, a0: Action, a1: Action)
    ensures
        (seq![a0, a1]).filter(p).len() == ind(p, a0) + ind(p, a1),
{
    broadcast use Seq::lemma_filter_push;

    lemma_count0(p);
    assert(seq![a0, a1] =~= Seq::<Action>::empty().push(a0).push(a1));
}

proof fn lemma_count3(p: spec_fn(Action) -> bool, a0: Action, a1: Action, a2: Action)
    ensures
        (seq![a0, a1, a2]).filter(p).len() == ind(p, a0) + ind(p, a1) + ind(p, a2),
{
    broadcast use Seq::lemma_filter_push;

    lemma_count0(p);
    assert(seq![a0, a1, a2] =~= Seq::<Action>::empty().push(a0).push(a1).push(a2));
}

proof fn lemma_count4(p: spec_fn(Action) -> bool, a0: Action, a1: Action, a2: Action, a3: Action)
    ensures
        (seq![a0, a1, a2, a3]).filter(p).len() == ind(p, a0) + ind(p, a1) + ind(p, a2) + ind(
            p,
            a3,
        ),
{
    broadcast use Seq::lemma_filter_push;

    lemma_count0(p);
    assert(seq![a0, a1, a2, a3] =~= Seq::<Action>::empty().push(a0).push(a1).push(a2).push(a3));
}

/// The four recognized interface names are pairwise distinct.
proof fn lemma_interfaces_distinct()
    ensures
        compositor_interface() != shm_interface(),
        compositor_interface() != wm_base_interface(),
        shm_interface() != wm_base_interface(),
        "wl_seat"@ != wm_base_interface(),
        "wl_seat"@ != compositor_interface(),
        "wl_seat"@ != shm_interface(),
{
    reveal_strlit("wl_compositor");
    reveal_strlit("wl_shm");
    reveal_strlit("wl_seat");
    reveal_strlit("xdg_wm_base");
    // The four names have pairwise different lengths.
    assert(compositor_interface().len() == 13);
    assert(shm_interface().len() == 6);
    assert("wl_seat"@.len() == 7);
    assert(wm_base_interface().len() == 11);
}

/// The window-role pair is created exactly once, whichever of the
/// compositor and window-base globals arrives first: the first arrival
/// creates no role, the second creates exactly one, and the batches that
/// accompany role creation carry no buffer attach — the role-establishing
/// commit shows no content.
pub proof fn lemma_role_created_once_both_orders(
    s0: Session,
    n1: u32,
    v1: u32,
    n2: u32,
    v2: u32,
    compositor_first: bool,
)
    requires
        s0.wf(),
        !s0.has_surface,
        !s0.has_wm_base,
        !s0.has_window_role,
    ensures
        ({
            let i1 = if compositor_first {
                compositor_interface()
            } else {
                wm_base_interface()
            };
            let i2 = if compositor_first {
                wm_base_interface()
            } else {
                compositor_interface()
            };
            let first = step_global(s0, n1, i1, v1);
            let second = step_global(first.0, n2, i2, v2);
            &&& role_creations(first.1) == 0
            &&& !first.0.has_window_role
            &&& role_creations(second.1) == 1
            &&& second.0.has_window_role
            &&& second.0.has_surface
            &&& second.0.has_wm_base
            &&& buffer_attaches(first.1) == 0
            &&& buffer_attaches(second.1) == 0
            &&& first.0.wf()
            &&& second.0.wf()
        }),
{
    lemma_interfaces_distinct();
    if compositor_first {
        let first = step_global(s0, n1, compositor_interface(), v1);
        let second = step_global(first.0, n2, wm_base_interface(), v2);
        lemma_count2(
            role_creation_pred(),
            Action::BindCompositor { name: n1, version: v1 },
            Action::CreateSurface,
        );
        lemma_count2(
            attach_pred(),
            Action::BindCompositor { name: n1, version: v1 },
            Action::CreateSurface,
        );
        lemma_count3(
            role_creation_pred(),
            Action::BindWmBase { name: n2, version: v2 },
            Action::CreateWindowRole,
            Action::Commit,
        );
        lemma_count3(
            attach_pred(),
            Action::BindWmBase { name: n2, version: v2 },
            Action::CreateWindowRole,
            Action::Commit,
        );
    } else {
        let first = step_global(s0, n1, wm_base_interface(), v1);
        let second = step_global(first.0, n2, compositor_interface(), v2);
        lemma_count1(role_creation_pred(), Action::BindWmBase { name: n1, version: v1 });
        lemma_count1(attach_pred(), Action::BindWmBase { name: n1, version: v1 });
        lemma_count4(
            role_creation_pred(),
            Action::BindCompositor { name: n2, version: v2 },
            Action::CreateSurface,
            Action::CreateWindowRole,
            Action::Commit,
        );
        lemma_count4(
            attach_pred(),
            Action::BindCompositor { name: n2, version: v2 },
            Action::CreateSurface,
            Action::CreateWindowRole,
            Action::Commit,
        );
    }
}

/// The buffer is attached and committed exactly once, whichever of buffer
/// readiness (the shared-memory global) and the first configure arrives
/// first: the first arrival attaches nothing, the second attaches exactly
/// once, and only when both conditions hold.
pub proof fn lemma_attach_commit_once_both_orders(
    s0: Session,
    name: u32,
    version: u32,
    serial: u32,
    buffer_first: bool,
)
    requires
        s0.wf(),
        s0.has_window_role,
        !s0.has_buffer,
        !s0.configured,
    ensures
        ({
            let first = if buffer_first {
                step_global(s0, name, shm_interface(), version)
            } else {
                step_configure(s0, serial)
            };
            let second = if buffer_first {
                step_configure(first.0, serial)
            } else {
                step_global(first.0, name, shm_interface(), version)
            };
            &&& buffer_attaches(first.1) == 0
            &&& buffer_attaches(second.1) == 1
            &&& second.0.has_buffer
            &&& second.0.configured
            &&& first.0.wf()
            &&& second.0.wf()
        }),
{
    lemma_interfaces_distinct();
    let shm_bind = Action::BindShm { name, version };
    let create = Action::CreateBuffer {
        width: INITIAL_WIDTH,
        height: INITIAL_HEIGHT,
    };
    if buffer_first {
        lemma_count2(attach_pred(), shm_bind, create);
        lemma_count3(
            attach_pred(),
            Action::AckConfigure { serial },
            Action::AttachBuffer,
            Action::Commit,
        );
    } else {
        lemma_count1(attach_pred(), Action::AckConfigure { serial });
        lemma_count4(attach_pred(), shm_bind, create, Action::AttachBuffer, Action::Commit);
    }
}

/// Every configure is acknowledged with the identical serial it carried:
/// the batch opens with that acknowledgment, holds no other, and every
/// acknowledgment in it echoes the incoming serial.
pub proof fn lemma_configure_ack_echoes_serial(s: Session, serial: u32)
    ensures
        ({
            let acts = step_configure(s, serial).1;
            &&& configure_acks(acts) == 1
            &&& acts[0] == (Action::AckConfigure { serial })
            &&& forall|i: int|
                0 <= i < acts.len() && acts[i] is AckConfigure ==> acts[i] == (Action::AckConfigure {
                    serial,
                })
        }),
{
    if s.has_buffer {
        lemma_count3(
            ack_pred(),
            Action::AckConfigure { serial },
            Action::AttachBuffer,
            Action::Commit,
        );
    } else {
        lemma_count1(ack_pred(), Action::AckConfigure { serial });
    }
}

/// Every ping is answered by exactly one pong carrying the same serial,
/// within the same step — before any later event is handled — and with no
/// state change and no other request.
pub proof fn lemma_ping_answered_with_same_serial(s: Session, serial: u32)
    ensures
        step_ping(s, serial).0 == s,
        step_ping(s, serial).1 =~= seq![Action::Pong { serial }],
{
}

/// A window-close event clears the run flag — so the main loop exits on its
/// next check — issues no request, and touches nothing else.
pub proof fn lemma_close_stops_loop(s: Session)
    ensures
        !step_close(s).0.running,
        step_close(s).0 == (Session { running: false, ..s }),
        step_close(s).1 =~= Seq::<Action>::empty(),
{
}

/// A key event always produces exactly the report of that key and nothing
/// else; the quit key clears the run flag, and any other key leaves the
/// whole session unchanged.
pub proof fn lemma_key_quit_or_report(s: Session, serial: u32, time: u32, key: u32)
    ensures
        step_key(s, serial, time, key).1 =~= seq![Action::ReportKey { serial, time, key }],
        key == QUIT_KEY ==> step_key(s, serial, time, key).0 == (Session { running: false, ..s }),
        key != QUIT_KEY ==> step_key(s, serial, time, key).0 == s,
{
}

/// Along any sequence of events the window role is created exactly once:
/// every step preserves well-formedness, never destroys an existing role,
/// and emits the role-creation request exactly when it is the step whose
/// transition brings the role into existence — which can only leave the
/// session with both prerequisites present. (A configure can only arrive
/// on an existing window role.)
pub proof fn lemma_role_creation_marks_the_transition(s: Session, e: SessionEvent)
    requires
        s.wf(),
        e is Configure ==> s.has_window_role,
    ensures
        step(s, e).0.wf(),
        s.has_window_role ==> step(s, e).0.has_window_role,
        role_creations(step(s, e).1) == (if !s.has_window_role && step(s, e).0.has_window_role {
            1int
        } else {
            0int
        }),
{
    let p = role_creation_pred();
    match e {
        SessionEvent::Global { name, interface, version } => {
            match spec_classify(interface) {
                InterfaceKind::Compositor => {
                    if s.has_wm_base && !s.has_window_role {
                        lemma_count4(
                            p,
                            Action::BindCompositor { name, version },
                            Action::CreateSurface,
                            Action::CreateWindowRole,
                            Action::Commit,
                        );
                    } else {
                        lemma_count2(
                            p,
                            Action::BindCompositor { name, version },
                            Action::CreateSurface,
                        );
                    }
                },
                InterfaceKind::SharedMemory => {
                    if s.configured {
                        lemma_count4(
                            p,
                            Action::BindShm { name, version },
                            Action::CreateBuffer {
                                width: INITIAL_WIDTH,
                                height: INITIAL_HEIGHT,
                            },
                            Action::AttachBuffer,
                            Action::Commit,
                        );
                    } else {
                        lemma_count2(
                            p,
                            Action::BindShm { name, version },
                            Action::CreateBuffer {
                                width: INITIAL_WIDTH,
                                height: INITIAL_HEIGHT,
                            },
                        );
                    }
                },
                InterfaceKind::Seat => {
                    lemma_count1(p, Action::BindSeat { name, version });
                },
                InterfaceKind::WindowBase => {
                    if s.has_surface && !s.has_window_role {
                        lemma_count3(
                            p,
                            Action::BindWmBase { name, version },
                            Action::CreateWindowRole,
                            Action::Commit,
                        );
                    } else {
                        lemma_count1(p, Action::BindWmBase { name, version });
                    }
                },
                InterfaceKind::Other => {
                    lemma_count0(p);
                },
            }
        },
        SessionEvent::Ping { serial } => {
            lemma_count1(p, Action::Pong { serial });
        },
        SessionEvent::Configure { serial } => {
            if s.has_buffer {
                lemma_count3(
                    p,
                    Action::AckConfigure { serial },
                    Action::AttachBuffer,
                    Action::Commit,
                );
            } else {
                lemma_count1(p, Action::AckConfigure { serial });
            }
        },
        SessionEvent::Close => {
            lemma_count0(p);
        },
        SessionEvent::SeatCapabilities { known, caps } => {
            if known && caps & KEYBOARD_CAPABILITY != 0 {
                lemma_count1(p, Action::BindKeyboard);
            } else {
                lemma_count0(p);
            }
        },
        SessionEvent::Key { serial, time, key } => {
            lemma_count1(p, Action::ReportKey { serial, time, key });
        },
    }
}

/// An ignored capability mask — malformed, or without the keyboard bit —
/// binds nothing and changes nothing; a well-formed mask with the keyboard
/// bit binds exactly one keyboard.
pub proof fn lemma_seat_capabilities_guarded(s: Session, known: bool, caps: u32)
    ensures
        step_seat_capabilities(s, known, caps).0 == s,
        (known && caps & KEYBOARD_CAPABILITY != 0) ==> step_seat_capabilities(
            s,
            known,
            caps,
        ).1 =~= seq![Action::BindKeyboard],
        !(known && caps & KEYBOARD_CAPABILITY != 0) ==> step_seat_capabilities(
            s,
            known,
            caps,
        ).1 =~= Seq::<Action>::empty(),
{
}

} // verus!
