use waywin::protocol::Action;
use waywin::session::{Session, INITIAL_HEIGHT, INITIAL_WIDTH, KEYBOARD_CAPABILITY, QUIT_KEY};

fn count_role_creations(acts: &[Action]) -> usize {
    acts.iter().filter(|a| matches!(a, Action::CreateWindowRole)).count()
}

fn count_attaches(acts: &[Action]) -> usize {
    acts.iter().filter(|a| matches!(a, Action::AttachBuffer)).count()
}

#[test]
fn new_session_is_initial() {
    let s = Session::new();
    assert!(s.running);
    assert!(!s.has_surface);
    assert!(!s.has_buffer);
    assert!(!s.has_wm_base);
    assert!(!s.has_window_role);
    assert!(!s.configured);
    assert!(s.is_wf());
}

#[test]
fn seat_global_binds_only() {
    let mut s = Session::new();
    let acts = s.handle_registry_global(9, "wl_seat", 5);
    assert_eq!(acts, vec![Action::BindSeat { name: 9, version: 5 }]);
    assert_eq!(s, Session::new());
}

#[test]
fn unknown_global_is_silently_ignored() {
    let mut s = Session::new();
    let acts = s.handle_registry_global(4, "wl_output", 3);
    assert!(acts.is_empty());
    assert_eq!(s, Session::new());
}

#[test]
fn compositor_then_wm_base_creates_role_once() {
    let mut s = Session::new();
    let first = s.handle_registry_global(1, "wl_compositor", 4);
    assert_eq!(
        first,
        vec![Action::BindCompositor { name: 1, version: 4 }, Action::CreateSurface]
    );
    assert!(s.has_surface && !s.has_window_role);
    let second = s.handle_registry_global(2, "xdg_wm_base", 3);
    assert_eq!(
        second,
        vec![
            Action::BindWmBase { name: 2, version: 3 },
            Action::CreateWindowRole,
            Action::Commit
        ]
    );
    assert!(s.has_wm_base && s.has_window_role);
    assert_eq!(count_role_creations(&first) + count_role_creations(&second), 1);
    // The commit that establishes the role carries no buffer attach.
    assert_eq!(count_attaches(&first) + count_attaches(&second), 0);
}

#[test]
fn wm_base_then_compositor_creates_role_once() {
    let mut s = Session::new();
    let first = s.handle_registry_global(2, "xdg_wm_base", 3);
    assert_eq!(first, vec![Action::BindWmBase { name: 2, version: 3 }]);
    assert!(s.has_wm_base && !s.has_window_role);
    let second = s.handle_registry_global(1, "wl_compositor", 4);
    assert_eq!(
        second,
        vec![
            Action::BindCompositor { name: 1, version: 4 },
            Action::CreateSurface,
            Action::CreateWindowRole,
            Action::Commit
        ]
    );
    assert!(s.has_surface && s.has_window_role);
    assert_eq!(count_role_creations(&first) + count_role_creations(&second), 1);
    assert_eq!(count_attaches(&first) + count_attaches(&second), 0);
}

fn session_with_role() -> Session {
    let mut s = Session::new();
    s.handle_registry_global(1, "wl_compositor", 4);
    s.handle_registry_global(2, "xdg_wm_base", 3);
    s
}

#[test]
fn buffer_then_configure_attaches_once() {
    let mut s = session_with_role();
    let first = s.handle_registry_global(3, "wl_shm", 1);
    assert_eq!(
        first,
        vec![
            Action::BindShm { name: 3, version: 1 },
            Action::CreateBuffer { width: INITIAL_WIDTH, height: INITIAL_HEIGHT }
        ]
    );
    assert!(s.has_buffer && !s.configured);
    let second = s.handle_surface_configure(70);
    assert_eq!(
        second,
        vec![
            Action::AckConfigure { serial: 70 },
            Action::AttachBuffer,
            Action::Commit
        ]
    );
    assert!(s.configured);
    assert_eq!(count_attaches(&first) + count_attaches(&second), 1);
}

#[test]
fn configure_then_buffer_attaches_once() {
    let mut s = session_with_role();
    let first = s.handle_surface_configure(70);
    assert_eq!(first, vec![Action::AckConfigure { serial: 70 }]);
    assert!(s.configured && !s.has_buffer);
    let second = s.handle_registry_global(3, "wl_shm", 1);
    assert_eq!(
        second,
        vec![
            Action::BindShm { name: 3, version: 1 },
            Action::CreateBuffer { width: INITIAL_WIDTH, height: INITIAL_HEIGHT },
            Action::AttachBuffer,
            Action::Commit
        ]
    );
    assert!(s.has_buffer);
    assert_eq!(count_attaches(&first) + count_attaches(&second), 1);
}

#[test]
fn configure_ack_echoes_identical_serial() {
    let mut s = session_with_role();
    let acts = s.handle_surface_configure(987654321);
    assert_eq!(acts[0], Action::AckConfigure { serial: 987654321 });
    let repeat = s.handle_surface_configure(7);
    assert_eq!(repeat[0], Action::AckConfigure { serial: 7 });
}

#[test]
fn reconfigure_reruns_ack_and_attach_without_regressing() {
    let mut s = session_with_role();
    s.handle_registry_global(3, "wl_shm", 1);
    s.handle_surface_configure(1);
    let again = s.handle_surface_configure(2);
    assert_eq!(
        again,
        vec![
            Action::AckConfigure { serial: 2 },
            Action::AttachBuffer,
            Action::Commit
        ]
    );
    assert!(s.configured && s.has_window_role && s.has_buffer);
}

#[test]
fn ping_answered_with_one_pong_of_same_serial() {
    let mut s = Session::new();
    let acts = s.handle_wm_base_ping(424242);
    assert_eq!(acts, vec![Action::Pong { serial: 424242 }]);
    assert_eq!(s, Session::new());
}

#[test]
fn close_clears_running_and_issues_nothing() {
    let mut s = session_with_role();
    let before = s;
    let acts = s.handle_toplevel_close();
    assert!(acts.is_empty());
    assert!(!s.running);
    assert_eq!(Session { running: true, ..s }, before);
}

#[test]
fn quit_key_clears_running() {
    let mut s = Session::new();
    let acts = s.handle_keyboard_key(10, 20, QUIT_KEY);
    assert_eq!(
        acts,
        vec![Action::ReportKey { serial: 10, time: 20, key: QUIT_KEY }]
    );
    assert!(!s.running);
}

#[test]
fn other_key_only_reports() {
    let mut s = Session::new();
    let acts = s.handle_keyboard_key(10, 20, 57);
    assert_eq!(acts, vec![Action::ReportKey { serial: 10, time: 20, key: 57 }]);
    assert!(s.running);
    assert_eq!(s, Session::new());
}

#[test]
fn keyboard_capability_binds_keyboard() {
    let mut s = Session::new();
    let acts = s.handle_seat_capabilities(true, KEYBOARD_CAPABILITY | 1);
    assert_eq!(acts, vec![Action::BindKeyboard]);
    assert_eq!(s, Session::new());
}

#[test]
fn pointer_only_capability_binds_nothing() {
    let mut s = Session::new();
    let acts = s.handle_seat_capabilities(true, 1);
    assert!(acts.is_empty());
}

#[test]
fn malformed_capability_mask_is_ignored() {
    let mut s = Session::new();
    let acts = s.handle_seat_capabilities(false, KEYBOARD_CAPABILITY);
    assert!(acts.is_empty());
    assert_eq!(s, Session::new());
}

#[test]
fn scenario_seat_shm_compositor_wm_base() {
    let mut s = Session::new();
    let mut all: Vec<Action> = Vec::new();

    all.extend(s.handle_registry_global(10, "wl_seat", 5));
    // No capability event has arrived, so the keyboard is not yet bound.
    assert!(!all.contains(&Action::BindKeyboard));

    all.extend(s.handle_registry_global(11, "wl_shm", 1));
    // The buffer exists before the window role does.
    assert!(s.has_buffer && !s.has_window_role);

    all.extend(s.handle_registry_global(12, "wl_compositor", 4));
    // Still no role: the window base has not arrived.
    assert!(s.has_surface && !s.has_window_role);

    all.extend(s.handle_registry_global(13, "xdg_wm_base", 3));
    // Role creation happens right after the window base arrives.
    assert!(s.has_window_role);
    assert_eq!(count_role_creations(&all), 1);

    // The attach+commit is deferred until the configure arrives, then
    // fires exactly once.
    assert_eq!(count_attaches(&all), 0);
    let configure = s.handle_surface_configure(99);
    assert_eq!(count_attaches(&configure), 1);
    assert!(s.configured);
}
