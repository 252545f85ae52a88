//! Protocol vocabulary: the requests the client can issue and the global
//! interfaces it recognizes.
//!
//! The transport delivers events; the session logic answers with a batch of
//! [`Action`] values, in order. An unverified shell performs each action as
//! the corresponding protocol request. Keeping the requests as plain data
//! lets every decision about *which* requests to issue, and in *what* order,
//! be stated and proved here.

use vstd::prelude::*;
use vstd::string::StrSliceExecFns;

verus! {

/// A protocol request for the transport shell to perform, in the order the
/// session logic emits them.
#[derive(Clone, Copy, Debug, PartialEq, Eq, Structural)]
pub enum Action {
    /// Bind the compositor global advertised under `name`.
    BindCompositor { name: u32, version: u32 },
    /// Create the base surface from the bound compositor.
    CreateSurface,
    /// Bind the shared-memory global advertised under `name`.
    BindShm { name: u32, version: u32 },
    /// Allocate a backing store of `width * height` pixels, fill it with the
    /// generated content, create a pool sized exactly to it, and carve one
    /// buffer at offset 0 with stride `width * 4`.
    CreateBuffer { width: u32, height: u32 },
    /// Bind the seat global advertised under `name`.
    BindSeat { name: u32, version: u32 },
    /// Bind the window-base global advertised under `name`.
    BindWmBase { name: u32, version: u32 },
    /// Create the window-role pair from the base surface and the window
    /// base, and set the title and the application identifier.
    CreateWindowRole,
    /// Acknowledge a configure event, echoing the serial it carried.
    AckConfigure { serial: u32 },
    /// Attach the stored buffer to the base surface at the origin.
    AttachBuffer,
    /// Commit the base surface.
    Commit,
    /// Answer a keep-alive ping, echoing the serial it carried.
    Pong { serial: u32 },
    /// Obtain a keyboard from the bound seat.
    BindKeyboard,
    /// Report a key event upward as a loggable occurrence.
    ReportKey { serial: u32, time: u32, key: u32 },
}

/// The global interfaces the client recognizes; everything else is ignored.
#[derive(Clone, Copy, Debug, PartialEq, Eq, Structural)]
pub enum InterfaceKind {
    Compositor,
    SharedMemory,
    Seat,
    WindowBase,
    Other,
}

/// Advertised name of the compositor global.
pub open spec fn compositor_interface() -> Seq<char> {
    "wl_compositor"@
}

/// Advertised name of the shared-memory global.
pub open spec fn shm_interface() -> Seq<char> {
    "wl_shm"@
}

/// Advertised name of the seat global.
pub open spec fn seat_interface() -> Seq<char> {
    "wl_seat"@
}

/// Advertised name of the window-base global.
pub open spec fn wm_base_interface() -> Seq<char> {
    "xdg_wm_base"@
}

/// Which of the recognized interfaces an advertised name denotes.
pub open spec fn spec_classify(interface: Seq<char>) -> InterfaceKind {
    if interface == compositor_interface() {
        InterfaceKind::Compositor
    } else if interface == shm_interface() {
        InterfaceKind::SharedMemory
    } else if interface == seat_interface() {
        InterfaceKind::Seat
    } else if interface == wm_base_interface() {
        InterfaceKind::WindowBase
    } else {
        InterfaceKind::Other
    }
}

/// Character-by-character string equality.
pub fn chars_equal(a: &str, b: &str) -> (r: bool)
    ensures
        r == (a@ == b@),
{
    let a_len = a.unicode_len();
    let b_len = b.unicode_len();
    if a_len != b_len {
        return false;
    }
    let mut i: usize = 0;
    while i < a_len
        invariant
            a_len == a@.len(),
            a_len == b@.len(),
            i <= a_len,
            forall|j: int| 0 <= j < i ==> a@[j] == b@[j],
        decreases a_len - i,
    {
        if a.get_char(i) != b.get_char(i) {
            return false;
        }
        i = i + 1;
    }
    proof {
        assert(a@ =~= b@);
    }
    true
}

/// Classifies an advertised interface name, recognizing exactly the four
/// interfaces the client needs.
pub fn classify_interface(interface: &str) -> (kind: InterfaceKind)
    ensures
        kind == spec_classify(interface@),
{
    if chars_equal(interface, "wl_compositor") {
        InterfaceKind::Compositor
    } else if chars_equal(interface, "wl_shm") {
        InterfaceKind::SharedMemory
    } else if chars_equal(interface, "wl_seat") {
        InterfaceKind::Seat
    } else if chars_equal(interface, "xdg_wm_base") {
        InterfaceKind::WindowBase
    } else {
        InterfaceKind::Other
    }
}

} // verus!
