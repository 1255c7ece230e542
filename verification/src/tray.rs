//! Decisions of the notification-area (tray) host: how its window messages are
//! handled, how the tooltip text fills the fixed tooltip buffer, and how the
//! single-instance and session-reset objects are opened.
use vstd::prelude::*;
use vstd::string::StringExecFns;

use crate::text::chars_of;

verus! {

/// Callback message of the tray icon (`WM_APP + 1`).
pub const WM_TRAYICON: u32 = 0x8001;
/// Timer that refreshes the tooltip about once a second.
pub const TOOLTIP_TIMER_ID: usize = 0x4E46;
/// Context-menu command: open the widgets board.
pub const IDM_OPEN_WIDGETS: usize = 1000;
/// Context-menu command: reset the session totals.
pub const IDM_RESET_SESSION: usize = 1001;
/// Context-menu command: exit.
pub const IDM_EXIT: usize = 1002;

pub const WM_CREATE: u32 = 0x0001;
pub const WM_DESTROY: u32 = 0x0002;
pub const WM_CLOSE: u32 = 0x0010;
pub const WM_COMMAND: u32 = 0x0111;
pub const WM_TIMER: u32 = 0x0113;
pub const WM_LBUTTONUP: u32 = 0x0202;
pub const WM_RBUTTONUP: u32 = 0x0205;

/// `GetLastError` code: access denied.
pub const ERROR_ACCESS_DENIED: u32 = 5;
/// `GetLastError` code: the named object already exists.
pub const ERROR_ALREADY_EXISTS: u32 = 183;

/// What the tray window does with a message.
#[derive(Clone, Copy, Debug, PartialEq, Eq, Structural)]
pub enum TrayWindowAction {
    /// Keep the creation parameter as the window's context.
    AttachContext,
    /// Show the context menu.
    ShowMenu,
    /// Refresh the tooltip text.
    RefreshTooltip,
    /// Open the widgets board.
    OpenWidgetsBoard,
    /// Reset the session totals and signal the widget server.
    ResetSession,
    /// Ask the host to quit and close the window.
    Exit,
    /// Destroy the window.
    DestroyWindow,
    /// Remove the icon, drop the context and end the message loop.
    TearDown,
    /// Handled, nothing to do.
    Ignore,
    /// Not handled here: the default window procedure runs.
    Default,
}

/// What the tray window does with message `msg`: tray icon events are told
/// apart by the low word of `lparam`, menu commands by the low word of
/// `wparam`.
pub open spec fn tray_action(msg: u32, wparam: usize, lparam: isize) -> TrayWindowAction {
    if msg == WM_CREATE {
        TrayWindowAction::AttachContext
    } else if msg == WM_TRAYICON {
        let event = (lparam as u32) & 0xFFFFu32;
        if event == WM_RBUTTONUP {
            TrayWindowAction::ShowMenu
        } else if event == WM_LBUTTONUP {
            TrayWindowAction::RefreshTooltip
        } else {
            TrayWindowAction::Ignore
        }
    } else if msg == WM_TIMER {
        if wparam == TOOLTIP_TIMER_ID {
            TrayWindowAction::RefreshTooltip
        } else {
            TrayWindowAction::Ignore
        }
    } else if msg == WM_COMMAND {
        let id = wparam & 0xFFFFusize;
        if id == IDM_OPEN_WIDGETS {
            TrayWindowAction::OpenWidgetsBoard
        } else if id == IDM_RESET_SESSION {
            TrayWindowAction::ResetSession
        } else if id == IDM_EXIT {
            TrayWindowAction::Exit
        } else {
            TrayWindowAction::Ignore
        }
    } else if msg == WM_CLOSE {
        TrayWindowAction::DestroyWindow
    } else if msg == WM_DESTROY {
        TrayWindowAction::TearDown
    } else {
        TrayWindowAction::Default
    }
}

/// Decides what the tray window does with a message.
pub fn tray_window_action(msg: u32, wparam: usize, lparam: isize) -> (r: TrayWindowAction)
    ensures
        r == tray_action(msg, wparam, lparam),
{
    if msg == WM_CREATE {
        TrayWindowAction::AttachContext
    } else if msg == WM_TRAYICON {
        let event = (lparam as u32) & 0xFFFFu32;
        if event == WM_RBUTTONUP {
            TrayWindowAction::ShowMenu
        } else if event == WM_LBUTTONUP {
            TrayWindowAction::RefreshTooltip
        } else {
            TrayWindowAction::Ignore
        }
    } else if msg == WM_TIMER {
        if wparam == TOOLTIP_TIMER_ID {
            TrayWindowAction::RefreshTooltip
        } else {
            TrayWindowAction::Ignore
        }
    } else if msg == WM_COMMAND {
        let id = wparam & 0xFFFFusize;
        if id == IDM_OPEN_WIDGETS {
            TrayWindowAction::OpenWidgetsBoard
        } else if id == IDM_RESET_SESSION {
            TrayWindowAction::ResetSession
        } else if id == IDM_EXIT {
            TrayWindowAction::Exit
        } else {
            TrayWindowAction::Ignore
        }
    } else if msg == WM_CLOSE {
        TrayWindowAction::DestroyWindow
    } else if msg == WM_DESTROY {
        TrayWindowAction::TearDown
    } else {
        TrayWindowAction::Default
    }
}

/// The UTF-16 code units of one character: itself below `U+10000`, a
/// surrogate pair above.
pub open spec fn utf16_of_char(c: char) -> Seq<u16> {
    let v = c as u32;
    if v < 0x10000 {
        seq![v as u16]
    } else {
        let w = (v - 0x10000) as u32;
        seq![(0xD800 + w / 0x400) as u16, (0xDC00 + w % 0x400) as u16]
    }
}

/// The UTF-16 encoding of a string (`str::encode_utf16`).
pub open spec fn utf16_of(s: Seq<char>) -> Seq<u16>
    decreases s.len(),
{
    if s.len() == 0 {
        Seq::empty()
    } else {
        utf16_of(s.drop_last()) + utf16_of_char(s.last())
    }
}

/// Encodes a string as UTF-16 code units.
pub fn encode_utf16(s: &str) -> (r: Vec<u16>)
    ensures
        r@ == utf16_of(s@),
{
    let chars = chars_of(s);
    let mut out: Vec<u16> = Vec::new();
    let mut i: usize = 0;
    while i < chars.len()
        invariant
            chars@ == s@,
            i <= chars@.len(),
            out@ == utf16_of(chars@.take(i as int)),
        decreases chars@.len() - i,
    {
        let c = chars[i];
        let v = c as u32;
        proof {
            assert(chars@.take(i + 1).drop_last() =~= chars@.take(i as int));
        }
        if v < 0x10000 {
            out.push(v as u16);
        } else {
            let w = v - 0x10000;
            out.push((0xD800 + w / 0x400) as u16);
            out.push((0xDC00 + w % 0x400) as u16);
        }
        proof {
            assert(out@ =~= utf16_of(chars@.take(i + 1)));
        }
        i = i + 1;
    }
    proof {
        assert(chars@.take(i as int) =~= s@);
    }
    out
}

/// The tooltip buffer of `capacity` units for `units`: as many leading units
/// as fit with room left for the terminating zero, then zeros.
pub open spec fn tip_filled(units: Seq<u16>, capacity: nat, buffer: Seq<u16>) -> bool {
    &&& buffer.len() == capacity
    &&& forall|i: int|
        0 <= i < capacity ==> #[trigger] buffer[i] == if i < units.len() && i < capacity - 1 {
            units[i]
        } else {
            0u16
        }
}

/// Fills a tooltip buffer of `capacity` code units with `text`: the text is cut
/// to `capacity - 1` units and the rest of the buffer is zero.
pub fn tip_buffer(text: &str, capacity: usize) -> (r: Vec<u16>)
    requires
        capacity >= 1,
    ensures
        tip_filled(utf16_of(text@), capacity as nat, r@),
{
    let units = encode_utf16(text);
    let mut out: Vec<u16> = Vec::new();
    let mut i: usize = 0;
    while i < capacity
        invariant
            units@ == utf16_of(text@),
            capacity >= 1,
            i <= capacity,
            out@.len() == i,
            forall|j: int|
                0 <= j < i ==> #[trigger] out@[j] == if j < units@.len() && j < capacity - 1 {
                    units@[j]
                } else {
                    0u16
                },
        decreases capacity - i,
    {
        if i < units.len() && i < capacity - 1 {
            out.push(units[i]);
        } else {
            out.push(0u16);
        }
        i = i + 1;
    }
    out
}

/// `Net Flow`, then the download and upload rates, then the latency, one per
/// line.
pub open spec fn tooltip_text(rx: Seq<char>, tx: Seq<char>, latency: Seq<char>) -> Seq<char> {
    "Net Flow\n\u{2193} "@ + rx + "  \u{2191} "@ + tx + "\nLatency: "@ + latency
}

/// The tooltip text for rates and a latency already formatted for display.
pub fn tooltip(rx: &str, tx: &str, latency: &str) -> (r: String)
    ensures
        r@ == tooltip_text(rx@, tx@, latency@),
{
    let mut out = String::from_str("Net Flow\n\u{2193} ");
    out.append(rx);
    out.append("  \u{2191} ");
    out.append(tx);
    out.append("\nLatency: ");
    out.append(latency);
    out
}

/// Whether a named object is opened again in the session namespace: creating
/// it in the global namespace failed or was denied.
pub fn use_local_namespace(created: bool, last_error: u32) -> (r: bool)
    ensures
        r == (!created || last_error == ERROR_ACCESS_DENIED),
{
    !created || last_error == ERROR_ACCESS_DENIED
}

/// Whether the single-instance mutex is this process's: the handle is valid
/// and the mutex did not exist before.
pub fn owns_instance_mutex(handle_valid: bool, last_error: u32) -> (r: bool)
    ensures
        r == (handle_valid && last_error != ERROR_ALREADY_EXISTS),
{
    handle_valid && last_error != ERROR_ALREADY_EXISTS
}

/// How long, in milliseconds, the tray worker waits for a session reset before
/// sampling: the time to the next sample (as a 32-bit count, which wraps),
/// capped at 250 ms.
pub fn tray_wait_millis(wait_millis: u128) -> (r: u32)
    ensures
        r == if (wait_millis as u32) < 250 {
            wait_millis as u32
        } else {
            250u32
        },
{
    let w = wait_millis as u32;
    if w < 250 {
        w
    } else {
        250
    }
}

/// Whether a console control event ends the widget server: `CTRL_C_EVENT` (0)
/// and `CTRL_CLOSE_EVENT` (2) do.
pub fn console_event_ends_server(ctrl_type: u32) -> (r: bool)
    ensures
        r == (ctrl_type == 0 || ctrl_type == 2),
{
    ctrl_type == 0 || ctrl_type == 2
}

/// A tooltip buffer always ends with a zero unit, whatever the text.
pub proof fn lemma_tip_terminated(units: Seq<u16>, capacity: nat, buffer: Seq<u16>)
    requires
        capacity >= 1,
        tip_filled(units, capacity, buffer),
    ensures
        buffer[capacity - 1] == 0u16,
{
    assert(buffer[capacity - 1] == if capacity - 1 < units.len() && capacity - 1 < capacity - 1 {
        units[capacity - 1]
    } else {
        0u16
    });
}

} // verus!
