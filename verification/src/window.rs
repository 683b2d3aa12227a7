//! What is done with the foreground window when the cursor is recentred.
use vstd::prelude::*;

verus! {

/// The treatment of the foreground window.
#[derive(Debug, Clone, Copy, PartialEq, Eq, Structural)]
pub enum WindowMove {
    /// There is no foreground window, or it is the desktop or the shell
    /// (taskbar): nothing is moved.
    Leave,
    /// The window is moved to the target's top-left corner, keeping its size
    /// and z-order; a maximised window is restored first.
    MoveTo { restore_first: bool },
}

/// How the foreground window is treated, from what is known of it: whether
/// there is one, whether it is the desktop window or the shell window, and
/// whether it is maximised.
pub fn plan_window_move(
    has_foreground: bool,
    is_desktop: bool,
    is_shell: bool,
    is_maximized: bool,
) -> (m: WindowMove)
    ensures
        !has_foreground || is_desktop || is_shell ==> m == WindowMove::Leave,
        has_foreground && !is_desktop && !is_shell ==> m == (WindowMove::MoveTo {
            restore_first: is_maximized,
        }),
{
    if !has_foreground {
        return WindowMove::Leave;
    }
    if is_desktop || is_shell {
        return WindowMove::Leave;
    }
    WindowMove::MoveTo { restore_first: is_maximized }
}

} // verus!
