//! Application state and the window-lifecycle decisions that depend on it.
//!
//! The backend keeps a single flag, `minimize_on_close`. The host GUI runtime
//! delivers tray-icon clicks, tray-menu clicks and window close requests; the
//! functions here turn each such event into the command the host must carry
//! out, so that the branching logic is proved rather than scattered through
//! event callbacks.

use vstd::prelude::*;

verus! {

/// The mutable state shared between the command layer and the window-event
/// handler: whether a close request hides the window instead of closing it.
pub struct AppState {
    pub minimize_on_close: bool,
}

impl Default for AppState {
    /// A fresh state closes the window on a close request.
    fn default() -> (s: Self)
        ensures
            !s.minimize_on_close,
    {
        AppState { minimize_on_close: false }
    }
}

impl AppState {
    /// Overwrite the minimize-on-close flag with the caller's choice.
    pub fn set_minimize_on_close(&mut self, minimize_on_close: bool)
        ensures
            final(self).minimize_on_close == minimize_on_close,
    {
        self.minimize_on_close = minimize_on_close;
    }
}

/// What the host must do with the main window when the user asks to close it.
#[derive(PartialEq, Eq, Structural, Clone, Copy, Debug)]
pub enum CloseAction {
    /// Cancel the close and minimize the window; the process keeps running.
    PreventAndMinimize,
    /// Let the window close.
    Close,
}

/// The close decision as a function of the state: hide when the flag is set,
/// close otherwise.
pub open spec fn spec_close_action(state: AppState) -> CloseAction {
    if state.minimize_on_close {
        CloseAction::PreventAndMinimize
    } else {
        CloseAction::Close
    }
}

/// Decide a window close request from the current state.
pub fn close_request_action(state: &AppState) -> (action: CloseAction)
    ensures
        action == spec_close_action(*state),
{
    if state.minimize_on_close {
        CloseAction::PreventAndMinimize
    } else {
        CloseAction::Close
    }
}

/// A close request observes the latest toggle: after `set_minimize_on_close`
/// ran on the state, the decision for that state is `PreventAndMinimize`
/// exactly when the flag was set to true, whatever the state held before.
pub proof fn lemma_close_follows_latest_toggle(state: AppState, minimize_on_close: bool)
    requires
        state.minimize_on_close == minimize_on_close,
    ensures
        spec_close_action(state) == if minimize_on_close {
            CloseAction::PreventAndMinimize
        } else {
            CloseAction::Close
        },
{
}

/// What the host must do with the main window after a tray or menu event.
#[derive(PartialEq, Eq, Structural, Clone, Copy, Debug)]
pub enum WindowCommand {
    /// Show, unminimize and focus the main window.
    ShowAndFocus,
    /// Terminate the process.
    Quit,
    /// Do nothing.
    Ignore,
}

/// Compare two string slices character by character.
fn str_eq(a: &str, b: &str) -> (r: bool)
    ensures
        r == (a@ == b@),
{
    let a_len = a.unicode_len();
    let b_len = b.unicode_len();
    if a_len != b_len {
        return false;
    }
    let mut i: usize = 0;
    while i < a_len
        invariant
            i <= a_len,
            a_len == a@.len(),
            a_len == b@.len(),
            forall|j: int| 0 <= j < i ==> a@[j] == b@[j],
        decreases a_len - i,
    {
        if a.get_char(i) != b.get_char(i) {
            return false;
        }
        i = i + 1;
    }
    proof {
        assert(a@ =~= b@);
    }
    true
}

/// The command for a tray-menu click: the "show" item surfaces the window,
/// the "quit" item terminates the process, any other identifier is ignored.
pub fn menu_command(menu_id: &str) -> (cmd: WindowCommand)
    ensures
        cmd == spec_menu_command(menu_id@),
{
    if str_eq(menu_id, "show") {
        WindowCommand::ShowAndFocus
    } else if str_eq(menu_id, "quit") {
        WindowCommand::Quit
    } else {
        WindowCommand::Ignore
    }
}

/// The menu decision as a function of the menu item's identifier.
pub open spec fn spec_menu_command(menu_id: Seq<char>) -> WindowCommand {
    if menu_id == "show"@ {
        WindowCommand::ShowAndFocus
    } else if menu_id == "quit"@ {
        WindowCommand::Quit
    } else {
        WindowCommand::Ignore
    }
}

/// The command for a tray-icon click: releasing the left mouse button
/// surfaces the window; any other button or button state is ignored.
pub fn tray_click_command(left_button: bool, button_released: bool) -> (cmd: WindowCommand)
    ensures
        cmd == WindowCommand::ShowAndFocus <==> (left_button && button_released),
        cmd != WindowCommand::Quit,
{
    if left_button && button_released {
        WindowCommand::ShowAndFocus
    } else {
        WindowCommand::Ignore
    }
}

} // verus!
