//! The developer-tools toggle: a pure decision on the panel's visibility.
//!
//! The host runtime owns the window; it reports whether the panel is open,
//! and performs the action decided here.

use vstd::prelude::*;

verus! {

/// What the toggle asks the host window to do with the developer-tools panel.
#[derive(Clone, Copy, PartialEq, Eq, Structural, Debug)]
pub enum DevToolsAction {
    OpenPanel,
    ClosePanel,
}

/// The action the toggle picks when the panel is currently `open`.
pub open spec fn toggle_action(open: bool) -> DevToolsAction {
    if open {
        DevToolsAction::ClosePanel
    } else {
        DevToolsAction::OpenPanel
    }
}

/// The visibility the panel has once the host performs `action`.
pub open spec fn visibility_after(action: DevToolsAction) -> bool {
    match action {
        DevToolsAction::OpenPanel => true,
        DevToolsAction::ClosePanel => false,
    }
}

/// The visibility one toggle leaves the panel in, starting from `open`.
pub open spec fn toggled(open: bool) -> bool {
    visibility_after(toggle_action(open))
}

/// Decides how to flip the developer-tools panel: a closed panel is opened,
/// an open one is closed.
pub fn toggle_dev_tools(devtools_open: bool) -> (action: DevToolsAction)
    ensures
        action == toggle_action(devtools_open),
        visibility_after(action) == !devtools_open,
{
    if !devtools_open {
        DevToolsAction::OpenPanel
    } else {
        DevToolsAction::ClosePanel
    }
}

/// The toggle is an involution on visibility: one toggle flips the panel,
/// and a second toggle restores the visibility it started from.
pub proof fn lemma_toggle_involution(open: bool)
    ensures
        toggled(open) == !open,
        toggled(toggled(open)) == open,
{
}

} // verus!
