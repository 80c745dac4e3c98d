use vstd::prelude::*;

verus! {

/// A request to the window manager that changes the maximized state.
#[derive(Clone, Copy, Debug, PartialEq, Eq, Structural)]
pub enum WindowAction {
    Maximize,
    Unmaximize,
}

/// The action the maximize control takes on a window in state `maximized`.
pub open spec fn toggle_action(maximized: bool) -> WindowAction {
    if maximized {
        WindowAction::Unmaximize
    } else {
        WindowAction::Maximize
    }
}

/// Whether the window is maximized once `a` has been carried out.
pub open spec fn maximized_after(maximized: bool, a: WindowAction) -> bool {
    match a {
        WindowAction::Maximize => true,
        WindowAction::Unmaximize => false,
    }
}

/// The maximize control: a maximized window is restored, any other one is
/// maximized.
pub fn maximize_action(maximized: bool) -> (r: WindowAction)
    ensures
        r == toggle_action(maximized),
        maximized_after(maximized, r) == !maximized,
{
    if maximized {
        WindowAction::Unmaximize
    } else {
        WindowAction::Maximize
    }
}

/// Using the maximize control twice leaves the window as it was.
pub proof fn lemma_toggle_twice(maximized: bool)
    ensures
        ({
            let once = maximized_after(maximized, toggle_action(maximized));
            maximized_after(once, toggle_action(once)) == maximized
        }),
{
}

} // verus!
