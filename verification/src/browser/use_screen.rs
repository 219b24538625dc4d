use vstd::prelude::*;

verus! {

/// A change of fullscreen mode to ask the browser for.
#[derive(Clone, Copy, Debug, PartialEq, Eq, Structural)]
pub enum ScreenAction {
    /// Request fullscreen for the target element
    Enter,
    /// Leave fullscreen
    Exit,
}

/// What toggling fullscreen asks for: leaving it when in fullscreen, entering it otherwise.
pub fn toggle_action(is_fullscreen: bool) -> (action: ScreenAction)
    ensures
        action == if is_fullscreen { ScreenAction::Exit } else { ScreenAction::Enter },
{
    if is_fullscreen {
        ScreenAction::Exit
    } else {
        ScreenAction::Enter
    }
}

} // verus!
