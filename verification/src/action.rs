//! What a scene asks of the engine at the end of its logic step.

use vstd::prelude::*;

verus! {

/// The request that a scene's logic step hands back. `F` is the deferred
/// constructor of a scene: it is run when the request is carried out, not
/// when it is made.
pub enum EngineAction<F> {
    Nothing,
    ToggleFullScreen,
    PopScene,
    PushScene(F),
    SwitchToScene(F),
    Quit,
}

impl<F> Default for EngineAction<F> {
    fn default() -> (action: Self)
        ensures
            action is Nothing,
    {
        EngineAction::Nothing
    }
}

} // verus!
