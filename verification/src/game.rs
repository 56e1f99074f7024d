//! What the engine asks of a scene.

use vstd::prelude::*;
use crate::action::EngineAction;
use crate::context::EngineContext;
use crate::keys::PathKey;

verus! {

/// The types of the layer that hosts the engine: its handle to the engine's
/// services, its user interface frame, its raw events and its controllers.
pub trait Host {
    type Engine;

    type Ui;

    type Event;

    type Controller;
}

/// A deferred constructor of a scene.
pub trait SceneFactory<H: Host, S>: Sized {
    /// What `create` may build.
    open spec fn creates(self, scene: S) -> bool {
        true
    }

    /// Builds the scene, with access to the engine. Run once, when the
    /// engine carries the request out.
    fn create(self, engine: &mut H::Engine) -> (scene: S)
        ensures
            self.creates(scene),
    ;
}

/// A scene that can be the first on the stack.
pub trait FromEngine<H: Host>: Sized {
    /// What `init` may build.
    open spec fn initial(scene: Self) -> bool {
        true
    }

    /// Builds the scene, with access to the engine.
    fn init(engine: &mut H::Engine) -> (scene: Self)
        ensures
            Self::initial(scene),
    ;
}

/// One interactive state of the game. Only the scene on top of the stack is
/// sent events, steps its logic and renders.
pub trait GameScene<H: Host>: Sized {
    /// The constructors that this scene hands to the engine to push or
    /// switch to another scene.
    type Factory: SceneFactory<H, Self>;

    /// What `set_up` may make of a scene.
    open spec fn set_up_from(before: Self, after: Self) -> bool {
        true
    }

    /// What `on_pause` may make of a scene.
    open spec fn paused_from(before: Self, after: Self) -> bool {
        true
    }

    /// What `on_resume` may make of a scene.
    open spec fn resumed_from(before: Self, after: Self) -> bool {
        true
    }

    /// What `process_event` may make of a scene that is sent `event`.
    open spec fn event_heard(before: Self, event: H::Event, after: Self) -> bool {
        true
    }

    /// What `logic` may make of a scene and of the engine at a frame with
    /// the input `context`, and what it may ask for.
    open spec fn logic_stepped(
        before: Self,
        context: EngineContext<H::Controller>,
        engine: H::Engine,
        ui: H::Ui,
        after: Self,
        engine_after: H::Engine,
        action: EngineAction<Self::Factory>,
    ) -> bool {
        true
    }

    /// What `render` may make of a scene and of the engine at a frame with
    /// the input `context`.
    open spec fn rendered(
        before: Self,
        context: EngineContext<H::Controller>,
        engine: H::Engine,
        ui: H::Ui,
        after: Self,
        engine_after: H::Engine,
    ) -> bool {
        true
    }

    /// What `on_cache_updated` may make of a scene and of the engine when
    /// the resource under `key` was reloaded.
    open spec fn cache_update_heard(
        before: Self,
        engine: H::Engine,
        key: PathKey,
        after: Self,
        engine_after: H::Engine,
    ) -> bool {
        true
    }

    /// Called once, before the scene first becomes the active one.
    fn set_up(&mut self)
        ensures
            Self::set_up_from(*old(self), *final(self)),
    ;

    /// Called for each raw event while the scene is the active one.
    fn process_event(&mut self, event: &H::Event)
        ensures
            Self::event_heard(*old(self), *event, *final(self)),
    ;

    /// One step of the scene's logic. Hands back what the engine is to do.
    fn logic(
        &mut self,
        context: &EngineContext<H::Controller>,
        engine: &mut H::Engine,
        ui: &H::Ui,
    ) -> (action: EngineAction<Self::Factory>)
        ensures
            Self::logic_stepped(
                *old(self),
                *context,
                *old(engine),
                *ui,
                *final(self),
                *final(engine),
                action,
            ),
    ;

    /// Draws the scene.
    fn render(&mut self, context: &EngineContext<H::Controller>, engine: &mut H::Engine, ui: &H::Ui)
        ensures
            Self::rendered(*old(self), *context, *old(engine), *ui, *final(self), *final(engine)),
    ;

    /// Called when the resource under `key` was reloaded.
    fn on_cache_updated(&mut self, engine: &mut H::Engine, key: PathKey)
        ensures
            Self::cache_update_heard(*old(self), *old(engine), key, *final(self), *final(engine)),
    ;

    /// Called when another scene has been pushed on the stack.
    fn on_pause(&mut self)
        ensures
            Self::paused_from(*old(self), *final(self)),
    ;

    /// Called when this scene is reactivated.
    fn on_resume(&mut self)
        ensures
            Self::resumed_from(*old(self), *final(self)),
    ;
}

} // verus!
