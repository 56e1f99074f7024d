//! The stack of scenes and the transitions that the active scene asks for.

use vstd::prelude::*;
use crate::action::EngineAction;
use crate::context::{EngineContext, Scancode};
use crate::game::{FromEngine, GameScene, Host, SceneFactory};
use crate::keys::PathKey;

verus! {

/// How the loop goes on after the active scene's logic step.
#[derive(Clone, Copy, Debug, PartialEq, Eq, Structural)]
pub enum Flow {
    /// Render the active scene and present the frame.
    Render,
    /// Switch the window between full screen and windowed, then render.
    ToggleFullScreen,
    /// Start the next iteration at once, without rendering.
    Restart,
    /// Leave the loop.
    Stop,
}

/// The key that shows or hides the frame-rate overlay.
pub const SCANCODE_F11: Scancode = 68;

/// The key that shows or hides the window of the resource caches.
pub const SCANCODE_F12: Scancode = 69;

/// What the loop reads of a raw event of the windowing layer.
#[allow(inconsistent_fields)]
#[derive(Clone, Copy, Debug, PartialEq, Eq, Structural)]
pub enum EngineEvent {
    /// The user asked to leave.
    Quit,
    /// A controller was plugged in; `which` is its device index.
    ControllerDeviceAdded { which: u32 },
    /// A controller was unplugged; `which` is its instance id.
    ControllerDeviceRemoved { which: i32 },
    /// A key was let go.
    KeyUp { scancode: Option<Scancode> },
    /// Any other event.
    Other,
}

/// What the loop does with an event.
#[derive(Clone, Copy, Debug, PartialEq, Eq, Structural)]
pub enum EventRoute {
    /// Leave the loop.
    Stop,
    /// Open the controller with this device index and keep it.
    OpenController(u32),
    /// Close the controller kept under this instance id.
    CloseController(u32),
    /// Show or hide the window of the resource caches, then send the event
    /// to the active scene.
    ToggleInspectWindow,
    /// Show or hide the frame-rate overlay, then send the event to the
    /// active scene.
    ToggleDebugStats,
    /// Send the event to the active scene.
    ToScene,
}

/// The instance id that an unplugged controller was kept under: `which`,
/// read as an unsigned number of the same 32 bits.
pub open spec fn instance_id(which: i32) -> u32 {
    which as u32
}

/// What the loop does with `event`. With `debug_keys` the two debug keys
/// show and hide the overlays; without, they are keys like any other.
pub fn route_event(event: EngineEvent, debug_keys: bool) -> (route: EventRoute)
    ensures
        route == match event {
            EngineEvent::Quit => EventRoute::Stop,
            EngineEvent::ControllerDeviceAdded { which } => EventRoute::OpenController(which),
            EngineEvent::ControllerDeviceRemoved { which } => EventRoute::CloseController(
                instance_id(which),
            ),
            EngineEvent::KeyUp { scancode } => if debug_keys && scancode == Some(SCANCODE_F12) {
                EventRoute::ToggleInspectWindow
            } else if debug_keys && scancode == Some(SCANCODE_F11) {
                EventRoute::ToggleDebugStats
            } else {
                EventRoute::ToScene
            },
            EngineEvent::Other => EventRoute::ToScene,
        },
{
    match event {
        EngineEvent::Quit => EventRoute::Stop,
        EngineEvent::ControllerDeviceAdded { which } => EventRoute::OpenController(which),
        EngineEvent::ControllerDeviceRemoved { which } => EventRoute::CloseController(
            #[verifier::truncate]
            (which as u32),
        ),
        EngineEvent::KeyUp { scancode } => match scancode {
            Some(code) => if debug_keys && code == SCANCODE_F12 {
                EventRoute::ToggleInspectWindow
            } else if debug_keys && code == SCANCODE_F11 {
                EventRoute::ToggleDebugStats
            } else {
                EventRoute::ToScene
            },
            None => EventRoute::ToScene,
        },
        EngineEvent::Other => EventRoute::ToScene,
    }
}

/// The scenes of the game, the active one last.
pub struct SceneStack<S> {
    scenes: Vec<S>,
}

impl<S> View for SceneStack<S> {
    type V = Seq<S>;

    closed spec fn view(&self) -> Seq<S> {
        self.scenes@
    }
}

/// Whether the stack `after` and the way `flow` to go on are what carrying
/// out `action` makes of the stack `before`, whose last scene is the active
/// one.
///
/// `Quit` stops the loop and `Nothing` and `ToggleFullScreen` go on to
/// render, all three with the stack as it was. `PopScene` drops the active
/// scene; the scene below, if there is one, is resumed and the loop
/// restarts, else the loop stops. `PushScene` pauses the active scene and
/// puts a new scene, built by the factory and then set up, on top of it.
/// `SwitchToScene` puts such a scene in the place of the active one, which
/// is dropped unpaused. Both restart the loop. No scene further down is
/// touched.
pub open spec fn carried_out<H: Host, S: GameScene<H>>(
    before: Seq<S>,
    action: EngineAction<S::Factory>,
    after: Seq<S>,
    flow: Flow,
) -> bool
    recommends
        before.len() > 0,
{
    let top = before.len() - 1;
    match action {
        EngineAction::Nothing => after == before && flow == Flow::Render,
        EngineAction::ToggleFullScreen => after == before && flow == Flow::ToggleFullScreen,
        EngineAction::Quit => after == before && flow == Flow::Stop,
        EngineAction::PopScene => if top == 0 {
            after == Seq::<S>::empty() && flow == Flow::Stop
        } else {
            &&& after.len() == top
            &&& after.take(top - 1) == before.take(top - 1)
            &&& S::resumed_from(before[top - 1], after[top - 1])
            &&& flow == Flow::Restart
        },
        EngineAction::PushScene(factory) => {
            &&& after.len() == top + 2
            &&& after.take(top) == before.take(top)
            &&& S::paused_from(before[top], after[top])
            &&& exists|built: S| #[trigger] factory.creates(built) && S::set_up_from(built, after[top + 1])
            &&& flow == Flow::Restart
        },
        EngineAction::SwitchToScene(factory) => {
            &&& after.len() == top + 1
            &&& after.take(top) == before.take(top)
            &&& exists|built: S| #[trigger] factory.creates(built) && S::set_up_from(built, after[top])
            &&& flow == Flow::Restart
        },
    }
}

/// While the loop runs, a scene is active: carried out on a stack that
/// holds a scene, an action leaves a scene on the stack unless it stops the
/// loop. An action that goes on to render leaves the stack as it was, and
/// so does `Quit`, which stops the loop whatever the stack holds.
pub proof fn lemma_running_loop_has_a_scene<H: Host, S: GameScene<H>>(
    before: Seq<S>,
    action: EngineAction<S::Factory>,
    after: Seq<S>,
    flow: Flow,
)
    requires
        before.len() > 0,
        carried_out::<H, S>(before, action, after, flow),
    ensures
        flow != Flow::Stop ==> after.len() > 0,
        flow == Flow::Render || flow == Flow::ToggleFullScreen ==> after == before,
        action is Quit ==> flow == Flow::Stop && after == before,
        flow == Flow::Stop ==> action is Quit || (action is PopScene && before.len() == 1),
        flow == Flow::Restart <==> (action is PushScene || action is SwitchToScene || (action
            is PopScene && before.len() > 1)),
{
}

/// Whether `after` is `before` with nothing but its active scene changed.
pub open spec fn only_top_changed<S>(before: Seq<S>, after: Seq<S>) -> bool {
    &&& after.len() == before.len()
    &&& after.drop_last() == before.drop_last()
}

impl<S> SceneStack<S> {
    /// The stack that the loop starts with: the entry scene, built and set
    /// up.
    pub fn start<H: Host>(engine: &mut H::Engine) -> (stack: Self) where S: GameScene<H> + FromEngine<H>
        ensures
            stack@.len() == 1,
            exists|built: S| #[trigger] S::initial(built) && S::set_up_from(built, stack@[0]),
    {
        let mut scene = S::init(engine);
        let ghost built = scene;
        scene.set_up();
        let mut scenes: Vec<S> = Vec::new();
        scenes.push(scene);
        assert(S::initial(built) && S::set_up_from(built, scenes@[0]));
        SceneStack { scenes }
    }

    /// The stack that the loop starts with, where the entry scene comes from
    /// a constructor: the scene, built and set up.
    pub fn start_with<H: Host, F: SceneFactory<H, S>>(engine: &mut H::Engine, entry: F) -> (stack:
        Self) where S: GameScene<H>
        ensures
            stack@.len() == 1,
            exists|built: S| #[trigger] entry.creates(built) && S::set_up_from(built, stack@[0]),
    {
        let mut scene = entry.create(engine);
        let ghost built = scene;
        scene.set_up();
        let mut scenes: Vec<S> = Vec::new();
        scenes.push(scene);
        assert(entry.creates(built) && S::set_up_from(built, scenes@[0]));
        SceneStack { scenes }
    }

    /// Carries out what the active scene asked for and says how the loop
    /// goes on.
    pub fn apply<H: Host>(&mut self, engine: &mut H::Engine, action: EngineAction<S::Factory>) -> (flow:
        Flow) where S: GameScene<H>
        requires
            old(self)@.len() > 0,
        ensures
            carried_out::<H, S>(old(self)@, action, final(self)@, flow),
    {
        let ghost before = self.scenes@;
        match action {
            EngineAction::Quit => Flow::Stop,
            EngineAction::ToggleFullScreen => Flow::ToggleFullScreen,
            EngineAction::Nothing => Flow::Render,
            EngineAction::PopScene => {
                let _ = self.scenes.pop();
                match self.scenes.pop() {
                    Some(mut scene) => {
                        scene.on_resume();
                        self.scenes.push(scene);
                        assert(self.scenes@.take(before.len() - 2) =~= before.take(before.len() - 2));
                        Flow::Restart
                    },
                    None => {
                        assert(self.scenes@ =~= Seq::<S>::empty());
                        Flow::Stop
                    },
                }
            },
            EngineAction::PushScene(factory) => {
                match self.scenes.pop() {
                    Some(mut scene) => {
                        scene.on_pause();
                        self.scenes.push(scene);
                    },
                    None => {},
                }
                let mut next = factory.create(engine);
                let ghost built = next;
                next.set_up();
                self.scenes.push(next);
                assert(self.scenes@.take(before.len() - 1) =~= before.take(before.len() - 1));
                assert(factory.creates(built) && S::set_up_from(built, self.scenes@[before.len() as int]));
                Flow::Restart
            },
            EngineAction::SwitchToScene(factory) => {
                let _ = self.scenes.pop();
                let mut next = factory.create(engine);
                let ghost built = next;
                next.set_up();
                self.scenes.push(next);
                assert(self.scenes@.take(before.len() - 1) =~= before.take(before.len() - 1));
                assert(factory.creates(built) && S::set_up_from(built, self.scenes@[before.len() - 1]));
                Flow::Restart
            },
        }
    }

    /// Steps the logic of the active scene and hands back what it asks for:
    /// the active scene and the engine are what the scene's logic step makes
    /// of them, and no other scene is touched.
    pub fn logic<H: Host>(
        &mut self,
        context: &EngineContext<H::Controller>,
        engine: &mut H::Engine,
        ui: &H::Ui,
    ) -> (action: EngineAction<S::Factory>) where S: GameScene<H>
        requires
            old(self)@.len() > 0,
        ensures
            only_top_changed(old(self)@, final(self)@),
            S::logic_stepped(
                old(self)@.last(),
                *context,
                *old(engine),
                *ui,
                final(self)@.last(),
                *final(engine),
                action,
            ),
    {
        let ghost before = self.scenes@;
        let mut scene = self.scenes.pop().unwrap();
        let action = scene.logic(context, engine, ui);
        self.scenes.push(scene);
        assert(self.scenes@.drop_last() =~= before.drop_last());
        action
    }

    /// Steps the logic of the active scene, carries out what it asks for
    /// and says how the loop goes on: the scene's logic step comes first,
    /// and what it hands back is carried out on the stack that it left.
    pub fn step<H: Host>(
        &mut self,
        context: &EngineContext<H::Controller>,
        engine: &mut H::Engine,
        ui: &H::Ui,
    ) -> (flow: Flow) where S: GameScene<H>
        requires
            old(self)@.len() > 0,
        ensures
            exists|stepped: Seq<S>, engine_between: H::Engine, action: EngineAction<S::Factory>|
                only_top_changed(old(self)@, stepped) && #[trigger] S::logic_stepped(
                    old(self)@.last(),
                    *context,
                    *old(engine),
                    *ui,
                    stepped.last(),
                    engine_between,
                    action,
                ) && #[trigger] carried_out::<H, S>(stepped, action, final(self)@, flow),
    {
        let action = self.logic(context, engine, ui);
        let ghost stepped = self.scenes@;
        let ghost engine_between = *engine;
        let flow = self.apply(engine, action);
        assert(S::logic_stepped(
            old(self)@.last(),
            *context,
            *old(engine),
            *ui,
            stepped.last(),
            engine_between,
            action,
        ) && carried_out::<H, S>(stepped, action, self.scenes@, flow));
        flow
    }

    /// Draws the active scene: the active scene and the engine are what
    /// the scene's `render` makes of them, and no other scene is touched.
    pub fn render<H: Host>(
        &mut self,
        context: &EngineContext<H::Controller>,
        engine: &mut H::Engine,
        ui: &H::Ui,
    ) where S: GameScene<H>
        requires
            old(self)@.len() > 0,
        ensures
            only_top_changed(old(self)@, final(self)@),
            S::rendered(
                old(self)@.last(),
                *context,
                *old(engine),
                *ui,
                final(self)@.last(),
                *final(engine),
            ),
    {
        let ghost before = self.scenes@;
        let mut scene = self.scenes.pop().unwrap();
        scene.render(context, engine, ui);
        self.scenes.push(scene);
        assert(self.scenes@.drop_last() =~= before.drop_last());
    }

    /// Sends a raw event to the active scene: the active scene is what its
    /// `process_event` makes of it, and no other scene is touched.
    pub fn process_event<H: Host>(&mut self, event: &H::Event) where S: GameScene<H>
        requires
            old(self)@.len() > 0,
        ensures
            only_top_changed(old(self)@, final(self)@),
            S::event_heard(old(self)@.last(), *event, final(self)@.last()),
    {
        let ghost before = self.scenes@;
        let mut scene = self.scenes.pop().unwrap();
        scene.process_event(event);
        self.scenes.push(scene);
        assert(self.scenes@.drop_last() =~= before.drop_last());
    }

    /// Tells the active scene that the resource under `key` was reloaded:
    /// the active scene and the engine are what the scene's
    /// `on_cache_updated` makes of them, and no other scene is touched.
    pub fn on_cache_updated<H: Host>(&mut self, engine: &mut H::Engine, key: PathKey) where
        S: GameScene<H>,

        requires
            old(self)@.len() > 0,
        ensures
            only_top_changed(old(self)@, final(self)@),
            S::cache_update_heard(
                old(self)@.last(),
                *old(engine),
                key,
                final(self)@.last(),
                *final(engine),
            ),
    {
        let ghost before = self.scenes@;
        let mut scene = self.scenes.pop().unwrap();
        scene.on_cache_updated(engine, key);
        self.scenes.push(scene);
        assert(self.scenes@.drop_last() =~= before.drop_last());
    }

    /// The scene at `index`, counted from the bottom of the stack.
    pub fn scene(&self, index: usize) -> (scene: Option<&S>)
        ensures
            match scene {
                Some(found) => index < self@.len() && *found == self@[index as int],
                None => index >= self@.len(),
            },
    {
        if index < self.scenes.len() {
            Some(&self.scenes[index])
        } else {
            None
        }
    }

    /// The active scene.
    pub fn active(&self) -> (scene: Option<&S>)
        ensures
            match scene {
                Some(found) => self@.len() > 0 && *found == self@.last(),
                None => self@.len() == 0,
            },
    {
        if self.scenes.len() > 0 {
            Some(&self.scenes[self.scenes.len() - 1])
        } else {
            None
        }
    }

    /// The number of scenes on the stack.
    pub fn len(&self) -> (count: usize)
        ensures
            count == self@.len(),
    {
        self.scenes.len()
    }

    /// Whether no scene is left.
    pub fn is_empty(&self) -> (empty: bool)
        ensures
            empty == (self@.len() == 0),
    {
        self.scenes.len() == 0
    }
}

} // verus!
