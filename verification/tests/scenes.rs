use leek::action::EngineAction;
use leek::context::EngineContext;
use leek::engine::{Flow, SceneStack};
use leek::game::{FromEngine, GameScene, Host, SceneFactory};
use leek::keys::PathKey;

/// A host whose engine is a log of what the scenes did.
struct Recording;

impl Host for Recording {
    type Engine = Vec<String>;
    type Ui = ();
    type Event = u8;
    type Controller = ();
}

#[derive(Clone, Copy, Debug, PartialEq, Eq)]
enum Plan {
    Push(&'static str),
    Switch(&'static str),
    Pop,
    Quit,
    Nothing,
    Toggle,
}

struct Scene {
    name: &'static str,
    plans: Vec<Plan>,
    set_ups: u32,
    pauses: u32,
    resumes: u32,
    renders: u32,
    events: Vec<u8>,
    reloaded: Vec<&'static str>,
}

struct Make(&'static str);

impl SceneFactory<Recording, Scene> for Make {
    fn create(self, engine: &mut Vec<String>) -> Scene {
        engine.push(format!("create {}", self.0));
        scene(self.0, vec![Plan::Pop])
    }
}

fn scene(name: &'static str, plans: Vec<Plan>) -> Scene {
    Scene {
        name,
        plans,
        set_ups: 0,
        pauses: 0,
        resumes: 0,
        renders: 0,
        events: Vec::new(),
        reloaded: Vec::new(),
    }
}

impl FromEngine<Recording> for Scene {
    fn init(engine: &mut Vec<String>) -> Scene {
        engine.push("init A".to_string());
        scene("A", vec![Plan::Push("B"), Plan::Quit])
    }
}

impl GameScene<Recording> for Scene {
    type Factory = Make;

    fn set_up(&mut self) {
        self.set_ups += 1;
    }

    fn process_event(&mut self, event: &u8) {
        self.events.push(*event);
    }

    fn logic(
        &mut self,
        _context: &EngineContext<()>,
        engine: &mut Vec<String>,
        _ui: &(),
    ) -> EngineAction<Make> {
        engine.push(format!("logic {}", self.name));
        let plan = if self.plans.is_empty() { Plan::Nothing } else { self.plans.remove(0) };
        match plan {
            Plan::Push(name) => EngineAction::PushScene(Make(name)),
            Plan::Switch(name) => EngineAction::SwitchToScene(Make(name)),
            Plan::Pop => EngineAction::PopScene,
            Plan::Quit => EngineAction::Quit,
            Plan::Nothing => EngineAction::Nothing,
            Plan::Toggle => EngineAction::ToggleFullScreen,
        }
    }

    fn render(&mut self, _context: &EngineContext<()>, engine: &mut Vec<String>, _ui: &()) {
        self.renders += 1;
        engine.push(format!("render {}", self.name));
    }

    fn on_cache_updated(&mut self, _engine: &mut Vec<String>, key: PathKey) {
        self.reloaded.push(key.0);
    }

    fn on_pause(&mut self) {
        self.pauses += 1;
    }

    fn on_resume(&mut self) {
        self.resumes += 1;
    }
}

fn counts(scene: &Scene) -> (u32, u32, u32, u32) {
    (scene.set_ups, scene.pauses, scene.resumes, scene.renders)
}

fn names(stack: &SceneStack<Scene>) -> Vec<&'static str> {
    (0..stack.len()).map(|i| stack.scene(i).unwrap().name).collect()
}

#[test]
fn push_pop_quit_scenario() {
    let mut log: Vec<String> = Vec::new();
    let mut stack: SceneStack<Scene> = SceneStack::start::<Recording>(&mut log);
    assert_eq!(names(&stack), vec!["A"]);
    assert_eq!(counts(stack.active().unwrap()), (1, 0, 0, 0));
    let context: EngineContext<()> = EngineContext::default();

    // A asks to push B: A is paused once, B is set up once, nothing renders.
    let flow = stack.step::<Recording>(&context, &mut log, &());
    assert_eq!(flow, Flow::Restart);
    assert_eq!(names(&stack), vec!["A", "B"]);
    assert_eq!(counts(stack.scene(0).unwrap()), (1, 1, 0, 0));
    assert_eq!(counts(stack.scene(1).unwrap()), (1, 0, 0, 0));

    // B asks to be popped: A is resumed once, nothing renders.
    let flow = stack.step::<Recording>(&context, &mut log, &());
    assert_eq!(flow, Flow::Restart);
    assert_eq!(names(&stack), vec!["A"]);
    assert_eq!(counts(stack.scene(0).unwrap()), (1, 1, 1, 0));

    // A asks to quit: the loop stops and the stack stays as it is.
    let flow = stack.step::<Recording>(&context, &mut log, &());
    assert_eq!(flow, Flow::Stop);
    assert_eq!(names(&stack), vec!["A"]);
    assert_eq!(counts(stack.scene(0).unwrap()), (1, 1, 1, 0));

    assert_eq!(log, vec!["init A", "logic A", "create B", "logic B", "logic A"]);
}

#[test]
fn popping_the_last_scene_stops_the_loop() {
    let mut log: Vec<String> = Vec::new();
    let mut stack: SceneStack<Scene> = SceneStack::start::<Recording>(&mut log);
    assert_eq!(stack.apply::<Recording>(&mut log, EngineAction::PopScene), Flow::Stop);
    assert!(stack.is_empty());
    assert_eq!(stack.len(), 0);
    assert!(stack.active().is_none());
    assert!(stack.scene(0).is_none());
}

#[test]
fn switching_replaces_the_active_scene_unpaused() {
    let mut log: Vec<String> = Vec::new();
    let mut stack: SceneStack<Scene> = SceneStack::start::<Recording>(&mut log);
    assert_eq!(
        stack.apply::<Recording>(&mut log, EngineAction::PushScene(Make("B"))),
        Flow::Restart
    );
    assert_eq!(
        stack.apply::<Recording>(&mut log, EngineAction::SwitchToScene(Make("C"))),
        Flow::Restart
    );
    assert_eq!(names(&stack), vec!["A", "C"]);
    assert_eq!(counts(stack.scene(0).unwrap()), (1, 1, 0, 0));
    assert_eq!(counts(stack.scene(1).unwrap()), (1, 0, 0, 0));
    assert_eq!(log, vec!["init A", "create B", "create C"]);
}

#[test]
fn nothing_and_toggle_go_on_to_render() {
    let mut log: Vec<String> = Vec::new();
    let mut stack: SceneStack<Scene> = SceneStack::start::<Recording>(&mut log);
    let context: EngineContext<()> = EngineContext::default();
    assert_eq!(stack.apply::<Recording>(&mut log, EngineAction::Nothing), Flow::Render);
    assert_eq!(
        stack.apply::<Recording>(&mut log, EngineAction::ToggleFullScreen),
        Flow::ToggleFullScreen
    );
    assert_eq!(stack.apply::<Recording>(&mut log, EngineAction::default()), Flow::Render);
    assert_eq!(stack.apply::<Recording>(&mut log, EngineAction::Quit), Flow::Stop);
    stack.render::<Recording>(&context, &mut log, &());
    assert_eq!(names(&stack), vec!["A"]);
    assert_eq!(counts(stack.active().unwrap()), (1, 0, 0, 1));
    assert_eq!(log, vec!["init A", "render A"]);
}

#[test]
fn only_the_active_scene_hears_of_events_and_reloads() {
    let mut log: Vec<String> = Vec::new();
    let mut stack: SceneStack<Scene> = SceneStack::start::<Recording>(&mut log);
    stack.process_event::<Recording>(&1);
    stack.apply::<Recording>(&mut log, EngineAction::PushScene(Make("B")));
    stack.process_event::<Recording>(&2);
    stack.on_cache_updated::<Recording>(&mut log, PathKey::new("assets/textures/a.png"));
    assert_eq!(stack.scene(0).unwrap().events, vec![1]);
    assert_eq!(stack.scene(1).unwrap().events, vec![2]);
    assert!(stack.scene(0).unwrap().reloaded.is_empty());
    assert_eq!(stack.scene(1).unwrap().reloaded, vec!["assets/textures/a.png"]);
}

#[test]
fn logic_hands_back_what_the_scene_asks_for() {
    let mut log: Vec<String> = Vec::new();
    let mut stack: SceneStack<Scene> = SceneStack::start::<Recording>(&mut log);
    let context: EngineContext<()> = EngineContext::default();
    let action = stack.logic::<Recording>(&context, &mut log, &());
    assert!(matches!(action, EngineAction::PushScene(Make("B"))));
    let action = stack.logic::<Recording>(&context, &mut log, &());
    assert!(matches!(action, EngineAction::Quit));
    let action = stack.logic::<Recording>(&context, &mut log, &());
    assert!(matches!(action, EngineAction::Nothing));
    assert_eq!(names(&stack), vec!["A"]);
}

#[test]
fn the_entry_scene_may_come_from_a_constructor() {
    let mut log: Vec<String> = Vec::new();
    let stack: SceneStack<Scene> = SceneStack::start_with::<Recording, _>(&mut log, Make("Z"));
    assert_eq!(names(&stack), vec!["Z"]);
    assert_eq!(counts(stack.active().unwrap()), (1, 0, 0, 0));
    assert_eq!(log, vec!["create Z"]);
}

#[test]
fn a_pushed_scene_that_pops_restores_the_one_below() {
    let mut log: Vec<String> = Vec::new();
    let mut stack: SceneStack<Scene> = SceneStack::start::<Recording>(&mut log);
    stack.apply::<Recording>(&mut log, EngineAction::PushScene(Make("B")));
    stack.apply::<Recording>(&mut log, EngineAction::PushScene(Make("C")));
    assert_eq!(names(&stack), vec!["A", "B", "C"]);
    assert_eq!(stack.apply::<Recording>(&mut log, EngineAction::PopScene), Flow::Restart);
    assert_eq!(names(&stack), vec!["A", "B"]);
    // Only the scene that became active again is resumed.
    assert_eq!(counts(stack.scene(0).unwrap()), (1, 1, 0, 0));
    assert_eq!(counts(stack.scene(1).unwrap()), (1, 1, 1, 0));
}
