use leek::context::{EngineContext, Keyboard, MouseState, Scancode};
use leek::debug::{DebugStats, FPS_HISTORY_LEN};
use leek::engine::{route_event, EngineEvent, EventRoute, SCANCODE_F11, SCANCODE_F12};
use leek::game_controllers::GameControllerManager;
use leek::opengl::find_sdl_gl_driver;
use std::collections::{HashMap, HashSet};

const A: Scancode = 4;
const B: Scancode = 5;

fn set(codes: &[Scancode]) -> HashSet<Scancode> {
    codes.iter().cloned().collect()
}

#[test]
fn newly_pressed_keys_are_reported_once() {
    let mut keyboard = Keyboard::new();
    let held: Vec<Vec<Scancode>> = vec![vec![], vec![A], vec![A], vec![A, B], vec![B]];
    let expected: Vec<Vec<Scancode>> = vec![vec![], vec![A], vec![], vec![B], vec![]];
    for (now, newly) in held.iter().zip(expected.iter()) {
        let (snapshot, pressed) = keyboard.advance(now);
        assert_eq!(snapshot, set(now));
        assert_eq!(pressed, set(newly));
    }
}

#[test]
fn a_key_pressed_again_is_reported_again() {
    let mut keyboard = Keyboard::new();
    assert_eq!(keyboard.advance(&vec![A]).1, set(&[A]));
    assert_eq!(keyboard.advance(&vec![]).1, set(&[]));
    assert_eq!(keyboard.advance(&vec![A, A]).1, set(&[A]));
    assert_eq!(keyboard.advance(&vec![A, B]).1, set(&[B]));
}

#[test]
fn context_answers_from_its_sets() {
    let mut controllers: HashMap<u32, &'static str> = HashMap::new();
    controllers.insert(3, "pad");
    let context = EngineContext::new(
        set(&[A, B]),
        set(&[B]),
        16,
        1234,
        MouseState { buttons: 5, x: 10, y: -20 },
        controllers,
    );
    assert!(context.is_key_down(A));
    assert!(context.is_key_down(B));
    assert!(!context.is_key_down(6));
    assert!(!context.is_key_pressed(A));
    assert!(context.is_key_pressed(B));
    assert_eq!(context.delta_time, 16);
    assert_eq!(context.elapsed_time, 1234);
    assert_eq!(*context.mouse_state(), MouseState { buttons: 5, x: 10, y: -20 });
    assert_eq!(context.controllers.get(&3), Some(&"pad"));
}

#[test]
fn default_context_is_empty() {
    let context: EngineContext<u8> = EngineContext::default();
    assert!(!context.is_key_down(A));
    assert!(!context.is_key_pressed(A));
    assert_eq!(context.delta_time, 0);
    assert_eq!(context.elapsed_time, 0);
    assert_eq!(*context.mouse_state(), MouseState { buttons: 0, x: 0, y: 0 });
    assert!(context.controllers.is_empty());
}

#[test]
fn fps_samples_move_up_by_one_place() {
    let mut stats = DebugStats::default();
    assert_eq!(FPS_HISTORY_LEN, 60);
    assert_eq!(stats.fps_history(), &[0u16; 60]);
    assert_eq!(stats.fps_latest(), 0);
    stats.insert_fps(58);
    stats.insert_fps(61);
    stats.insert_fps(60);
    assert_eq!(stats.fps_latest(), 60);
    assert_eq!(stats.highest_fps(), 61);
    let history = stats.fps_history();
    assert_eq!(history[59], 60);
    assert_eq!(history[58], 61);
    assert_eq!(history[57], 58);
    assert_eq!(history[56], 0);
    for sample in 1..=60u16 {
        stats.insert_fps(sample);
    }
    let expected: Vec<u16> = (1..=60).collect();
    assert_eq!(stats.fps_history().to_vec(), expected);
    assert_eq!(stats.highest_fps(), 61);
}

#[test]
fn stats_window_toggles() {
    let mut stats = DebugStats::default();
    assert!(!stats.window_open());
    stats.toggle();
    assert!(stats.window_open());
    stats.toggle();
    assert!(!stats.window_open());
    stats.set_window_open(true);
    assert!(stats.window_open());
}

#[test]
fn controllers_are_kept_by_instance_id() {
    let mut manager: GameControllerManager<String> = GameControllerManager::new();
    assert_eq!(manager.len(), 0);
    assert_eq!(manager.added_controller(7, "first".to_string()), None);
    assert_eq!(manager.added_controller(9, "second".to_string()), None);
    assert_eq!(manager.added_controller(7, "again".to_string()), Some("first".to_string()));
    assert_eq!(manager.len(), 2);
    let snapshot = manager.snapshot();
    assert_eq!(snapshot.get(&7), Some(&"again".to_string()));
    assert_eq!(snapshot.get(&9), Some(&"second".to_string()));
    assert_eq!(manager.removed_controller(7), Some("again".to_string()));
    assert_eq!(manager.removed_controller(7), None);
    assert_eq!(manager.len(), 1);
    // The snapshot is a copy.
    assert_eq!(snapshot.len(), 2);
}

#[test]
fn events_are_routed() {
    assert_eq!(route_event(EngineEvent::Quit, true), EventRoute::Stop);
    assert_eq!(
        route_event(EngineEvent::ControllerDeviceAdded { which: 2 }, false),
        EventRoute::OpenController(2)
    );
    assert_eq!(
        route_event(EngineEvent::ControllerDeviceRemoved { which: 5 }, false),
        EventRoute::CloseController(5)
    );
    assert_eq!(
        route_event(EngineEvent::ControllerDeviceRemoved { which: -1 }, false),
        EventRoute::CloseController(u32::MAX)
    );
    assert_eq!(
        route_event(EngineEvent::KeyUp { scancode: Some(SCANCODE_F12) }, true),
        EventRoute::ToggleInspectWindow
    );
    assert_eq!(
        route_event(EngineEvent::KeyUp { scancode: Some(SCANCODE_F11) }, true),
        EventRoute::ToggleDebugStats
    );
    assert_eq!(
        route_event(EngineEvent::KeyUp { scancode: Some(SCANCODE_F12) }, false),
        EventRoute::ToScene
    );
    assert_eq!(route_event(EngineEvent::KeyUp { scancode: Some(A) }, true), EventRoute::ToScene);
    assert_eq!(route_event(EngineEvent::KeyUp { scancode: None }, true), EventRoute::ToScene);
    assert_eq!(route_event(EngineEvent::Other, true), EventRoute::ToScene);
}

#[test]
fn a_context_can_be_copied() {
    let mut controllers: HashMap<u32, String> = HashMap::new();
    controllers.insert(1, "pad".to_string());
    let context = EngineContext::new(
        set(&[A]),
        set(&[A, B]),
        16,
        99,
        MouseState { buttons: 1, x: 2, y: 3 },
        controllers,
    );
    let copy = context.clone();
    drop(context);
    assert!(copy.is_key_down(A));
    assert!(!copy.is_key_down(B));
    assert!(copy.is_key_pressed(B));
    assert_eq!(copy.delta_time, 16);
    assert_eq!(copy.elapsed_time, 99);
    assert_eq!(*copy.mouse_state(), MouseState { buttons: 1, x: 2, y: 3 });
    assert_eq!(copy.controllers.get(&1), Some(&"pad".to_string()));
}

#[test]
fn the_opengl_driver_is_found_by_its_name() {
    let names = |list: &[&str]| -> Vec<String> { list.iter().map(|n| n.to_string()).collect() };
    assert_eq!(find_sdl_gl_driver(&names(&["software", "opengl", "opengles2", "opengl"])), Some(1));
    assert_eq!(find_sdl_gl_driver(&names(&["opengl"])), Some(0));
    assert_eq!(find_sdl_gl_driver(&names(&["software", "OpenGL", "opengl "])), None);
    assert_eq!(find_sdl_gl_driver(&names(&[])), None);
}
