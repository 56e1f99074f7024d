//! A small game-engine core: a keyed resource cache with shared handles and
//! hot reload, fixed-tick frame pacing, input edge detection and a scene stack.

pub mod action;
pub mod alto_utils;
pub mod cache;
pub mod codegen;
pub mod context;
pub mod debug;
pub mod engine;
pub mod font;
pub mod fps_counter;
pub mod game;
pub mod game_controllers;
pub mod keys;
pub mod load;
pub mod opengl;
pub mod resources;

pub use crate::action::EngineAction;
pub use crate::context::EngineContext;
pub use crate::game::{FromEngine, GameScene};
pub use crate::game_controllers::GameControllerManager;
