//! A minimal application runtime for real-time simulation loops.
//!
//! The crate drives a fixed sequence of named stages once per frame, lets
//! independently written systems register into those stages with priority
//! ordering, hands them a type-keyed resource registry together with an
//! entity store, and provides a fixed-timestep accumulator so simulation
//! logic can run at a constant rate independent of the frame rate.

pub mod app;
pub mod config;
pub mod events;
pub mod input;
pub mod platform;
pub mod plugin;
pub mod registry;
pub mod schedule;
pub mod texture;
pub mod timing;
pub mod world;

pub use app::App;
pub use config::{Config, ConfigContainer, Paths};
pub use events::Events;
pub use input::Input;
pub use platform::PollResult;
pub use plugin::{EngineSystem, InputPlugin, NullRenderer, Plugin};
pub use registry::DiContainer;
pub use schedule::{Priority, Schedule, Stage, System};
pub use texture::{TextureData, TextureFormat, TextureHandle, TextureManager};
pub use timing::{Time, TimeFixed, TimeState};
pub use world::EntityStore;
