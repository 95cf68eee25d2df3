//! Lifecycle logic of a windowed real-time renderer: the surface state and its
//! resize rules, the packed per-frame uniform record, and the event loop's
//! decisions, from window events to the commands its host carries out.
pub mod event_loop;
pub mod scene;
pub mod surface;

pub use event_loop::{AcquireError, Command, Key, LoopEvent, LoopState, Phase, Target};
pub use scene::{slice_to_array, LoweredScene, LOWERED_SCENE_BYTES, LOWERED_SCENE_WORDS, UNIFORM_ALIGNMENT};
pub use surface::{choose_format_index, choose_surface_format, SurfaceConfig, SurfaceSize, SurfaceState};
