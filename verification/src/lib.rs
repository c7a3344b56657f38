use vstd::prelude::*;

pub mod artwork_sampling;
pub mod bounded_lru_cache;
pub mod capture_control;
pub mod capture_viewport;
pub mod diagnostics;
pub mod displayed_state;
pub mod double_rounding;
pub mod frame_pacing;
pub mod gallery_layout;
pub mod gradient;
pub mod inactivity;
pub mod keyboard;
pub mod layout;
pub mod lyric_motion;
pub mod metadata;
pub mod palette;
pub mod presentation;
pub mod presentation_state;
pub mod render_decision;
pub mod resolution;
pub mod runtime_event;
pub mod snapshot_stream;
pub mod status_symbol;
pub mod style;
pub mod text;
pub mod transition;
pub mod typography;

pub use frame_pacing::FramePacing;
pub use keyboard::{NavigationIntent, RendererAction, RendererKey, RendererKeyboard};

verus! {

} // verus!
