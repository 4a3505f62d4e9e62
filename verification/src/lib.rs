//! A minimal real-time pixel-drawing engine core.
//!
//! The crate owns the per-frame logic of a software framebuffer engine:
//! colour values and their blending ([`Pixel`]), an addressable pixel
//! buffer with clamped and periodic sampling, edge-triggered input state
//! derived from raw per-frame samples, and the per-frame bookkeeping of
//! the engine itself: compositing draws into the buffer, frames-per-second
//! accounting and cooperative termination.  Window management, input
//! polling and presentation belong to a display backend outside this
//! crate; the engine exchanges plain values with it.

mod engine;
mod input;
mod pixel;
mod sprite;

pub use engine::composited;
pub use engine::lemma_mask_mode;
pub use engine::lemma_stops_on_third_frame;
pub use engine::updates_run;
pub use engine::YapeEngine;
pub use engine::YapeError;
pub use engine::YapeResult;
pub use engine::MICROS_PER_SECOND;
pub use input::empty_state;
pub use input::lemma_pressed_released_exclusive;
pub use input::next_state;
pub use input::spec_key_index;
pub use input::state_after;
pub use input::ButtonState;
pub use input::KeyboardKey;
pub use input::MouseButton;
pub use input::KEY_COUNT;
pub use input::key_index;
pub use pixel::blank_pixel;
pub use pixel::blend_channel;
pub use pixel::blend_over;
pub use pixel::blend_weight;
pub use pixel::channel_mix_spec;
pub use pixel::lemma_blend_endpoints;
pub use pixel::lemma_channel_mix_bounds;
pub use pixel::packed_max;
pub use pixel::pixel_packed;
pub use pixel::Pixel;
pub use pixel::PixelMode;
pub use sprite::lemma_sample_full_extent;
pub use sprite::Sprite;
pub use sprite::SpriteFlip;
pub use sprite::SpriteMode;
