//! Loader for PyxelEdit pixel-art documents: a zip archive holding a
//! `docData.json` metadata member plus per-layer and per-tile PNG members.
//!
//! The archive's JSON is decoded into a typed document model (`Pyxel`),
//! including the field transcoders the format calls for (hex colors in
//! AARRGGBB order, quadrant angles, millisecond durations, percentage
//! multipliers, and sparse integer-keyed maps standing in for dense arrays).

pub mod decimal;
pub mod deserialization;
pub mod error;
pub mod json;
pub mod loader;
pub mod pyxel;
pub mod version;

pub use decimal::parse_usize;
pub use decimal::u64_to_string;
pub use deserialization::deserialize_as_degrees;
pub use deserialization::deserialize_as_milliseconds;
pub use deserialization::deserialize_map_as_vec;
pub use deserialization::deserialize_multipliers;
pub use error::PyxelError;
pub use json::Json;
pub use pyxel::BlendMode;
pub use pyxel::Color;
pub use pyxel::decode_blend_mode;
pub use pyxel::hex_digit;
pub use pyxel::decode_document;
pub use pyxel::Animation;
pub use pyxel::Canvas;
pub use pyxel::Layer;
pub use pyxel::Palette;
pub use pyxel::Pyxel;
pub use pyxel::TileRef;
pub use pyxel::Tileset;
pub use version::Version;
pub use pyxel::load_from_memory;
