//! Material 3 Expressive component logic: localisation catalogue, sensitive
//! text input, design tokens and component state.

pub mod argb;
pub mod button;
pub mod button_group;
pub mod button_tokens;
pub mod carousel;
pub mod color;
pub mod components;
pub mod icon_button;
pub mod i18n;
pub mod rail;
pub mod recording;
mod outside;
pub mod sensitive;
pub mod shape;
pub mod slider;
pub mod split_button;
pub mod switch;
pub mod sensitive_input;
pub mod strings;
pub mod text;
