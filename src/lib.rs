//! Lighting control for a microcontroller board: value remapping into PWM
//! duty ranges, a hue wheel, breathing, chase and meteor animations, random
//! colors, and a debounced button that toggles a lamp.
pub mod breathing;
pub mod color;
pub mod debounce;
pub mod meteor;
pub mod random_color;
pub mod remap;
