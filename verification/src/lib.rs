//! Verified core of an LED-strip animation controller: the pixel buffer of a
//! strip, the state machines of its animations, and the rules by which
//! incoming MQTT messages select and configure an animation.

pub mod color;
pub mod text;
pub mod strip;
pub mod animation;
pub mod scheduler;
pub mod rainbow_fade;
pub mod rainbow_chase;
pub mod mqtt;
