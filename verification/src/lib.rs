//! Screen layout, cursor handling, status-register decoding and the
//! control sequences of a set of Wio Terminal peripheral programs, with
//! their contracts proved by Verus. Everything that touches the hardware
//! lives outside this crate and only executes the plans computed here.

pub mod canvas;
pub mod font;
pub mod terminal;
pub mod flash;
pub mod flash_check;
pub mod wifi;
pub mod sdcard;
pub mod microphone;
pub mod buzzer;
pub mod accelerometer;
