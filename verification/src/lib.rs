//! Core of the Pinput bridge: the gamepad record shared with PICO-8 and
//! WASM-4 cartridges through their GPIO memory, the rules that find a
//! runtime and its GPIO area, and the per-frame synchronisation decisions.

pub mod constants;
pub mod controller;
pub mod detector;
pub mod engine;
pub mod error;
pub mod flags;
pub mod gamepad;
pub mod haptic;
pub mod memory;
pub mod paths;
pub mod runtime_connection;
pub mod search;
