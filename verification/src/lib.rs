//! A terminal typing trainer's verified core: the page state machine driven by
//! actions, the countdown timer it leans on, the typing-progress rules, and the
//! speed arithmetic. Storage, rendering and input devices stay outside; the
//! controller hands its caller the store commands to perform and takes the
//! outcomes back.

pub mod constants;
pub mod controller;
pub mod record;
pub mod state;
pub mod timer;
pub mod util;
pub mod words;
