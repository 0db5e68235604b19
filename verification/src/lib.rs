//! Core logic of a GPIO-driven bedside clock: segment encoding for two LED
//! displays, the shared clock state, PWM duty-cycle timing, the ceiling
//! display's serial frame layout, resistor-ladder button classification, and
//! the audio-player control decisions.  All hardware access (pin ownership,
//! bit-banging, interrupt waits, process I/O) lives outside this library and
//! exchanges plain values with it.

pub mod ceiling;
pub mod clock_data;
pub mod keys;
pub mod player;
