//! Verified core logic of a keyboard firmware: key behaviors (one-shot,
//! sticky, tap-hold and morse keys, combos, forks, tabber, macros, mouse
//! keys), pointing devices and their sensors, analog inputs and battery,
//! and the Vial/VIA host protocol. The I/O, the waiting and the async plumbing are
//! the caller's: each stateful piece takes the events and readings and
//! tells what to send or when to wake up.

pub mod arith;
pub mod pointing;
pub mod event;
pub mod pointing_device;
pub mod rotary_encoder;
pub mod encoder_state;
pub mod iqs9151;
pub mod bounded;
pub mod keycode;
pub mod auto_mouse_layer;
pub mod oneshot;
pub mod tabber;
pub mod mode;
pub mod action;
pub mod via_keycode;
pub mod decision;
pub mod mouse;
pub mod rgb_matrix;
pub mod joystick;
pub mod steno;
pub mod keyboard_macros;
pub mod vial_lock;
pub mod via;
pub mod combo;
pub mod sticky_key;
pub mod key_mouse;
pub mod iqs5xx;
pub mod battery;
pub mod adc;
pub mod pmw3360;
pub mod pmw3610;
pub mod sticky_mod;
pub mod held_buffer;
pub mod caps_word;
pub mod modifiers;
pub mod morse;
pub mod fork;
pub mod sticky_actions;
pub mod key_actions;
pub mod macro_runner;
pub mod fire_held;
pub mod combo_step;
pub mod normal_action;
