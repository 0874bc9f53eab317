# rmk

The decision logic of a keyboard firmware, verified with Verus.

- `src/` is the library. Each module takes events, readings and times
  (milliseconds) as plain values, updates its state, and says what to send or
  when to wake up next. Contracts state the results exactly, over spec
  functions. Public proof functions state the properties that relate several
  calls: press then release gives back the earlier state, what a read gives
  back after a write, and so on.
- `app/` is the async runtime around the library: the traits that devices
  and lighting backends implement, and the device loops that do the bus
  transfers and the waiting.
- `tests/` has the concrete scenarios.

Main areas:

| area | modules |
|------|---------|
| key behaviors | `oneshot`, `sticky_key`, `sticky_actions`, `sticky_mod`, `tabber`, `caps_word`, `combo`, `combo_step`, `decision`, `held_buffer`, `morse`, `fire_held`, `fork`, `modifiers`, `mode`, `key_actions`, `normal_action`, `keyboard_macros`, `macro_runner` |
| mouse keys | `mouse`, `key_mouse` |
| pointing devices | `pointing`, `pointing_device`, `auto_mouse_layer`, `joystick`, `iqs5xx`, `iqs9151`, `pmw3360`, `pmw3610` |
| other inputs | `rotary_encoder`, `encoder_state`, `adc`, `battery`, `steno` |
| host protocol | `via`, `via_keycode`, `vial_lock`, `rgb_matrix` |
