# hex_gui_core

The core of a CAN motor workbench, written in Verus: every function states what it
returns or changes, and Verus proves it.

Ten functions are believed instead of proved, since each only calls another crate:
`new_standard`, `new_extended`, `new_data`, `new_fd`, `new_remote`, `exact_standard`,
`pass_all_standard` and `pass_all_extended` in `src/can.rs` (`can_transport`),
`build_rpdo_config_writes` in `src/canopen.rs` and `friendly_name` in `src/motor.rs`
(`hex_motor`). Their doc comments say what is claimed of the call.

- `src/analyzer/` — the bus analyzer: a ring of recent frames, statistics per
  identifier, cursor-based polling, manual sending.
- `src/filter.rs` — the analyzer's display filters.
- `src/device_registry.rs`, `src/dto.rs`, `src/motor.rs` — which panel a device opens,
  and how it is shown.
- `src/imu.rs` — IMU sessions.
- `src/smartknob/` — the haptic knob: modes, motor bring-up, the decisions of the
  haptic loop, its reports.
- `src/can.rs`, `src/canopen.rs`, `src/text.rs`, `src/bits.rs` — frames, object writes,
  number formats and bit patterns underneath.
- `app/` — buses, tasks, clocks, floating point and serialized forms around the core.
- `tests/` — the core on concrete values.

The core holds no floating-point numbers. Measured numbers pass through by their bit
patterns, decimal settings are whole numbers of a small unit, and rates are fractions;
`app/` turns them into numbers.
