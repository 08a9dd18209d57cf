# pyro_fw

Firmware of a pyro board: it samples the board's ADC channels, arms and disarms two pyro
channels on command, and talks CAN.

- `src/` is the library, verified with Verus. It holds the decisions and computations:
  - `adc`: order of the scan, averaging, conversion to millivolts and tenths of a degree,
    and who gets which value;
  - `pyro_channel` and `control_loop`: the state of the pyro channels, the pin writes that
    they ask for, and what commands and telemetry ticks do;
  - `io_threads`: CAN frames, what follows from a message once it was read, and the time
    reference;
  - `board`: clocks, buffer sizes and intervals.
- `app/` is the firmware around it: it drives the pins, the ADC and the CAN peripheral, reads
  messages by their definitions, and runs the tasks.
- `tests/` runs the library on concrete values.

Proof functions named `law_*` state what holds of the library as a whole.

`app/` needs the crate `south_common` (message definitions), and `FW_VERSION` and `FW_HASH`
in the environment of the build. The features in `Cargo.toml` are those for a host; for the
board, `embassy-executor` takes `platform-cortex-m` in place of `platform-spin`.
