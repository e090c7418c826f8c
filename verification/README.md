# waveshare_watch

Firmware logic for a 368x448 AMOLED smartwatch (ESP32-S3, ES8311 codec,
AXP2101 power chip, PCF85063A clock, FT3168 touch, QMI8658 IMU, TCA9554
I/O expander), verified with Verus.

- `src/` is the verified library. Each module states its behaviour in
  `requires`/`ensures` over spec functions and views:
  - `peripherals/`: chip drivers, written as register scripts (`bus::RegStep`)
    plus decoders of the bytes that were read; HTTP request building and
    response parsing; BLE advertising commands.
  - `apps/`: the games and tools (2048, Tetris, Snake, Maze, Flappy, MP3
    player, recorder, settings, smart-home buttons) as state machines.
  - `ui/`: watch face, launcher, pages, T9 keyboard, seven-segment digits.
  - `drivers/`: framebuffer and QSPI pixel encoding.
- `app/` is plain Rust around the library: I2C, QSPI and network I/O, drawing
  with `embedded-graphics`, and the parts that use floating point.
- `tests/` runs the library on concrete values.

The public `lemma_*` proof functions state the properties that hold across
calls, for example that setting the clock and reading it back gives the same
time, or that each Tetris frame keeps the falling piece clear of the blocks.
