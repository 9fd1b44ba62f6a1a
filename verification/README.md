# pmlab

Verified logic of a set of RP2040 lab programs (Embassy firmware).

- `src/` — the library, verified with Verus:
  - `pwm` — PWM slice settings and the compare value for a duty ratio;
  - `traffic` — the three-light signal that advances on both buttons;
  - `intensity` — brightness stepped by two buttons;
  - `imu` — MPU-6500 SPI commands and sample decoding;
  - `bmp280` — BMP280 calibration, raw reading and temperature compensation;
  - `eeprom` — the stored-temperature record of the AT24C256;
  - `i2c_scan` — the addresses probed by a bus scan;
  - `bytes` — big- and little-endian integer encodings.
- `tests/` — tests of the library on concrete values.
- `app/` — the firmware: pins, buses, timers and logging around the library.
