# blaze_ftc

A fast bridge between a robot controller's Java runtime and its expansion hubs,
written in Verus.

- `src/` is the verified library: the hub wire format (packet framing, checksums,
  command numbering and every command payload), the per-hub state that decides which
  writes reach the hardware, the I2C drivers of the odometry and encoder boards, the
  message-number remapping that lets the stock SDK share the serial line, the
  repeating-command scheduler and the frame reader. Every public function is verified;
  all but the stopwatch (whose readings come from the clock) state their results in a
  contract, and the laws that relate functions (decoding undoes encoding, remapped
  message numbers never collide, scheduled runs come out in time order, ...) are
  stated as proof functions beside them.
- `app/` is the unverified shell around it: JNI entry points, serial port and threads,
  floating-point conversions and the user-facing robot traits.
- `tests/` runs the library on concrete packets and states.
