# serial_unix

Serial ports on Linux terminal devices, with the logic verified by Verus.

- `src/` is the library. `settings` reads and writes the parameters of a serial line in the state
  of a terminal device: baud rate, character size, parity, stop bits and flow control. `port` says
  which system calls open a device, read and write its settings, drive its modem lines, move bytes
  and close it, and what the replies come to. `wait` says when a device is ready. `settings_laws`
  and `port_laws` hold what is proved of them as a whole. `platform` takes the numbers of the
  terminal interface from the `libc` crate.
- `app/` makes the system calls and offers ports with `std::io::Read` and `std::io::Write`.
- `tests/` runs the library.

The numbers that `platform` claims are those of Linux on the architectures with the generic
terminal layout: x86, x86_64, arm, aarch64, riscv and s390x. `app/` does not
compile for any other.
