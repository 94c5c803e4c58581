# c92_decoder

The logic of a decoder for model locomotives that understands the Lenz and the Maerklin-Motorola
protocol, with contracts that Verus proves.

- `src/` is the library. `capture` turns the edges of the track signal into pulses, `ring_buffer`
  passes them on, `decoder` gives them to the protocol decoders of the crates `lenz-decoder` and
  `mm-decoder` (`lenz`, `mm`), and `loco` acts on the packets for its own address. `motor_control`
  regulates the motor by the back-EMF that `bemf` measures. `motor_laws` and `loco_laws` state what
  holds over any number of packets and ticks.
- `tests/` runs it.
- `app/` is the firmware for an STM32G031: peripheral setup, interrupt handlers and the main loop.

Output pins are plain values in the library. The firmware brings the pins to the levels that the
library asks for after each packet and each motor tick.
