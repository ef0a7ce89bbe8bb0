# dungeonctl

Protocols of the smart electronic toys created by DG-LAB: the Coyote 3 and the PawPrints.

- `src/` is the verified library. It builds and reads the packets of the devices, keeps the
  intensity handshake of the Coyote 3, renders its waveform frames, and decides the steps of every
  connection. All of it works on plain values.
- `app/` holds the Bluetooth clients. They perform the steps that the library decides on.
- `tests/` runs the library.
