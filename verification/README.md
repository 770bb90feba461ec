# airqual

Firmware logic of an ESP32-S2 air-quality monitor built around a Sensirion
SEN55, written in Verus.

- `src/` is the verified library:
  - `sensiron_sensor_reading`: the SEN55 reply (`Sen55Frame`), its CRC-8
    check (`validate_crc`), parsing and packing, and the messages on the
    internal bus;
  - `sensor`: the measurement loop as a state machine (`SensorPhase::step`);
  - `display`: what the screen shows (`Screen::show`);
  - `net`: the Wi-Fi supervisor (`WifiPhase::step`) and the uplink to the
    collecting host (`UplinkPhase::step`, `payload`);
  - `run`: runs of a state machine over a sequence of events, over which
    the laws of the uplink and the Wi-Fi supervisor are stated;
  - `byte_order`, `text`: the calls into `zerocopy` and `heapless`.
- `app/` is the firmware around it: board bring-up, the embassy tasks that
  perform the actions the state machines ask for, and `main`.
- `tests/` exercises the library on concrete values.
