# yandex_upd_monitor

A monitor for the sensors of a bank vault. A simulator sends samples of a
room's temperature, humidity, pressure, door state and vibration over UDP; the
monitor receives them and reports an alert for each.

- `src/` is the verified library: the samples and the alert rules
  (`metrics`), ordering of binary32 readings on their bit patterns
  (`binary32`), decimal text (`decimal`), the in-memory logger (`logger`),
  the decisions of the receive loop and the mock samples (`receiver`), the
  monitor's count (`monitor`) and the simulator's settings (`settings`).
- `app/` holds what runs around it: the UDP sender and receiver, the
  serialisable form of a sample, the console logger, and the two programs.
