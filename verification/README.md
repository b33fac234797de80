# modbus_mqtt_bridge

A bridge that reads values from Modbus RTU devices and publishes them over
MQTT. This crate is its verified library; `app/` is the service program that
runs it on a computer.

Layout of `src/`:

- `text.rs`: splitting text into lines and fields, reading unsigned numbers.
- `registry_map.rs`: the registry map, one register to read per line.
- `modbus.rs`, `modbus/rtu.rs`: register reads, their RTU frames (built and
  checked by `rmodbus`), the reply-frame reader and the whole exchange as a
  state machine that the program drives.
- `configuration.rs`: the configuration and the UART settings it asks for.
- `cycle.rs`: the firmware's round of work (connect, publish every entry,
  disconnect, rest) as a step function that the firmware drives.
- `tasks.rs`: racing two futures.
- `status_led.rs`: the failure blink pattern.
- `logging.rs`: what the log can print.
- `firmware/`: the Pico W firmware's own registry-map format, Modbus and MQTT
  errors, the topic each entry is published under, and the first firmware's
  round of work.
