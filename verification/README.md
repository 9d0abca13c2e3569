# weather_station

Reads a Dreamlink WH1080 USB weather station once a period and publishes the
measurements to Home Assistant over MQTT, with English and Russian names.

- `src/` is the library, verified with Verus: the USB request frame and the
  checks on the station's answers, the decoding of a current-weather record,
  the rain-gauge spike filter, the search for the station among USB devices,
  the name tables, the device-status texts and diagnostics, the Home Assistant
  discovery records and topics, the wait until the next reading and the
  heartbeat counter.
- `app/` is the program around it: the configuration file, USB transfers,
  the MQTT connection, JSON encoding, the clock, and the floating-point
  measurements (temperatures, dew point, wind chill, speeds, rain, pressure).
- `tests/` runs the library on concrete values.
