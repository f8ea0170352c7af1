# gvm_lights

Control of GVM 800D smart lights: the frames a light understands over
Bluetooth, the TCP protocol between the light server and its clients, and the
Home Assistant (MQTT) vocabulary of the bridge, as a library whose behaviour is
stated in contracts and proved with Verus.

- `src/` is the verified library. Each module states its model in spec
  functions (`command_text`, `event_bytes`, `decoded_frame`, `route_of`, ...)
  and its public functions are proved against them. Calls into outside
  crates (`hex`, `crc-any`, `itertools`, `bincode`, `bytes`) go through small
  trusted wrappers whose contracts say what the crate's source does.
- `tests/` runs the library on concrete values, among them the frames given in
  the protocol description.
- `app/` holds the programs around the library: the Bluetooth side of each
  light, the TCP server, the MQTT bridge, the command-line client and the
  stand-alone UDP and Bluetooth clients.

Run `app` with `server` (default), `mqtt` or `cli` as its first argument; the
server is configured through `APP_HOST`, `APP_PORT`, `APP_CLIENTS`,
`MQTT_NODE_ID`, `MQTT_USER` and `MQTT_PASSWORD`.
