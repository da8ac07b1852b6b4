# relic_node

Firmware core of an ESP32 node that opens a hidden WPA2 access point and
answers a websocket guessing endpoint.

- `src/` is verified with Verus: the endpoint's transition function
  (`guess_socket`), the access-point settings (`network::access_point`), the
  protocol workers and their session queues (`protocols`), the settings and
  their default values (`config`), helper conversions (`helpers`) and the
  node identifier (`uuid`), where a fixed nil UUID stands in for the
  identifier of the build.
- `app/` is the firmware around it: the settings read from `cfg.toml`, Wi-Fi,
  the HTTP server and the socket I/O, which performs the actions that
  `guess_socket::step` returns.
- `tests/` exercises the library on concrete values.
