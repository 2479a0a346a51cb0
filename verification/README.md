# akriveia

The core of an indoor emergency-location system. Beacons fixed on the floor
plans measure their distance to the tags that people wear and report over
UDP; a server keeps the beacons in the right state (idle, or active during
an emergency), watches that they answer, and locates each tag from the
distances of three beacons.

`src/` is the library, verified with Verus:

- `address` — beacon (8-byte) and tag (2-byte) hardware addresses: parsing,
  printing, database encoding. The beacon address is read and printed by
  the library's own code: the `eui64` crate that offers such an address
  type is not in the registry this project is built from.
- `messages` — the text protocol with the beacons: reading replies and
  range reports, writing commands.
- `manager` — the beacon manager's decisions: commands, health checks,
  retries and reboots, replies.
- `history` — per-tag windows of recent distances and the matching of
  averaged distances to placed beacons.
- `routes`, `urls`, `beacon_query`, `user_query` — the web interface's
  routes and the request handlers' decisions.
- `root`, `login`, `forms`, `status`, `map_view`, `beacon_list`,
  `map_list`, `user_list`, `diagnostics`, `user_message`, `lists` — the web
  front end's logic: the pages and the navigation bar offered on each, the
  login page, the user, beacon and floor-plan forms (input, validation,
  replies), the status board and its tables, the map view, the list pages
  (sorted by name), and the bounded diagnostics buffer. Each page takes in
  a message and returns the requests it makes; drawing, and reading
  numbers with a fraction (coordinates, scales), are the caller's.
- `simulator` — simulated beacons that answer commands and report ranges,
  for running the system without hardware.
- `usb` — the endpoint a USB receiver is read from, found in the
  device's descriptors.
- `network`, `model`, `state`, `error`, `text`, `maps` — shared types and
  helpers.

`app/` is a UDP gateway around the library: sockets, the clock, timers, the command
line, the random draws of the simulated beacons, and the floating-point arithmetic (distances, averages,
trilateration). `tests/` exercises the library.
