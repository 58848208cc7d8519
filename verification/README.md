# ffbeast_wheel_api

Report logic for the FFBeast steering wheel controller, verified with Verus.

- `src/` is the verified library: the wire enumerations and the setting-field type map
  (`enums`), little-endian codecs and the struct reader (`protocol::bytes`,
  `protocol::reader`), the output report builders (`protocol::buffers`), the decoders of
  feature and input reports (`protocol::reports`), the license key parser
  (`protocol::license`) and the per-connection state with its decisions (`session`).
- `app/` holds the HID device access (through `hidapi`), the floating-point conversions of
  raw position and torque, and the `WheelApi` type that ties them to the library.
- `tests/` exercises the library on concrete reports.
