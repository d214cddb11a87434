# as2p_server

The PC side of AS2P (Audio Stream to Phone): it captures what the PC plays,
encodes it with Opus and streams it over UDP to a phone on the same network.

- `src/` is the verified library (Verus):
  - `session`: the server's control loop as a state machine (listening,
    streaming, stopping, idle), from events to actions, with its laws.
  - `protocol`: the datagram formats: parsing of client requests and framing
    of audio packets.
  - `bytes`: little-endian integer encoding.
  - `encoder`: validation of a requested bitrate and complexity, and the
    encoder settings that follow from them.
  - `capture`: restart and silence decisions of capture, and cutting samples
    into 20 ms frames.
  - `discovery`: the mDNS service description.
- `app/` is the program around it: sockets, tokio timers, audio capture
  (cpal), the Opus encoder (audiopus), the floating-point fader, and the
  mDNS daemon.
- `tests/` holds the tests.
