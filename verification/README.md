# rdpkit

Verified building blocks of an RDP client, server and gateway, written in
Verus: every function in `src/` carries a contract that Verus proves.

## Layout

- `src/` — the verified library.
  - `avc`, `avc444`, `yuv`, `frame`: H.264 AVC420/AVC444 bitmap streams,
    Annex B / AVC conversion, YUV 4:4:4 reconstruction from the two AVC444
    views, plane packing and frame cropping.
  - `gfx`: the graphics pipeline client (capability negotiation, surfaces,
    frames and their acknowledgements, wire-to-surface dispatch).
  - `autodetect`, `logon`, `x224`: network auto-detection, logon info and
    auto-reconnect cookies, and the I/O-channel decisions of a session.
  - `rdpeusb`: the USB redirection messages (headers, capabilities, device
    messages, TS_URB headers).
  - `gateway`: host-pattern authorization, the connection handshake as a
    state machine, and the WebSocket byte-stream buffer of the relay.
  - `client`: connection profiles and the launcher form, frame pacing and
    presentation, window input, titles and exit codes, reconnect policy.
  - `server`: capability negotiation, MCS routing and event batching of a
    server session.
  - `audio`: playback buffering, stream setup and format handling.
- `tests/` — tests run against the compiled library.
- `app/` — the parts that do I/O or need serde, floating point or async
  runtimes: profile and policy files, the relay's byte copying, colour
  conversion, the audio callback driver.
