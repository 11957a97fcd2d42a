# phi_recorder

A chart-video recorder split in two crates.

`src/` is a library verified with Verus. It holds the logic that decides things:

- `protocol`: the framed byte protocol between the library and its renderer host (magic,
  version, message type, request id, payload size, flags, payload), with reading, writing and
  the laws that tie them together (a written frame reads back, a cut frame is an error).
- `session` and `host`: the renderer host's decision for each incoming frame (hello
  handshake, one render job at a time, controls reaching only the running job, shutdown),
  and the library's side of the handshake.
- `control` and `job`: pause, resume and cancel requests; the states a job moves through; the
  dispatcher step that relays requests to the host and events back to the caller.
- `abi`, `context` and `view_fields`: the plain values of the C interface: status codes, struct
  headers, string copies from caller views, output-buffer writes, the render context.
- `ffmpeg`, `encoder`, `graphics`, `readback` and `audio`: FFmpeg argument lists, the choice of
  video encoder, software-renderer detection, YUV readback sizes and PCM sample placement.
- `config`, `request` and `validation`: the integral checks of a render configuration.
- `text`, `decimal` and `le_bytes`: string, decimal and little-endian helpers with their
  specifications.

`app/` is ordinary Rust around the library: the `extern "C"` entry points and raw pointers,
JSON through serde, processes, threads and locks, the graphics and chart engine, and every
computation on floating-point values (timelines, audio filters, progress).

`tests/` exercises the library on concrete values.
