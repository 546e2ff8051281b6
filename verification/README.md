# rust_camera

The logic of a realtime camera application for Windows, verified with Verus: decoding
camera images, keeping only the newest frame, the application's state, the capture and
face-tracking loops, downloads, and the shared memory of a virtual camera.

- `src/` is the library. Its functions state in their contracts what they return or
  change; only of what is found in a queue nothing is claimed, since that is up to the other
  threads. Functions named `law_..` state what holds of several of them together.
- `app/` is the program around it: threads, devices, files, the network, the window, and
  everything in floating point. Where it has to act step by step, a state machine of the
  library says what to do next, and the program reports what came of it.
- `tests/` runs the library on concrete values.

What the library takes on trust are the functions marked `external_body`, which call
`image`, `egui`, `nokhwa`, `crossbeam-channel` and `str::to_lowercase`; each says what it
claims of them.
