# soundcloud-rs

An asynchronous client for the SoundCloud v2 API whose decisions are proved
correct with Verus.

- `src/` is the verified library: resource paths and request URLs, the
  status check of responses, the retry policy for expired client ids,
  proxy refreshing, client-id discovery in page and script text (through the
  `regex` crate), transcoding selection, download planning and the text
  helpers these rest on.
- `app/` holds the `Client` that performs the HTTP exchanges (`reqwest`,
  `tokio`), writes files, runs FFmpeg (`ffmpeg-sidecar`) and deserializes
  responses (`serde`), asking the library at each decision.
- `tests/` runs the library on concrete inputs.
