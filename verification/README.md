# audio-convert-rs

A gRPC service that converts WAV audio to MP3 and M4A with FFmpeg, and to 8 kHz mu-law.
It listens on port 50051 unless told otherwise.

- `src/` is the core of the service, verified with Verus: what a request may ask for, in
  which order a conversion proceeds, how audio is cut into pieces, and what a client is
  told. Whatever needs files, the network, FFmpeg or floating-point arithmetic is asked
  for by a state machine, which is then told what came of it.
- `app/` carries that out: the server, the client, the calls to FFmpeg and to the
  resampler.
- `tests/` runs the core on examples.

The laws of the core, such as that an uploaded file is saved as it was sent or that the
channel writer never loses a byte, are the public proof functions whose names start with
`law_`.
