# phasm-av1

Encodes a group of pictures (GOP) with AV1 and keeps what the entropy coder
recorded of each frame. The driver settles the invariants of each frame, chains
the references from frame to frame, and optionally refines a frame before it is
encoded. The codec itself is supplied by the program, as an implementation of
`encoder::FrameEncoder`.

* `src/` is the driver, verified with Verus. Its contracts say which calls the
  driver makes of the codec, on which arguments and in which order, and what
  becomes of each reply. They take nothing of the replies for granted, and hold
  of every codec.
* `src/laws.rs` proves what follows for every run.
* `app/` reads the environment variable that switches the refinement on.
* `tests/` runs the driver with a codec that writes down each call.
