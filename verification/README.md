# wgpu_app

Support code for small `wgpu`/`winit` window applications.

- `src/` is the library, verified with Verus:
  - `math`: integer vectors and rectangles with checked arithmetic,
    overlap tests and centers, and the conversions between them;
  - `events`, `event`: the input-event types and the cursor and resize
    bookkeeping done while converting window-system events;
  - `frame`: when the event loop draws, reports a finished frame and reports
    a resize;
  - `geometry`: index data of triangle fans.
- `app/` holds what the verifier does not take: the event loop, the GPU
  surface, the floating-point vectors and matrices, and the conversions from
  `winit` types.
- `tests/` runs the library on concrete values.
