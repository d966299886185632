# egl

A C-style EGL binding whose decisions are verified with Verus.

- `src/types.rs`: EGL's C types as plain integers (handles by their
  address, `0` being the null handle) and the constants of the EGL headers.
- `src/error.rs`: `EglCallError`, one variant per EGL entry point that can
  fail, and `EglCallResult`.
- `src/calls.rs`: for each call of the binding, the verified rule that
  turns what libEGL answered (a status, a handle, or a status and a count)
  into the call's result, and the computation of the arguments that the
  binding derives (attribute lists checked to be null or terminated
  inside the slice, `EGLint` lists widened to the `EGLAttrib` words that
  `eglGetPlatformDisplay` reads, buffer capacities, the
  NUL-terminated name given to `eglGetProcAddress`), and the reading of
  `eglGetProcAddress`'s answer (null is no function).
- `src/laws.rs`: properties shared by all calls, proved.
- `app/lib.rs`: the binding itself: the `extern "C"` declarations of
  libEGL, and one function per EGL call that makes the call and hands the
  answer to the rule of the same name.
