# camgylph

A terminal camera viewer that draws webcam frames as colored ASCII, with its logic
verified by Verus.

- `src/` is the verified library: command-line parsing (`config`), frame sampling and
  luma (`frame`), the ASCII mapping, ramps and color escapes (`ascii`), the row-diffing
  terminal renderer and key bindings (`terminal`), the ffmpeg command lines and error
  classification (`camera`), and the session restart policy (`runtime`). Text helpers
  (decimal formatting and parsing, line splitting, substring search) live in `text`.
- `app/` is the program around it: it runs ffmpeg, reads the keyboard and the terminal
  size through crossterm, keeps the frame timing, and computes the floating-point parts
  (tone curve, size of the centered crop, gamma and contrast values).
- `tests/` exercises the library on concrete inputs.
