# reactionlab

A desktop reaction time trainer with three tests: a simple reaction time test, a
click timing test with a moving target, and a click timing test on video clips.

## Layout

- `src/` is the verified library. It holds the round state machines of the
  three tests (time in nanoseconds, read from a monotonic clock by the caller;
  for the click timing test, the caller judges where the moving target is when
  a click lands), run file naming, listing and date tests, the choice of the
  ten latest runs for the history chart, frame scaling, ffprobe's stream
  entries and ffmpeg error reports, and the book-keeping of video
  pre-extraction. A run is stamped with the local time at which it starts.
  Contracts state each result exactly, except where it comes from a random draw
  or the clock: there they state what holds of every draw, and the rule that
  turns a draw into a choice is a function of its own with an exact contract.
  Calls into `chrono` (parsing and formatting dates), `rand` (random draws) and
  the standard library's integer parsing go through small trusted wrappers.
- `app/` is the egui application around the library: drawing, file and
  process I/O, the video decoder, the preload worker thread, and the
  floating-point parts (target motion and click judgement, statistics, frame
  rates).
- `tests/` exercises the library on concrete values.
