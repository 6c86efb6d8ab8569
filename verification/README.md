# render_to_video

Renders a recording, or a live stream of one, to a video file without opening a window.

A paused viewer is marched through the recording. Each frame is captured once the scene is complete
for its time, read back from the GPU while the next frame is rendered, and piped to `ffmpeg`.

The decisions are made by a library that is verified with Verus; what touches the viewer, the GPU, a
process, or the clock carries them out.

## Layout

- `src/` is the verified library.
  - `run`: which step of a whole run comes after which, for files and for live streams.
  - `capture`, `live`: the two record loops. `settle`: when a picture may be captured.
  - `recorder`: the frames that a run asks for, and what is counted. `readback`: the capture pipeline,
    its buffers, and the layout of their rows.
  - `schedule`, `timeline`, `live_timeline`: which timeline, and which times of it.
  - `wait`, `producer`, `clock`: waiting for data, within limits.
  - `command`: the arguments of the command, the encoder's session, how a run ends.
  - `encode`: the command line for `ffmpeg`, and what is known of the running process.
  - `compressed_video`, `definitions`, `textured_rect`: video messages and camera images.
  - `headless`: the loop of a viewer without a window.
  - `error`, `text`, `history`: errors in words, text, and sequences of observations.
- `app/` drives the viewer, the GPU and the `ffmpeg` process. Frame rates and time offsets, which are
  floating-point numbers, are handled here.
- `tests/` runs the library on concrete values.
