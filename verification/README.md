# mado

The verified core of MADO, a borderless window that previews a USB camera or
plays a playlist of video files.

- `src/` is the library, verified with Verus: the playlist and its loop modes
  (`playlist`), the camera lists and the frame file of the capture service
  (`camera`, with `camera/macos.rs` and `camera/windows.rs` for the two
  listers and `camera/json.rs` for the members of the JSON objects they
  read), the choice of audio output device (`audio`), the settings paths
  (`settings`), the decoder loop's decisions, row packing and the sample queue
  (`video`), the window's state machine (`app_state`), what a pointer gesture
  on the window does (`gesture`) and the hue popup's interaction (`hue_wheel`).
- `app/` is the program around it: the egui window, the camera service and
  reader thread, ffmpeg decoding, RtAudio output, the settings file and the
  colour arithmetic.
- `tests/` runs the library on concrete values.
