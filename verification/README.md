# goobler

A desktop noise generator: it plays a chosen colour of noise through a filter
chain and blanks the screen so one can sleep.

- `src/` is the verified library (Verus): noise colours and their menu order
  (`config`), the application's mode machine (`state`), the arrangement of
  output devices, device lookup and sample-rate choice (`audio::devices`),
  the stereo frame schedule of the noise source (`audio::stream`), the black
  screen and the settings menu with its keyboard handling
  (`ui::screens`), and the per-frame decisions of the application (`ui::app`).
- `app/` is the program around it: the egui/eframe window, the cpal/rodio
  audio output, the settings file, and the signal path (noise generators,
  biquad filters, mixing), which works on floating-point samples.
- `tests/` exercises the library.
