# gst_synth

A keyboard synthesizer: a GStreamer pipeline makes the sound and an oscilloscope
picture, a GTK window holds the controls, and the computer keyboard plays notes.

`src/` is the verified library. It holds every decision the program makes:

- `types` – notes, wave forms, settings, commands and widget events;
- `pitch` – the frequency of each note in each octave, in hundredths of a hertz;
- `keymap` – which computer key stands for which command;
- `keyboard` – the key press/release handler with its repeat timer;
- `generator` – the tone generator: how each command changes its state and what
  it asks of the audio elements;
- `envelope` – the timing of a note's fade-out;
- `octave`, `piano_key`, `waveform_select` – the octave buttons, the on-screen
  piano keys and their highlighting, and the wave-form buttons.

Each state machine comes with spec functions for its next state and its actions,
and with proof functions for the properties that span several calls.

`app/` is the program around it: it builds the pipeline and the window, turns
toolkit events into the library's plain values, and performs the actions the
library returns. Floating-point work (volumes, knob positions, drawing) stays there.
