# z-audio-dsp

A realtime audio DSP library (generators, modulators, stereo effects, a
formula-synthesis VM and a polyphonic sampler) whose integer core is
verified with Verus.

* `src/` — the verified library:
  * `params` — parameter ids, wire codes, names, units and step counts,
    `ParamId::ALL`;
  * `formula` — the formula VM's instruction set, the stack-depth check
    `validate_stack_depth`, the VM's saturating stack and the built-in
    programs' instruction lists;
  * `delay` — the circular delay line (samples stored as `f32` bit
    patterns);
  * `sampler` — region key/velocity matching, loop-window rules, where
    playback starts and ends, the sample buffers' frame layout, voice
    allocation/stealing and note-off handling;
  * `modulators` — envelope stage machine, envelope curve and LFO enums;
  * `generators`, `effects`, `dynamics`, `context`, `excitation` — the
    remaining enums with their automation indices, the generator-kind to
    waveform map, the hammer's contact-length clamp and the integer noise
    hashes.
* `app/` — the floating-point signal processing built on the library
  (filters, oscillators, envelopes, dynamics, reverb, sampler playback,
  WAV output).
* `tests/` — tests of the library.
