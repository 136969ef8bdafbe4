# plaits_voice

The control logic of a single synthesis voice, verified with Verus.

- `src/engine.rs`: the table of the 24 engine slots (engine, self-enveloped
  flag, output gains in tenths).
- `src/resources.rs`: the data some engines load, and which slot loads what.
- `src/modulation.rs`: routing of modulations, trigger parameter, engine
  specific settings, low-pass gate decisions.
- `src/post_processor.rs`: per-channel post-processing plans and the state of
  its two stages; 16-bit sample clamping.
- `src/voice.rs`: `VoiceState`, the discrete state of a voice (active engine,
  pending reload, trigger level, post-processors) and the per-block plans.
- `app/`: the floating-point side (parameters, modulation arithmetic, sample
  processing), driven by those plans; the engines, envelopes and filters are
  supplied through traits.
