# vfx

A handful of real-time visual effects (water, fresnel glow, UV distortion,
volumetric fog, polar-coordinate mapping and a particle system) built on bevy.

- `src/` is the verified library: the particle system's rules. Emitters tick a
  repeating timer (bevy's `Timer::tick`) by their spawn rate for every
  nanosecond, spawn one particle for every period the timer completes (so, from a
  fresh timer, a run of `T` seconds at `r` particles per second makes
  `floor(T * r)` particles),
  and draw each particle's lifetime and starting place at random
  (`rand`); particles age and are removed once their lifetime is spent.
  Time is counted in nanoseconds, lengths in millionths of a world unit and
  angles in microradians, so the rules are proved over integers.
- `app/` is the bevy program: plugins, materials, shaders, scene setup, the
  ECS systems that hand component data to the library and back, and the
  floating-point geometry (colours, transforms, trigonometry).
- `tests/` runs the library on concrete values.
