# unifi_gfm

Control building blocks for grid-interfacing inverters, written for embedded
targets and verified with Verus. All arithmetic is 16.16 fixed point (`Fxd`,
the raw bits of an `I16F16` of the `fixed` crate); sines, cosines, square roots
and arc-tangents come from the `cordic` crate, and state vectors are `nalgebra`
column vectors.

Layout:

- `src/fixed_point.rs` - the fixed-point number and its wrap-around arithmetic.
- `src/trig.rs` - the CORDIC functions, behind small trusted wrappers.
- `src/state.rs` - state vectors of 1, 2, 3, 4, 6 and 11 entries.
- `src/reference_frames.rs` - ABC, alpha-beta, DQZ and polar values and the
  transformations between them.
- `src/calculations.rs` - active and reactive power.
- `src/dynamics.rs` - the dynamics traits, forward Euler and Runge-Kutta steps,
  and the wrapping and saturation of states.
- `src/gfm.rs`, `src/gfl.rs`, `src/inverter.rs` - grid-forming (dVOC, droop,
  VSM) and grid-following controllers, presynchronization and the double-loop
  voltage controller.
- `src/dvoc.rs`, `src/droop.rs` - dVOC and droop controllers held in units
  (volts, radians per second), with their builders.
- `src/pll.rs`, `src/osg.rs`, `src/dc.rs` - phase-locked loops, orthogonal
  signal generators, a PI controller and a capacitor.
- `src/simulations.rs` - RL, RC and LCL lines, an AC source and a line tied to
  a bus, for simulating small systems.
- `app/lib.rs` - a floating-point front end: conversions between `f32` and
  `Fxd`, a dVOC builder that takes `f32` parameters, and sine and cosine
  computed in floating point.

Each function states its result in its `ensures`; the `law_*` proof functions
state properties that span several calls (saturation bounds, angle wrapping,
read-back of set values, and the like).
