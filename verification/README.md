# simple_eq

Control core of a two-band (200 Hz low shelf, 8 kHz high shelf) equaliser
plugin, verified with Verus.

- `src/float_bits.rs`: IEEE 754 binary32 equality on bit patterns.
- `src/control.rs`: channel layout, the decision on which band's filter
  coefficients must be recomputed for a sample, and how many channels of a
  frame are filtered; with the laws that tie these together.
- `app/`: the nih-plug plugin and the floating point filters and coefficient
  formulas, which drive the library.
