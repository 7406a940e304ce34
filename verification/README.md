# liquid_glass

The verified core of a Liquid Glass user-interface toolkit for Iced.

- `src/` is the library, written in Verus. Every function carries a
  `requires`/`ensures` contract that Verus proves; the laws that relate
  several functions (controllers ignoring foreign windows, stable and unique
  compositing order, click and release rules of buttons and segmented
  controls, fullscreen toggling) are public proof functions.
- `tests/` exercises the library on concrete values.
- `app/` is ordinary Rust around the library: Iced tasks, subscriptions and
  window settings, conversions from Iced events and theme modes, palette
  colors, the floating-point scene model, and floating-point wallpaper
  sampling.

The few calls into code that Verus does not read (Iced's window identifier
comparison, `String::push`, `char::from_u32`, `str::replace`) sit behind
small trusted wrappers whose doc comments say what their contracts claim.
