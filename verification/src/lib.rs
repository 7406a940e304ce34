//! A verified core for Liquid Glass user interfaces on Iced.
//!
//! - [`windowing`]: window policies, semantic window commands, and the
//!   per-window lifecycle controller.
//! - [`platform`]: backend-independent window configuration.
//! - [`render`]: compositor rules that do not touch the GPU: target sizes,
//!   errors, backdrop frame validation and row packing, node limits, uniform
//!   strides, and shader rebinding.
//! - [`scene`]: glass identifiers and the stable compositing order.
//! - [`controls`]: segments and the pointer decisions of buttons and
//!   segmented controls.
//! - [`context_menu`]: menu entries, their builders, and row presentation rules.
//! - [`theme`], [`icon`], [`dock`], [`geometry`]: schemes, roles, icons,
//!   dock presets and shape kinds.
//! - [`font`] and [`font_table`]: UI font selection and reading family names
//!   out of sfnt font files.
//! - [`text`]: appending characters and decimal numbers to strings.

pub mod context_menu;
pub mod controls;
pub mod dock;
pub mod font;
pub mod font_table;
pub mod geometry;
pub mod icon;
pub mod platform;
pub mod render;
pub mod scene;
pub mod text;
pub mod theme;
pub mod windowing;
