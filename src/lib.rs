//! Shorthand compaction for the CSS `animation` property family, and
//! colour-fallback duplication for `@keyframes` rules.

pub mod vendor_prefix;
pub mod text;
pub mod values;
pub mod animation;
pub mod color;
pub mod properties;
pub mod handler;
pub mod keyframes;
