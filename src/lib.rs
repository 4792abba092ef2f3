//! Console text styling: `[text](tag)` spans in a string are colored with 24-bit
//! ANSI escapes, through an alias table, named HTML colors, semantic names and hex
//! colors, with number grouping and path shortening for semantic tags.
pub mod color;
pub mod numbers;
pub mod parse;
pub mod registry;
pub mod render;
pub mod rgb;
mod text;

pub use color::{html_named_color, parse_hex, resolve_spec_color, snowfall_color};
pub use numbers::{comma_string, format_number, to_comma_string};
pub use parse::{parse_text, Fragment};
pub use registry::{
    cprint_add_color, cprintln_add_color, ensure_custom_colors, parse_color, ColorRegistry,
};
pub use render::{classify, format_text, render, render_line, PathContext, SemanticTag};
pub use rgb::{ansi_rgb, RGB};
