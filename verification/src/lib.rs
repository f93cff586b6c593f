//! Charts from integer data: cascading styles, coordinate views and SVG output.

pub mod axis;
pub mod element;
pub mod extent;
pub mod page;
pub mod render;
pub mod style;
pub mod style_laws;
pub mod svg;
pub mod text;
pub mod view;
