//! Diagnostic rules for Manim projects.
pub mod ast;
pub mod config;
pub mod cost;
pub mod diagnostic;
pub mod frontend;
pub mod graph;
pub mod json;
pub mod knowledge;
pub mod literals;
pub mod numbers;
pub mod ordered;
pub mod render_order;
pub mod rules;
pub mod semantic;
pub mod source;
pub mod supplied;
pub mod text;
pub mod thresholds;
