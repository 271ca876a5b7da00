//! A terminal workbench for GitHub pull requests and issues: the state, the
//! rules and the screen contents, as verified functions on plain values.

pub mod app;
pub mod category;
pub mod cli;
pub mod cli_laws;
pub mod draw;
pub mod draw_laws;
pub mod form;
pub mod geometry;
pub mod github;
pub mod github_laws;
pub mod graphql;
pub mod item;
pub mod item_laws;
pub mod key_laws;
pub mod keys;
pub mod markdown;
pub mod model;
pub mod model_laws;
pub mod plan;
pub mod render;
pub mod render_laws;
pub mod screen;
pub mod screen_laws;
pub mod style;
pub mod style_laws;
pub mod text;
pub mod text_laws;
pub mod view_laws;
