//! Box scores of American football games, read from the results tables of a
//! statistics page and rendered as text lines or as a JSON document.

pub mod boxscore;
pub mod cli;
pub mod decimal;
pub mod extract;
pub mod json;
pub mod page;
pub mod render;
pub mod request;

pub use crate::boxscore::{BoxScore, BoxScoreView};
pub use crate::extract::{parse_box_score, parse_rows, Cell, CellView, ParseError};
pub use crate::cli::{
    FbdbSubcommand, FbdbSubcommandArgs, FbdbWebScrapeCli, OutputFormat, DEFAULT_YEAR,
};
pub use crate::page::{parse_box_scores, read_rows};
pub use crate::render::{render, render_default, render_json, RenderError};
pub use crate::request::{box_scores_url, USER_AGENT};
