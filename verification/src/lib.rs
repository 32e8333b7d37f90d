//! A compact statistical word segmenter for Japanese text.
//!
//! Every gap between two characters is judged on its own by an additive
//! linear model over a six-character window; the gaps that score above
//! zero become token boundaries.

pub mod category;
pub mod laws;
pub mod model;
pub mod segmenter;
pub mod text;
pub mod weights;
pub mod window;

pub use category::{construct_hashmap, get_key_tag, CategoryTag};
pub use model::construct_scorer_hashmap;
pub use segmenter::{boundary_prediction, segment, segment_with, tokenize};
pub use text::{construct_words, string};
pub use weights::{get_score, WeightTable};
pub use window::{compute_score, ContextWindow, Decision, Feature};
