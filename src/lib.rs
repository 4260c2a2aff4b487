//! Classification of recorded calls: mapping of engine outputs to call
//! attributes, membership of calls in user-defined categories, and the
//! ordered stages that turn one recording into a stored call.

pub mod score;
pub mod tone;
pub mod text;
pub mod entities;
pub mod category;
pub mod ids;
pub mod reindex;
pub mod pipeline;
