//! Housing planner core: the planning model, its change journal and
//! localization tables.

pub mod date;
pub mod seqs;
pub mod model;
pub mod i18n;
pub mod journal;
pub mod laws;
pub mod restore;
pub mod editing;
pub mod timeline;
