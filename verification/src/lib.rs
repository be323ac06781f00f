//! Rules and decisions of a Steam backlog organizer: category bookkeeping,
//! library summaries, the collections written back to Steam, the local
//! caches, and the recommendation and second-opinion flows.

pub mod ambiguity;
pub mod cache;
pub mod category;
pub mod collections;
pub mod json;
pub mod recommend;
pub mod setup;
pub mod summary;
pub mod text;
