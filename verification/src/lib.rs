//! Verified core of a media-catalog agent: a bounded tool-calling
//! conversation state machine together with its two supporting services,
//! tiered web search summarisation and host-aware content extraction.

pub mod classify;
pub mod dispatch;
pub mod extract;
pub mod htmlsel;
pub mod episodes;
pub mod orchestrator;
pub mod playlist;
pub mod search;
pub mod text;
pub mod urlenc;
