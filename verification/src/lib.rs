//! Scoring and classification engine for a forced-choice behavioral
//! questionnaire.
//!
//! A respondent works through 28 groups of four descriptive words, marking in
//! each group one word as "most like me" and one as "least like me".  Every
//! word carries a pair of trait codes.  The engine tallies the selections
//! into four signed trait counters, maps each counter through a calibrated
//! response curve onto a bounded intensity scale, buckets each intensity into
//! one of seven ordinal segments, and matches the four-segment tuple against
//! an ordered rule table to pick one of fifteen named behavioral profiles
//! (or an "Invalid" sentinel when no rule applies).
//!
//! The engine is stateless: responses go in, tally, intensity, segment and
//! profile come out.  Rendering, input collection and persistence belong to
//! the caller.

pub mod catalog;
pub mod classify;
pub mod scoring;
pub mod types;
