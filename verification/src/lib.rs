//! Core engine for a weekly randomized speedrunning ruleset.
//!
//! A fixed catalogue of named techniques is paired with base rulesets that
//! assign each technique a legality. A template overlays each technique with
//! a rule: keep the base value, force a value, or re-roll it with a
//! probability given in parts per thousand. Resolution combines a template,
//! a base ruleset and a stream of random rolls into a fully resolved
//! ruleset. A parser turns untrusted textual overrides into templates, and
//! the weekly logic derives a deterministic seed from a calendar week
//! boundary so one week always publishes one ruleset.

pub mod legality;
mod rng;
pub mod rules;
pub mod strutil;
pub mod supplemental;
pub mod techniques;
pub mod weekly;
