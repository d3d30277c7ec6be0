//! Heuristic analyses of a script: narrative structure and credibility.

pub mod credibility;
pub mod narrative;
