//! A guided builder for SPDX license-metadata documents: the document model,
//! the version-control snapshot with its author rankings, and the question
//! sequence that fills the document.

pub mod model;
pub mod outside;
pub mod ranking;
pub mod vcs;
pub mod wizard;
