//! Renders a directory subtree as an indented text tree.
//!
//! The scan honours three independent exclusion mechanisms: an ignore set
//! (matching entries vanish entirely), a stop set (matching directories are
//! listed but not entered), and layered `.gitignore` rules (matching entries
//! can be removed, stopped, or rendered dimmed, by policy).  A `.gitignore`
//! found in a directory fully replaces the inherited ruleset for that subtree.
//!
//! The directory tree is taken as a value ([`tree::Folder`]); reading it from
//! disk is the caller's business.  Gitignore matching is delegated to the
//! `ignore` crate and dim styling to the `colored` crate, each behind a small
//! trusted interface.

pub mod gitignore;
pub mod laws;
pub mod opts;
pub mod patterns;
pub mod render;
pub mod scanner;
pub mod seqs;
pub mod style;
pub mod tree;
