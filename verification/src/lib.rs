//! Core of a random downloader: repository lines are classified into
//! download targets and nested-repository pointers, and a depth-bounded
//! resolver picks one concrete target to download.
//!
//! The resolver is a state machine over plain values: the binary around
//! it performs downloads, fetches and prompts, and reports each outcome
//! back. Comment filtering, line classification, depth accounting and
//! the retry rules are all decided — and proved — here.

pub mod classify;
pub mod cli;
pub mod download;
pub mod lines;
pub mod repository;
pub mod resolver;
pub mod text;
