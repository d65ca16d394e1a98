//! The logic of a registrar node: which resources it registers, what it sends to Root, what it
//! keeps and counts, and whom it answers.
pub mod access;
pub mod calendar;
pub mod catalog;
pub mod config;
pub mod credential;
pub mod crypto;
pub mod documents;
pub mod domains;
pub mod error;
pub mod governance;
pub mod json;
pub mod listing;
pub mod node;
pub mod nonces;
pub mod query_path;
pub mod records;
pub mod registration;
pub mod stats;
pub mod storage;
pub mod submission;
pub mod text;
pub mod time;
pub mod upstream;
