//! Orchestration core for element-targeted web page capture.
//!
//! Given a URL, a target element selector, an ordered script of user
//! interactions and a set of cookies, the library decides, step by step, what
//! a browser driver must do next: create a tab, inject the cookies, navigate,
//! replay the interactions strictly in order and fail-fast, locate the target
//! element, and capture a screenshot clipped to its border box. The driver
//! performs each action against a real browser and reports the outcome back;
//! every decision in between is verified.

pub mod config;
pub mod error;
pub mod laws;
pub mod result;
pub mod geometry;
pub mod request;
pub mod session;
