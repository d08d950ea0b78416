//! Attribution of product reviews to the purchased variant.
//!
//! A review export names only the parent product and, where known, the order
//! that led to the review. This library recovers the purchased variant (SKU)
//! of each review from the order's line items and groups the review
//! identifiers by SKU.

pub mod attribution;
pub mod config;
pub mod order;
pub mod pipeline;
pub mod report;
pub mod review;
pub mod run;
pub mod story;
pub mod table;
