//! Verified core of a GitLab tool server: configuration, URL and query
//! construction, merge request title handling, and review aggregation.

pub mod text;
pub mod segment;
pub mod config;
pub mod request;
pub mod query;
pub mod draft;
pub mod tools;
pub mod json;
pub mod review;
pub mod response;
