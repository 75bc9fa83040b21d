//! A static-content HTTP/1.1 server built from parallel four-stage pipelines.
//!
//! The library holds the logic of each stage: request parsing, method
//! dispatch and file-path resolution, optional body compression, response
//! serialisation, the bounded stage queues and the recovery plan for stages
//! whose worker died.
pub mod action;
pub mod body;
pub mod compress;
pub mod error;
pub mod file;
pub mod map;
pub mod method;
pub mod pipeline;
pub mod queue;
pub mod reader;
pub mod request;
pub mod response;
pub mod setting;
pub mod status;
pub mod text;
