//! Decision core of an administrative HTTP gateway.
//!
//! Every endpoint of the gateway takes a self-contained request (where the
//! backend lives, how to authenticate, which resource to touch), performs one
//! operation on one backend, and answers with an empty success or with the
//! backend's failure text. This crate holds everything of that flow that is
//! computation: what is handed to the backend client for each request, how a
//! backend's answer is judged, and what the caller is told. Network traffic
//! itself is left to the program around it.

pub mod minio;
pub mod mysql;
pub mod outcome;
pub mod pulsar;
pub mod redis;
pub mod route;
pub mod text;
pub mod zookeeper;
