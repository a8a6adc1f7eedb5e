//! The verified core of an object storage gateway: an S3-like bucket and
//! object API over one physical container of a blob backend.
//!
//! Nothing here performs I/O. What needs the backend is written as a
//! resumable operation: `begin` and `resume` either finish or hand out the
//! one [`backend::Request`] to make next, and are resumed with its
//! [`backend::Reply`]. Whoever drives an operation performs the requests;
//! every decision is taken here.
//!
//! - [`naming`]: the rules for bucket names and object keys, and the layout
//!   of keys in the container.
//! - [`error`]: the error kinds, their messages and HTTP statuses.
//! - [`instant`]: points in time as plain integers.
//! - [`etag`]: entity tags, the hexadecimal SHA-256 of a body.
//! - [`backend`]: object metadata, requests and replies.
//! - [`metadata`]: bucket and lock records, bucket identifiers, and the
//!   cache of the catalog.
//! - [`catalog`]: creating, finding, listing and deleting buckets.
//! - [`locks`]: advisory locks with a time to live.
//! - [`service`]: logical buckets, and what comes before every access to an
//!   object.
//! - [`ideal`]: how operations follow one another against a backend that
//!   never fails.
//! - [`local`]: the rules of the backend that keeps objects as files.
//! - [`provider`]: what the adapters for S3, GCS and Azure decide.
//! - [`api`]: what the HTTP surface decides.
//! - [`client`]: what a client of the HTTP surface decides.
//! - [`config`]: the configuration and how settings make it.
//! - [`text`]: the text predicates and builders that the rest is stated in.

pub mod api;
pub mod backend;
pub mod catalog;
pub mod client;
pub mod config;
pub mod error;
pub mod etag;
pub mod ideal;
pub mod instant;
pub mod local;
pub mod locks;
pub mod metadata;
pub mod naming;
pub mod provider;
pub mod service;
pub mod text;
