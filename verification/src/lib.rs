//! Access decisions for subscription-gated content.
//!
//! The crate holds the rules of a paywall: which plan unlocks which content, how an
//! access request moves from the cache lookup to its verdict, how a purchase and a
//! sign-in are settled. Everything that talks to a database, a cache or a network is
//! left to the caller, who performs the queries the library asks for and hands back
//! the answers.

pub mod text;
pub mod plan;
pub mod id;
pub mod models;
pub mod config;
pub mod subscription;
pub mod cache;
pub mod features;
pub mod ml;
pub mod verdict;
pub mod engine;
pub mod session;
pub mod purchase;
pub mod auth;
