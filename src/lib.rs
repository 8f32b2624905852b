//! Credential issuance and webhook trust for a repository-automation bot:
//! app assertions, an installation-token cache, webhook signature checks,
//! an allow-list gate and a classifier for incoming star events.

pub mod text;
pub mod signature;
pub mod gate;
pub mod config;
pub mod minter;
pub mod json;
pub mod token;
pub mod event;
pub mod webhook;
pub mod api;
pub mod announce;
