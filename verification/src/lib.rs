//! Verified core of a certificate distribution service: the decisions that
//! decide when certificates are issued, renewed, deleted and handed out, the
//! bookkeeping of ACME challenges and the authentication of client tokens.

pub mod auth;
pub mod ca;
pub mod certificate;
pub mod challenge;
pub mod client;
pub mod clock;
pub mod config;
pub mod domain;
pub mod error;
pub mod issuance;
pub mod json;
pub mod providers;
pub mod routes;
pub mod strmap;
pub mod text;
pub mod types;
