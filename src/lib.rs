//! Multi-tenant authentication core: password credentials, signed bearer
//! tokens, and the records of applications and their users.

pub mod authn;
pub mod error;
pub mod hasher;
pub mod ids;
pub mod laws;
pub mod model;
pub mod service;
pub mod token;
