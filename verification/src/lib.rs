//! Verified core of a small account / user management backend: error
//! classification, entity updates, query building, sign-up and login
//! decisions, token issuing, the domain-to-app resolution cache, pre-signed
//! upload URLs and the QR-code check.

pub mod errors;
pub mod json;
pub mod common;
pub mod entity;
pub mod password;
pub mod account;
pub mod repository;
pub mod apps;
pub mod resolvers;
pub mod text;
pub mod jwt_auth;
pub mod account_service;
pub mod users;
pub mod infra;
pub mod api;
pub mod qrcode;
