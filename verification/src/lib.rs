//! Core logic of a club-management backend: members, addresses, reservations,
//! authentication with signed session tokens, and an email-based password-reset
//! flow. The functions here decide and compute; the surrounding binary does the
//! HTTP, database and SMTP work and hands the results in as plain values.

pub mod address;
pub mod auth;
pub mod connection;
pub mod email;
pub mod error;
pub mod jwt;
pub mod member;
pub mod models;
pub mod reservation;
pub mod utils;
