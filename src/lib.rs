//! Clinic backend core: bearer-token authority, role guard and the
//! appointment lifecycle over a relational store, with the plain records
//! that the services exchange.

pub mod accounts;
pub mod appointment;
pub mod auth;
pub mod calendar;
pub mod config;
pub mod diagnosis;
pub mod error;
pub mod laws;
pub mod order;
pub mod password;
pub mod prescription;
pub mod shipping;
pub mod store;
pub mod text;
