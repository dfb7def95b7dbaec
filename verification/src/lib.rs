//! A REST API for climbing problems and their users: the request rules,
//! the user and problem models, the configuration and the route tables,
//! each with a contract proved by Verus.
pub mod decimal;
pub mod form;
pub mod status;
pub mod auth;
pub mod database;
pub mod models;
pub mod routes;
pub mod config;
pub mod configuration;
pub mod startup;
