//! The request handling logic of a small personal web site: which page or
//! file a request is answered with, how the admin upload format is read, and
//! what the admin handlers do next after each database or disk step.
//! Serving, the database and the templates are the application's business.

pub mod admin;
pub mod database;
pub mod files;
pub mod pages;
pub mod status;
mod text;

