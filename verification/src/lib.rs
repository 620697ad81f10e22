//! Inventory rules of the commerce capability: domain drafts and their
//! validation, query and command normalisation, the SQL statements that the
//! repositories run, and the HTTP surface's route table and error replies.
pub mod error;
pub mod text;
pub mod domain;
pub mod commands;
pub mod queries;
pub mod ports;
pub mod statement;
pub mod json;
pub mod paging;
pub mod repository;
pub mod sqlite;
pub mod postgres;
pub mod http;
pub mod service;
pub mod rows;
