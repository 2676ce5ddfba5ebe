//! Tenant-scoped dictionary management: the request and view models, the
//! validation rules, and the decisions that the dictionary service takes
//! around its storage.
pub mod text;
pub mod model;
pub mod error;
pub mod validation;
pub mod ids;
pub mod service;
pub mod http;
pub mod client;
pub mod page;
pub mod dialogs;
pub mod plugin;
pub mod store;
