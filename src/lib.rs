//! Search, selection, rendering and edit decisions for a command-line
//! front end to a cloud secrets store.
//!
//! Every remote operation is carried out by an external command-line tool;
//! this library decides which commands to run, filters and picks secrets from
//! the tool's answers, and renders them for display.
pub mod command;
pub mod error;
pub mod search;
pub mod secret;
pub mod select;
pub mod table;
pub mod value;
pub mod workflow;

pub use command::AwsSM;
pub use error::AsmError;
pub use secret::{Secret, SecretList};
pub use select::select_secret;
pub use table::{list_secrets, search_secret};
pub use value::{describe_secret, get_secret_value};
pub use workflow::{create_secret, delete_secret, edit_secret, get_editor};
