//! Plain data types of the client.

pub mod project_id;
pub mod renku_url;
pub mod simple_message;
