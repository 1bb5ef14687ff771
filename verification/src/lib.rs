//! A TodoMVC application: the todo model, the rules of the REST server that
//! stores the todos, and the state and decisions of the browser client.

pub mod client;
pub mod model;
pub mod server;
pub mod state;
pub mod text;
pub mod view;
