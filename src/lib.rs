//! Query-able view of the functions declared in Python source files: the typed
//! values and type descriptors that rows carry, the table schema, the loading of
//! a corpus of parsed modules and the provider that turns it into rows.
pub mod loader;
pub mod provider;
pub mod schema;
pub mod session;
pub mod syntax;
pub mod types;
pub mod values;
