//! Planning-domain records (agents, plans, processes, labels, commitments and
//! what they refer to), decoded from flat datastore rows and assembled into
//! the nested shapes that the API answers with.
//!
//! The crate is the pure half of a server: it says which statements to
//! issue, with their SQL text and their parameters, and what to make of the
//! rows that come back. Talking to the datastore and to the network is left
//! to the caller.

pub mod assemble;
pub mod decode;
pub mod error;
pub mod grouping;
pub mod ident;
pub mod laws;
pub mod model;
pub mod mutation;
pub mod naming;
pub mod query;
pub mod row;
pub mod sql;
pub mod statement;

pub use mutation::MutationRoot;
pub use naming::unique_name;
pub use query::QueryRoot;
