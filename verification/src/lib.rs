/// The activities that an item can record, by label and by index.
pub mod activity;
/// The settings of a run, and their loading from a TOML document.
pub mod config;
/// The reading of responses: the board response by its schema, and the
/// errors and the creation outcome by probing the JSON tree.
pub mod decode;
/// The display form of a column value.
pub mod flatten;
/// The search for the group that a label names.
pub mod groups;
/// JSON documents as trees, their reading and their writing.
pub mod json;
/// The records that travel to and from the GraphQL endpoint.
pub mod models;
/// The requests: the two queries and the mutation that creates an item.
pub mod requests;
/// The tables of groups and items that are shown.
pub mod table;
/// Texts: comparison, quotes, decimal numbers, lower case.
pub mod text;
/// The steps of a run that adds an item, and the request of a query.
pub mod workflow;
