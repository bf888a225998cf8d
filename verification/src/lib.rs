//! The ledger commands of the Indy command line: the metadata of each
//! command, the JSON data that the commands send to the ledger, and the
//! messages that report what the ledger answered.

pub mod data;
pub mod error;
pub mod json;
pub mod ledger;
pub mod metadata;
pub mod text;
