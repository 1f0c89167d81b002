//! Navigation engine of a terminal browser for tabular data: text layout,
//! the virtual column model, the sort and filter chain, the focus state
//! machine and the viewport computations, each with a proved contract.

pub mod actions;
pub mod clock;
pub mod controller;
pub mod files;
pub mod focus;
pub mod import;
pub mod indices;
pub mod layout;
pub mod names;
pub mod notify;
pub mod paths;
pub mod query;
pub mod registry;
pub mod render;
pub mod schema;
pub mod sort;
pub mod state;
pub mod strings;
pub mod table;
pub mod text;
