//! Data shared between the server and the browser: spot filters, the band
//! table, grid locators, and aggregate statistics.
pub mod filter;
pub mod grid;
pub mod spot;
