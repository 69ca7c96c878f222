//! Market-data helpers: the quote cache, the portfolio CSV format, and the
//! response formats and ticker conventions of the data providers.

pub mod akshare;
pub mod bars;
pub mod cache;
pub mod csv;
pub mod router;
pub mod sina;
pub mod zhitu;
pub mod zhitu_ext;
