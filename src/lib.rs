//! Remote print bridge: the client protocol, the template helpers, the
//! ESC/POS and ZPL command builders, page sizes for page printing, and the
//! rules that turn a print request into spool calls, with their contracts.

pub mod config;
pub mod datetime;
pub mod dispatch;
pub mod escpos;
pub mod paper;
pub mod printer;
pub mod protocol;
pub mod renderer;
pub mod scan;
pub mod server;
pub mod text;
pub mod zpl;
