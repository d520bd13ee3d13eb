//! The printer backend: what the core needs from the operating system's
//! spooler, and the stand-in used where no spooler is available.

use vstd::prelude::*;
use vstd::string::StringExecFns;
use crate::protocol::PrinterInfo;

verus! {

/// Printer enumeration and raw spooling, implemented per platform.
pub trait PrinterManager: Send + Sync {
    /// The printers, in the backend's order; names are unique and at most
    /// one is marked default.
    fn list_printers(&self) -> Result<Vec<PrinterInfo>, String>;

    /// The name of the default printer, if there is one.
    fn get_default_printer(&self) -> Result<Option<String>, String>;

    /// Spools `data` to the printer verbatim (ESC/POS, ZPL).
    fn print_raw(&self, printer_name: &str, data: &[u8]) -> Result<(), String>;

    /// Spools `text` to the printer.
    fn print_text(&self, printer_name: &str, text: &str) -> Result<(), String>;
}

/// Backend for platforms without a spooler: no printers, no default, and
/// every print fails.
pub struct DummyPrinterManager;

pub open spec fn unsupported_text() -> Seq<char> {
    "Not supported on this platform"@
}

impl PrinterManager for DummyPrinterManager {
    fn list_printers(&self) -> (r: Result<Vec<PrinterInfo>, String>)
        ensures
            r matches Ok(v) && v@.len() == 0,
    {
        Ok(Vec::new())
    }

    fn get_default_printer(&self) -> (r: Result<Option<String>, String>)
        ensures
            r == Ok::<Option<String>, String>(None),
    {
        Ok(None)
    }

    fn print_raw(&self, printer_name: &str, data: &[u8]) -> (r: Result<(), String>)
        ensures
            r matches Err(e) && e@ == unsupported_text(),
    {
        Err(String::from_str("Not supported on this platform"))
    }

    fn print_text(&self, printer_name: &str, text: &str) -> (r: Result<(), String>)
        ensures
            r matches Err(e) && e@ == unsupported_text(),
    {
        Err(String::from_str("Not supported on this platform"))
    }
}

/// The backend of this build: the stand-in, since platform spoolers are
/// supplied by the application.
pub fn create_printer_manager() -> Box<dyn PrinterManager> {
    Box::new(DummyPrinterManager)
}

} // verus!
