//! Application settings and their defaults. Reading and writing the
//! settings file belongs to the application.

use vstd::prelude::*;
use vstd::string::StringExecFns;

verus! {

/// All settings.
#[derive(Debug, Clone, PartialEq)]
pub struct AppConfig {
    pub server: ServerConfig,
    pub printer: PrinterConfig,
    pub ui: UiConfig,
}

/// Where the service listens.
#[derive(Debug, Clone, PartialEq)]
pub struct ServerConfig {
    pub port: u16,
    pub host: String,
    /// Start the service when the application starts.
    pub auto_start: bool,
}

/// Printer choices; `None` means the system default.
#[derive(Debug, Clone, PartialEq)]
pub struct PrinterConfig {
    pub default_printer: Option<String>,
    pub pdf_printer: Option<String>,
    pub escpos_printer: Option<String>,
    pub zpl_printer: Option<String>,
}

/// Window behaviour.
#[derive(Debug, Clone, PartialEq)]
pub struct UiConfig {
    pub start_minimized: bool,
    pub minimize_on_close: bool,
    pub auto_launch: bool,
    /// How many history entries are kept.
    pub history_limit: usize,
}

pub fn default_port() -> (r: u16)
    ensures
        r == 9100,
{
    9100
}

pub fn default_host() -> (r: String)
    ensures
        r@ == "0.0.0.0"@,
{
    String::from_str("0.0.0.0")
}

pub fn default_true() -> (r: bool)
    ensures
        r,
{
    true
}

pub fn default_history_limit() -> (r: usize)
    ensures
        r == 100,
{
    100
}

impl Default for ServerConfig {
    /// Port 9100 on all interfaces, started automatically.
    fn default() -> (r: ServerConfig)
        ensures
            r.port == 9100,
            r.host@ == "0.0.0.0"@,
            r.auto_start,
    {
        ServerConfig { port: default_port(), host: default_host(), auto_start: default_true() }
    }
}

impl Default for PrinterConfig {
    /// The system default printer for every kind of job.
    fn default() -> (r: PrinterConfig)
        ensures
            r.default_printer is None,
            r.pdf_printer is None,
            r.escpos_printer is None,
            r.zpl_printer is None,
    {
        PrinterConfig {
            default_printer: None,
            pdf_printer: None,
            escpos_printer: None,
            zpl_printer: None,
        }
    }
}

impl Default for UiConfig {
    /// Start and close to the tray, no launch at login, 100 history entries.
    fn default() -> (r: UiConfig)
        ensures
            r.start_minimized,
            r.minimize_on_close,
            !r.auto_launch,
            r.history_limit == 100,
    {
        UiConfig {
            start_minimized: default_true(),
            minimize_on_close: default_true(),
            auto_launch: false,
            history_limit: default_history_limit(),
        }
    }
}

impl Default for AppConfig {
    fn default() -> (r: AppConfig)
        ensures
            r.server.port == 9100,
            r.server.host@ == "0.0.0.0"@,
            r.server.auto_start,
            r.printer.default_printer is None,
            r.printer.pdf_printer is None,
            r.printer.escpos_printer is None,
            r.printer.zpl_printer is None,
            r.ui.start_minimized,
            r.ui.minimize_on_close,
            !r.ui.auto_launch,
            r.ui.history_limit == 100,
    {
        AppConfig {
            server: ServerConfig::default(),
            printer: PrinterConfig::default(),
            ui: UiConfig::default(),
        }
    }
}

} // verus!
