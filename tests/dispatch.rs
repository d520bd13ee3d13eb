use std::sync::Mutex;

use rprint::dispatch::{
    classify_template, execute_print, plan_job, resolve_printer, spool_job, PrintError, PrintJob,
    SpoolMode, SpoolStep, Spooler, TemplateKind,
};
use rprint::printer::{create_printer_manager, DummyPrinterManager, PrinterManager};
use rprint::protocol::{PrintOptions, PrintRequest, PrinterInfo};

/// A backend that records every spool call and can be told to fail one.
struct Recorder {
    default: Option<String>,
    fail_call: Option<usize>,
    calls: Mutex<Vec<(String, Vec<u8>)>>,
}

impl Recorder {
    fn new(default: Option<&str>, fail_call: Option<usize>) -> Recorder {
        Recorder {
            default: default.map(|d| d.to_string()),
            fail_call,
            calls: Mutex::new(Vec::new()),
        }
    }

    fn record(&self, printer_name: &str, data: &[u8]) -> Result<(), String> {
        let mut calls = self.calls.lock().unwrap();
        calls.push((printer_name.to_string(), data.to_vec()));
        if Some(calls.len()) == self.fail_call {
            Err("paper jam".to_string())
        } else {
            Ok(())
        }
    }

    fn calls(&self) -> Vec<(String, Vec<u8>)> {
        self.calls.lock().unwrap().clone()
    }
}

impl PrinterManager for Recorder {
    fn list_printers(&self) -> Result<Vec<PrinterInfo>, String> {
        Ok(vec![])
    }

    fn get_default_printer(&self) -> Result<Option<String>, String> {
        Ok(self.default.clone())
    }

    fn print_raw(&self, printer_name: &str, data: &[u8]) -> Result<(), String> {
        self.record(printer_name, data)
    }

    fn print_text(&self, printer_name: &str, text: &str) -> Result<(), String> {
        self.record(printer_name, text.as_bytes())
    }
}

fn registry() -> handlebars::Handlebars<'static> {
    let mut hbs = handlebars::Handlebars::new();
    hbs.register_escape_fn(handlebars::no_escape);
    hbs
}

fn request(template_type: &str, printer: Option<&str>, copies: u32) -> PrintRequest {
    PrintRequest {
        id: "job-1".to_string(),
        template_type: template_type.to_string(),
        template: "Order {{no}} <b>".to_string(),
        data: serde_json::from_str("{\"no\": \"12345\"}").unwrap(),
        printer: printer.map(|p| p.to_string()),
        options: PrintOptions { copies, paper_size: None },
    }
}

#[test]
fn every_copy_gets_identical_bytes() {
    for template_type in ["escpos", "text", "zpl"] {
        let backend = Recorder::new(None, None);
        let result = execute_print(&request(template_type, Some("POS-80"), 3), &backend, &registry());
        assert!(result.is_ok());
        let calls = backend.calls();
        assert_eq!(calls.len(), 3);
        for (printer, data) in &calls {
            assert_eq!(printer, "POS-80");
            assert_eq!(data.as_slice(), "Order 12345 <b>".as_bytes());
        }
    }
}

#[test]
fn zero_copies_print_nothing() {
    let backend = Recorder::new(None, None);
    let result = execute_print(&request("escpos", Some("POS-80"), 0), &backend, &registry());
    assert!(result.is_ok());
    assert!(backend.calls().is_empty());
}

#[test]
fn first_failure_stops_the_copies() {
    let backend = Recorder::new(None, Some(2));
    let result = execute_print(&request("escpos", Some("POS-80"), 5), &backend, &registry());
    match result {
        Err(PrintError::Printer(m)) => assert_eq!(m, "paper jam"),
        _ => panic!("expected the spool error"),
    }
    assert_eq!(backend.calls().len(), 2);
}

#[test]
fn empty_printer_and_no_default_spools_nothing() {
    let backend = Recorder::new(None, None);
    let result = execute_print(&request("escpos", Some(""), 2), &backend, &registry());
    assert!(matches!(result, Err(PrintError::NoDefaultPrinter)));
    assert!(backend.calls().is_empty());
    let result = execute_print(&request("text", None, 2), &backend, &registry());
    assert!(matches!(result, Err(PrintError::NoDefaultPrinter)));
    assert!(backend.calls().is_empty());
}

#[test]
fn default_printer_is_used_when_none_is_named() {
    let backend = Recorder::new(Some("Office"), None);
    assert!(execute_print(&request("zpl", None, 1), &backend, &registry()).is_ok());
    assert_eq!(backend.calls()[0].0, "Office");
}

#[test]
fn pdf_and_unknown_types_are_rejected() {
    let backend = Recorder::new(Some("Office"), None);
    let pdf = execute_print(&request("pdf", None, 1), &backend, &registry());
    assert!(matches!(pdf, Err(PrintError::PdfNotSupported)));
    let other = execute_print(&request("html", None, 1), &backend, &registry());
    match other {
        Err(e) => assert_eq!(e.message(), "Unknown template type: html"),
        Ok(()) => panic!("expected an error"),
    }
    assert!(backend.calls().is_empty());
}

#[test]
fn render_failure_is_reported() {
    let backend = Recorder::new(Some("Office"), None);
    let mut req = request("escpos", None, 1);
    req.template = "{{#if}}".to_string();
    match execute_print(&req, &backend, &registry()) {
        Err(PrintError::Template(m)) => assert!(m.starts_with("Template render error: ")),
        _ => panic!("expected a template error"),
    }
    assert!(backend.calls().is_empty());
}

#[test]
fn classification() {
    assert_eq!(classify_template("escpos"), Some(TemplateKind::Raw));
    assert_eq!(classify_template("zpl"), Some(TemplateKind::Raw));
    assert_eq!(classify_template("text"), Some(TemplateKind::Text));
    assert_eq!(classify_template("pdf"), Some(TemplateKind::Page));
    assert_eq!(classify_template("ESCPOS"), None);
}

#[test]
fn resolution_and_planning() {
    let named = resolve_printer(&Some("A".to_string()), Err("unused".to_string()));
    assert_eq!(named.ok(), Some("A".to_string()));
    let failed = resolve_printer(&None, Err("spooler down".to_string()));
    assert!(matches!(failed, Err(PrintError::Printer(ref m)) if m == "spooler down"));
    let missing = resolve_printer(&Some(String::new()), Ok(None));
    assert_eq!(missing.err().map(|e| e.message()), Some("No default printer available".to_string()));
    let job = plan_job("P".to_string(), "x".to_string(), "text", 2).ok().unwrap();
    assert_eq!(job.mode, SpoolMode::Text);
    assert_eq!(job.copies, 2);
    assert_eq!(
        plan_job("P".to_string(), "x".to_string(), "pdf", 1).err().map(|e| e.message()),
        Some("PDF printing not yet implemented".to_string())
    );
}

#[test]
fn spooler_steps() {
    let mut spooler = Spooler::new(2);
    assert!(matches!(spooler.next_step(), SpoolStep::Spool));
    spooler.record(Ok(()));
    assert!(matches!(spooler.next_step(), SpoolStep::Spool));
    spooler.record(Ok(()));
    assert!(matches!(spooler.next_step(), SpoolStep::Finish(Ok(()))));
    let mut failing = Spooler::new(3);
    failing.record(Err("offline".to_string()));
    assert!(matches!(failing.next_step(), SpoolStep::Finish(Err(ref e)) if e == "offline"));
    failing.record(Ok(()));
    assert!(matches!(failing.next_step(), SpoolStep::Finish(Err(ref e)) if e == "offline"));
    let mut done = Spooler::new(0);
    done.record(Err("late".to_string()));
    assert!(matches!(done.next_step(), SpoolStep::Finish(Ok(()))));
}

#[test]
fn stand_in_backend() {
    let backend = DummyPrinterManager;
    assert_eq!(backend.list_printers().unwrap().len(), 0);
    assert_eq!(backend.get_default_printer(), Ok(None));
    let job = PrintJob {
        printer: "P".to_string(),
        mode: SpoolMode::Raw,
        rendered: "x".to_string(),
        copies: 1,
    };
    assert_eq!(spool_job(&backend, &job), Err("Not supported on this platform".to_string()));
    let boxed = create_printer_manager();
    assert_eq!(boxed.print_text("P", "x"), Err("Not supported on this platform".to_string()));
}
