//! Print dispatch: choose the printer, render, classify the template type,
//! and spool the payload once per copy, stopping at the first failure.

use vstd::prelude::*;
use vstd::string::StringExecFns;
use crate::printer::PrinterManager;
use crate::protocol::PrintRequest;
use crate::renderer::{render_failure_prefix, render_template};
use crate::text::same_text;

verus! {

/// How a template type is printed.
#[derive(PartialEq, Eq, Structural, Clone, Copy, Debug)]
pub enum TemplateKind {
    /// `escpos` and `zpl`: the rendered text's bytes go to the device as they are.
    Raw,
    /// `text`: printable text.
    Text,
    /// `pdf`: page printing, which is not done on this path.
    Page,
}

/// The kind of a `template_type`, if it is one of the four known names.
pub open spec fn kind_of(template_type: Seq<char>) -> Option<TemplateKind> {
    if template_type == "escpos"@ || template_type == "zpl"@ {
        Some(TemplateKind::Raw)
    } else if template_type == "text"@ {
        Some(TemplateKind::Text)
    } else if template_type == "pdf"@ {
        Some(TemplateKind::Page)
    } else {
        None
    }
}

/// Resolves a `template_type` to its kind, once, before any spooling.
pub fn classify_template(template_type: &str) -> (r: Option<TemplateKind>)
    ensures
        r == kind_of(template_type@),
{
    if same_text(template_type, "escpos") || same_text(template_type, "zpl") {
        Some(TemplateKind::Raw)
    } else if same_text(template_type, "text") {
        Some(TemplateKind::Text)
    } else if same_text(template_type, "pdf") {
        Some(TemplateKind::Page)
    } else {
        None
    }
}

/// Why a print request failed.
pub enum PrintError {
    /// No printer was named and the backend reports no default.
    NoDefaultPrinter,
    /// The backend failed: default lookup or a spool call.
    Printer(String),
    /// The template did not render.
    Template(String),
    /// `pdf` jobs are printed elsewhere.
    PdfNotSupported,
    /// The `template_type` is none of the known names.
    UnsupportedTemplateType(String),
}

impl PrintError {
    pub open spec fn message_text(&self) -> Seq<char> {
        match self {
            PrintError::NoDefaultPrinter => "No default printer available"@,
            PrintError::Printer(e) => e@,
            PrintError::Template(e) => e@,
            PrintError::PdfNotSupported => "PDF printing not yet implemented"@,
            PrintError::UnsupportedTemplateType(t) => "Unknown template type: "@ + t@,
        }
    }

    /// The message reported to clients.
    pub fn message(&self) -> (r: String)
        ensures
            r@ == self.message_text(),
    {
        match self {
            PrintError::NoDefaultPrinter => String::from_str("No default printer available"),
            PrintError::Printer(e) => e.clone(),
            PrintError::Template(e) => e.clone(),
            PrintError::PdfNotSupported => String::from_str("PDF printing not yet implemented"),
            PrintError::UnsupportedTemplateType(t) => {
                let mut m = String::from_str("Unknown template type: ");
                m.append(t.as_str());
                m
            },
        }
    }
}

/// Whether the request names its printer itself (present and non-empty).
pub open spec fn names_printer(requested: Option<String>) -> bool {
    requested matches Some(n) && n@.len() > 0
}

/// Whether the backend's default printer has to be asked for.
pub fn needs_default_printer(requested: &Option<String>) -> (r: bool)
    ensures
        r == !names_printer(*requested),
{
    match requested {
        Some(n) => n.as_str().is_empty(),
        None => true,
    }
}

/// The target printer: the requested one when it is named, else the
/// backend's default; `default` is what the backend answered.
pub fn resolve_printer(
    requested: &Option<String>,
    default: Result<Option<String>, String>,
) -> (r: Result<String, PrintError>)
    ensures
        names_printer(*requested) ==> (r matches Ok(n) && n@ == requested->Some_0@),
        !names_printer(*requested) ==> match default {
            Err(e) => r == Err::<String, PrintError>(PrintError::Printer(e)),
            Ok(None) => r matches Err(PrintError::NoDefaultPrinter),
            Ok(Some(d)) => r == Ok::<String, PrintError>(d),
        },
{
    if !needs_default_printer(requested) {
        match requested {
            Some(n) => Ok(n.clone()),
            None => Err(PrintError::NoDefaultPrinter),
        }
    } else {
        match default {
            Err(e) => Err(PrintError::Printer(e)),
            Ok(None) => Err(PrintError::NoDefaultPrinter),
            Ok(Some(d)) => Ok(d),
        }
    }
}

/// How the rendered text is handed to the backend.
#[derive(PartialEq, Eq, Structural, Clone, Copy, Debug)]
pub enum SpoolMode {
    /// `print_raw` with the text's UTF-8 bytes.
    Raw,
    /// `print_text` with the text.
    Text,
}

/// A rendered job ready for spooling.
pub struct PrintJob {
    pub printer: String,
    pub mode: SpoolMode,
    pub rendered: String,
    pub copies: u32,
}

/// Builds the job for a resolved printer and a rendered template, or says
/// why the template type cannot be spooled.
pub fn plan_job(printer: String, rendered: String, template_type: &str, copies: u32) -> (r: Result<
    PrintJob,
    PrintError,
>)
    ensures
        kind_of(template_type@) == Some(TemplateKind::Raw) ==> (r matches Ok(j) && j.printer
            == printer && j.rendered == rendered && j.mode == SpoolMode::Raw && j.copies == copies),
        kind_of(template_type@) == Some(TemplateKind::Text) ==> (r matches Ok(j) && j.printer
            == printer && j.rendered == rendered && j.mode == SpoolMode::Text && j.copies
            == copies),
        kind_of(template_type@) == Some(TemplateKind::Page) ==> r matches Err(
            PrintError::PdfNotSupported,
        ),
        kind_of(template_type@) is None ==> (r matches Err(PrintError::UnsupportedTemplateType(t))
            && t@ == template_type@),
{
    match classify_template(template_type) {
        Some(TemplateKind::Raw) => Ok(PrintJob { printer, mode: SpoolMode::Raw, rendered, copies }),
        Some(TemplateKind::Text) => Ok(
            PrintJob { printer, mode: SpoolMode::Text, rendered, copies },
        ),
        Some(TemplateKind::Page) => Err(PrintError::PdfNotSupported),
        None => Err(PrintError::UnsupportedTemplateType(String::from_str(template_type))),
    }
}

/// State of the copy loop: copies wanted, copies spooled, first failure.
pub type SpoolState = (nat, nat, Option<Seq<char>>);

pub open spec fn spool_start(copies: nat) -> SpoolState {
    (copies, 0, None)
}

/// Whether the loop asks for another spool call.
pub open spec fn wants_spool(s: SpoolState) -> bool {
    s.2 is None && s.1 < s.0
}

/// The state after one spool call; `failure` is its error, if any.
pub open spec fn spool_after(s: SpoolState, failure: Option<Seq<char>>) -> SpoolState {
    match failure {
        None => (s.0, s.1 + 1, s.2),
        Some(e) => (s.0, s.1, Some(e)),
    }
}

/// Feeds the outcomes of successive spool calls to the loop, as long as it
/// asks for calls.
pub open spec fn spool_replay(s: SpoolState, outcomes: Seq<Option<Seq<char>>>) -> SpoolState
    decreases outcomes.len(),
{
    if outcomes.len() == 0 || !wants_spool(s) {
        s
    } else {
        spool_replay(spool_after(s, outcomes[0]), outcomes.drop_first())
    }
}

/// `k` successful spool calls.
pub open spec fn successes(k: nat) -> Seq<Option<Seq<char>>> {
    Seq::new(k, |i: int| None::<Seq<char>>)
}

/// Replaying `a` and then `b` is replaying `a + b`.
pub proof fn lemma_replay_concat(s: SpoolState, a: Seq<Option<Seq<char>>>, b: Seq<Option<Seq<char>>>)
    ensures
        spool_replay(s, a + b) == spool_replay(spool_replay(s, a), b),
    decreases a.len(),
{
    if a.len() == 0 {
        assert(a + b =~= b);
    } else if wants_spool(s) {
        assert((a + b).drop_first() =~= a.drop_first() + b);
        lemma_replay_concat(spool_after(s, a[0]), a.drop_first(), b);
    } else {
        assert(!wants_spool(spool_replay(s, a)));
    }
}

proof fn lemma_successes_from(copies: nat, done: nat, k: nat)
    requires
        done + k <= copies,
    ensures
        spool_replay((copies, done, None), successes(k)) == (copies, done + k, None::<Seq<char>>),
    decreases k,
{
    if k > 0 {
        assert(successes(k).drop_first() =~= successes((k - 1) as nat));
        lemma_successes_from(copies, done + 1, (k - 1) as nat);
    }
}

/// Every copy is spooled: while the spool calls of a job of `copies` copies
/// succeed, the loop asks for exactly `copies` of them, one after another,
/// and then finishes with success.
pub proof fn lemma_every_copy_spooled(copies: nat)
    ensures
        forall|k: nat|
            k < copies ==> #[trigger] wants_spool(spool_replay(spool_start(copies), successes(k))),
        spool_replay(spool_start(copies), successes(copies)) == (copies, copies, None::<Seq<char>>),
        !wants_spool(spool_replay(spool_start(copies), successes(copies))),
{
    assert forall|k: nat| k < copies implies #[trigger] wants_spool(
        spool_replay(spool_start(copies), successes(k)),
    ) by {
        lemma_successes_from(copies, 0, k);
    }
    lemma_successes_from(copies, 0, copies);
}

/// A failure ends the job: after `k` successful spool calls and a failed
/// one, with copies still to go, the loop asks for no further call,
/// whatever would follow, and finishes with that call's error.
pub proof fn lemma_stop_at_first_failure(
    copies: nat,
    k: nat,
    error: Seq<char>,
    rest: Seq<Option<Seq<char>>>,
)
    requires
        k < copies,
    ensures
        spool_replay(spool_start(copies), successes(k) + seq![Some(error)] + rest) == (
            copies,
            k,
            Some(error),
        ),
{
    let failed = seq![Some(error)];
    lemma_replay_concat(spool_start(copies), successes(k) + failed, rest);
    lemma_replay_concat(spool_start(copies), successes(k), failed);
    lemma_successes_from(copies, 0, k);
    let stopped: SpoolState = (copies, k, Some(error));
    assert(failed.drop_first().len() == 0);
    assert(spool_replay((copies, k, None), failed) == spool_replay(stopped, failed.drop_first()));
    assert(spool_replay((copies, k, None), failed) == stopped);
    assert(!wants_spool(stopped));
    assert(spool_replay(stopped, rest) == stopped);
}

/// What the copy loop asks for next.
pub enum SpoolStep {
    /// Spool the payload once more.
    Spool,
    /// Stop, with this result.
    Finish(Result<(), String>),
}

/// The copy loop's decisions: one spool call per copy, in order, until all
/// are done or one fails.
pub struct Spooler {
    copies: u32,
    done: u32,
    failure: Option<String>,
}

impl View for Spooler {
    type V = SpoolState;

    closed spec fn view(&self) -> SpoolState {
        (
            self.copies as nat,
            self.done as nat,
            match self.failure {
                Some(e) => Some(e@),
                None => None,
            },
        )
    }
}

pub open spec fn failure_of(outcome: Result<(), String>) -> Option<Seq<char>> {
    match outcome {
        Ok(()) => None,
        Err(e) => Some(e@),
    }
}

impl Spooler {
    pub fn new(copies: u32) -> (r: Spooler)
        ensures
            r@ == spool_start(copies as nat),
    {
        Spooler { copies, done: 0, failure: None }
    }

    /// Spool while copies remain and none failed; then finish with the
    /// first failure, or with success.
    pub fn next_step(&self) -> (r: SpoolStep)
        ensures
            wants_spool(self@) <==> r is Spool,
            r matches SpoolStep::Finish(res) ==> failure_of(res) == self@.2,
    {
        match &self.failure {
            Some(e) => SpoolStep::Finish(Err(e.clone())),
            None => {
                if self.done < self.copies {
                    SpoolStep::Spool
                } else {
                    SpoolStep::Finish(Ok(()))
                }
            },
        }
    }

    /// Takes the outcome of the spool call that `next_step` asked for; once
    /// the loop has finished, further outcomes change nothing.
    pub fn record(&mut self, outcome: Result<(), String>)
        ensures
            final(self)@ == if wants_spool(old(self)@) {
                spool_after(old(self)@, failure_of(outcome))
            } else {
                old(self)@
            },
    {
        if self.failure.is_some() || self.done >= self.copies {
            return ;
        }
        match outcome {
            Ok(()) => {
                self.done = self.done + 1;
            },
            Err(e) => {
                self.failure = Some(e);
            },
        }
    }
}

/// Spools `job` once per copy through `backend`, stopping at the first
/// failed call and returning its error. Copies already printed stay
/// printed.
pub fn spool_job<P: PrinterManager + ?Sized>(backend: &P, job: &PrintJob) -> (r: Result<(), String>)
    ensures
        job.copies == 0 ==> r is Ok,
{
    let mut spooler = Spooler::new(job.copies);
    loop
        invariant
            spooler@.0 == job.copies,
            spooler@.1 <= spooler@.0,
            job.copies == 0 ==> spooler@ == spool_start(0),
        decreases (spooler@.0 - spooler@.1) + (if spooler@.2 is None { 1int } else { 0int }),
    {
        match spooler.next_step() {
            SpoolStep::Spool => {
                let outcome = match job.mode {
                    SpoolMode::Raw => backend.print_raw(
                        job.printer.as_str(),
                        job.rendered.as_str().as_bytes(),
                    ),
                    SpoolMode::Text => backend.print_text(
                        job.printer.as_str(),
                        job.rendered.as_str(),
                    ),
                };
                spooler.record(outcome);
            },
            SpoolStep::Finish(r) => {
                return r;
            },
        }
    }
}

/// Runs one print request: resolve the printer (asking the backend only
/// when none is named), render, classify, spool each copy. A `pdf` or
/// unknown template type never reaches the spooler.
pub fn execute_print<P: PrinterManager + ?Sized>(
    req: &PrintRequest,
    backend: &P,
    registry: &handlebars::Handlebars<'_>,
) -> (r: Result<(), PrintError>)
    ensures
        kind_of(req.template_type@) == Some(TemplateKind::Page) ==> r is Err,
        kind_of(req.template_type@) is None ==> r is Err,
        names_printer(req.printer) ==> !(r matches Err(PrintError::NoDefaultPrinter)),
        r matches Err(PrintError::Template(m)) ==> render_failure_prefix().is_prefix_of(m@),
        r matches Err(PrintError::UnsupportedTemplateType(t)) ==> t@ == req.template_type@,
        r matches Err(PrintError::PdfNotSupported) ==> kind_of(req.template_type@) == Some(
            TemplateKind::Page,
        ),
{
    let default = if needs_default_printer(&req.printer) {
        backend.get_default_printer()
    } else {
        Ok(None)
    };
    let printer = match resolve_printer(&req.printer, default) {
        Ok(p) => p,
        Err(e) => {
            return Err(e);
        },
    };
    let rendered = match render_template(registry, req.template.as_str(), &req.data) {
        Ok(s) => s,
        Err(m) => {
            return Err(PrintError::Template(m));
        },
    };
    let job = match plan_job(printer, rendered, req.template_type.as_str(), req.options.copies) {
        Ok(j) => j,
        Err(e) => {
            return Err(e);
        },
    };
    match spool_job(backend, &job) {
        Ok(()) => Ok(()),
        Err(e) => Err(PrintError::Printer(e)),
    }
}

} // verus!
