//! Template rendering through a handlebars registry. The registry, with its
//! helpers and with escaping switched off, is assembled by the application;
//! rendering and the error text come from handlebars.

use vstd::prelude::*;
use vstd::string::StringExecFns;

verus! {

#[verifier::external_type_specification]
#[verifier::external_body]
pub struct ExHandlebars<'reg>(handlebars::Handlebars<'reg>);

#[verifier::external_type_specification]
#[verifier::external_body]
pub struct ExRenderError(handlebars::RenderError);

/// Relies on handlebars' `Registry::render_template`: renders the template
/// source against the data with the registry's helpers and escape function.
#[verifier::external_body]
fn render_with(
    registry: &handlebars::Handlebars<'_>,
    template: &str,
    data: &serde_json::Value,
) -> Result<String, handlebars::RenderError> {
    registry.render_template(template, data)
}

/// Relies on `RenderError`'s `Display`: the reason of the failure, with its
/// place in the template when known.
#[verifier::external_body]
fn render_error_text(e: &handlebars::RenderError) -> String {
    e.to_string()
}

/// What every render failure message starts with.
pub open spec fn render_failure_prefix() -> Seq<char> {
    "Template render error: "@
}

/// Renders `template` against `data`. A failure (bad syntax, a helper
/// called with the wrong arguments) is reported as a message, never a panic.
pub fn render_template(
    registry: &handlebars::Handlebars<'_>,
    template: &str,
    data: &serde_json::Value,
) -> (r: Result<String, String>)
    ensures
        r matches Err(m) ==> render_failure_prefix().is_prefix_of(m@),
{
    match render_with(registry, template, data) {
        Ok(s) => Ok(s),
        Err(e) => {
            let mut m = String::from_str("Template render error: ");
            m.append(render_error_text(&e).as_str());
            Err(m)
        },
    }
}

} // verus!
