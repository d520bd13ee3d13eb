use handlebars::{Context, Handlebars, Helper, HelperResult, Output, RenderContext};
use rprint::renderer::render_template;

fn str_param<'a>(h: &'a Helper, i: usize) -> &'a str {
    h.param(i).and_then(|v| v.value().as_str()).unwrap_or("")
}

fn int_param(h: &Helper, i: usize) -> u64 {
    h.param(i).and_then(|v| v.value().as_u64()).unwrap_or(0)
}

/// A registry with escaping off and the library's `repeat` and `pad_left`.
fn registry() -> Handlebars<'static> {
    let mut hbs = Handlebars::new();
    hbs.register_escape_fn(handlebars::no_escape);
    hbs.register_helper(
        "repeat",
        Box::new(
            |h: &Helper,
             _: &Handlebars,
             _: &Context,
             _: &mut RenderContext,
             out: &mut dyn Output|
             -> HelperResult {
                out.write(&rprint::text::repeat(str_param(h, 0), int_param(h, 1)))?;
                Ok(())
            },
        ),
    );
    hbs.register_helper(
        "pad_left",
        Box::new(
            |h: &Helper,
             _: &Handlebars,
             _: &Context,
             _: &mut RenderContext,
             out: &mut dyn Output|
             -> HelperResult {
                let padded = rprint::text::pad_left(str_param(h, 0), int_param(h, 1), str_param(h, 2));
                out.write(&padded)?;
                Ok(())
            },
        ),
    );
    hbs
}

#[test]
fn render_repeat_helper() {
    let data: serde_json::Value = serde_json::from_str("{}").unwrap();
    let result = render_template(&registry(), "{{repeat \"-\" 10}}", &data).unwrap();
    assert_eq!(result, "----------");
}

#[test]
fn render_pad_left_helper() {
    let data: serde_json::Value = serde_json::from_str("{\"num\": \"42\"}").unwrap();
    let result = render_template(&registry(), "[{{pad_left num 5 \"0\"}}]", &data).unwrap();
    assert_eq!(result, "[00042]");
}

#[test]
fn malformed_block_is_a_render_error() {
    let data: serde_json::Value = serde_json::from_str("{}").unwrap();
    let result = render_template(&registry(), "{{#each}}", &data);
    assert!(result.unwrap_err().starts_with("Template render error: "));
}
