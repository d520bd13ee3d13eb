//! Page printing support: the CSS page size for a paper description, the
//! HTML wrapper that carries it, and the data URI the page is loaded from.

use vstd::prelude::*;
use vstd::string::StringExecFns;
use vstd::string::StrSliceExecFns;
use vstd::utf8::encode_utf8;
use base64::Engine;
use crate::scan::{decimal_number, first_of, is_decimal_number, lemma_first_of, slice_string,
    split_words, trim, trimmed, views, words_of};
use crate::text::{push_char, same_text};

verus! {

/// What `str::to_lowercase` gives for these characters.
pub uninterp spec fn lower_of(s: Seq<char>) -> Seq<char>;

/// Relies on `str::to_lowercase`: the lowercase mapping of the characters,
/// which depends on them alone.
#[verifier::external_body]
fn lowercase(s: &str) -> (r: String)
    ensures
        r@ == lower_of(s@),
{
    s.to_lowercase()
}

/// What base64's standard engine (padded) gives for these bytes.
pub uninterp spec fn base64_standard(bytes: Seq<u8>) -> Seq<char>;

/// Relies on `base64::engine::general_purpose::STANDARD.encode`: the padded
/// standard-alphabet encoding of the bytes.
#[verifier::external_body]
fn encode_base64(bytes: &[u8]) -> (r: String)
    ensures
        r@ == base64_standard(bytes@),
{
    base64::engine::general_purpose::STANDARD.encode(bytes)
}

/// Options of a page print job.
pub struct PdfPrintOptions {
    pub copies: u32,
    /// `A4`, `Letter`, ..., or a custom size such as `80mm 200mm`.
    pub paper_size: String,
    /// Print without showing a dialog.
    pub silent: bool,
}

impl Default for PdfPrintOptions {
    /// One copy of A4, with the print dialog.
    fn default() -> (r: PdfPrintOptions)
        ensures
            r.copies == 1,
            r.paper_size@ == "A4"@,
            !r.silent,
    {
        PdfPrintOptions { copies: 1, paper_size: String::from_str("A4"), silent: false }
    }
}

/// The page size used when the description is empty or not understood.
pub open spec fn a4_css() -> Seq<char> {
    "210mm 297mm"@
}

/// Whether `t` ends with a unit: `mm`, `cm` or `in`.
pub open spec fn has_unit(t: Seq<char>) -> bool {
    let u = t.subrange(t.len() - 2, t.len() as int);
    u == "mm"@ || u == "cm"@ || u == "in"@
}

/// A CSS length from one token: trimmed and lowercased, a number that the
/// floating-point parser accepts, then a unit.
pub open spec fn css_length(token: Seq<char>) -> Option<Seq<char>> {
    let t = lower_of(trimmed(token));
    if t.len() < 3 || !has_unit(t) {
        None
    } else {
        let number = trimmed(t.subrange(0, t.len() - 2));
        if number.len() > 0 && is_decimal_number(number) {
            Some(number + t.subrange(t.len() - 2, t.len() as int))
        } else {
            None
        }
    }
}

/// `s` with every `x` turned into a space.
pub open spec fn x_as_space(s: Seq<char>) -> Seq<char> {
    s.map_values(|c: char| if c == 'x' { ' ' } else { c })
}

/// A custom size, `80mm 200mm` or `80mmx200mm`: exactly two lengths.
pub open spec fn custom_paper(paper_size: Seq<char>) -> Option<(Seq<char>, Seq<char>)> {
    let s = lower_of(trimmed(paper_size));
    let parts = words_of(x_as_space(s));
    if s.len() == 0 || parts.len() != 2 {
        None
    } else {
        match (css_length(parts[0]), css_length(parts[1])) {
            (Some(w), Some(h)) => Some((w, h)),
            _ => None,
        }
    }
}

/// The sizes of the named papers.
pub open spec fn preset_css(base: Seq<char>) -> Option<Seq<char>> {
    if base == "a4"@ {
        Some("210mm 297mm"@)
    } else if base == "letter"@ {
        Some("8.5in 11in"@)
    } else if base == "legal"@ {
        Some("8.5in 14in"@)
    } else if base == "a3"@ {
        Some("297mm 420mm"@)
    } else if base == "a5"@ {
        Some("148mm 210mm"@)
    } else {
        None
    }
}

/// The size for a description without orientation: a named paper, a
/// custom size, or A4.
pub open spec fn base_css(base: Seq<char>) -> Seq<char> {
    match preset_css(base) {
        Some(css) => css,
        None => match custom_paper(base) {
            Some((w, h)) => w + seq![' '] + h,
            None => a4_css(),
        },
    }
}

/// Width and height exchanged around the first space.
pub open spec fn swapped(css: Seq<char>) -> Seq<char> {
    let i = first_of(css, ' ');
    if i < css.len() {
        css.subrange(i + 1, css.len() as int) + seq![' '] + css.subrange(0, i)
    } else {
        css
    }
}

/// The words joined by single spaces.
pub open spec fn joined(ws: Seq<Seq<char>>) -> Seq<char>
    decreases ws.len(),
{
    if ws.len() == 0 {
        seq![]
    } else if ws.len() == 1 {
        ws[0]
    } else {
        joined(ws.drop_last()) + seq![' '] + ws.last()
    }
}

pub open spec fn lowered(ws: Seq<Seq<char>>) -> Seq<Seq<char>> {
    ws.map_values(|w: Seq<char>| lower_of(w))
}

/// The CSS `@page` size for a paper description: `A4`, `Letter`, `Legal`,
/// `A3`, `A5`, or a custom size, optionally followed by `landscape` (width
/// and height exchanged) or `portrait`; A4 when not understood.
pub open spec fn paper_css(paper_size: Seq<char>) -> Seq<char> {
    let tokens = lowered(words_of(trimmed(paper_size)));
    if tokens.len() == 0 {
        a4_css()
    } else {
        let last = tokens.last();
        let rotate = last == "landscape"@;
        let base = if rotate || last == "portrait"@ {
            joined(tokens.drop_last())
        } else {
            joined(tokens)
        };
        if rotate {
            swapped(base_css(base))
        } else {
            base_css(base)
        }
    }
}

/// The printable page: print styles with the given page size around the
/// content.
pub open spec fn print_page(content: Seq<char>, css: Seq<char>) -> Seq<char> {
    "<!DOCTYPE html>
<html>
<head>
    <meta charset=\"UTF-8\">
    <meta name=\"viewport\" content=\"width=device-width, initial-scale=1.0\">
    <style>
        @page {
            size: "@ + css + ";
            margin: 10mm;
        }
        @media print {
            body {
                -webkit-print-color-adjust: exact;
                print-color-adjust: exact;
            }
        }
        body {
            font-family: -apple-system, BlinkMacSystemFont, 'Segoe UI', Roboto, 'Helvetica Neue', Arial, sans-serif;
            font-size: 12pt;
            line-height: 1.5;
            margin: 0;
            padding: 20px;
        }
        table {
            border-collapse: collapse;
            width: 100%;
        }
        th, td {
            border: 1px solid #ddd;
            padding: 8px;
            text-align: left;
        }
        th {
            background-color: #f5f5f5;
        }
    </style>
</head>
<body>
"@ + content + "
</body>
</html>"@
}

/// A data URI that holds the page.
pub open spec fn data_uri(html: Seq<char>) -> Seq<char> {
    "data:text/html;base64,"@ + base64_standard(encode_utf8(html))
}

fn has_unit_text(t: &str) -> (r: bool)
    requires
        t@.len() >= 2,
    ensures
        r == has_unit(t@),
{
    let n = t.unicode_len();
    let u = slice_string(t, n - 2, n);
    same_text(u.as_str(), "mm") || same_text(u.as_str(), "cm") || same_text(u.as_str(), "in")
}

/// A CSS length from one token, such as ` 80MM ` to `80mm`; `None` when
/// the token is not a number followed by `mm`, `cm` or `in`.
pub fn normalize_css_length(token: &str) -> (r: Option<String>)
    ensures
        r matches Some(s) ==> css_length(token@) == Some(s@),
        r is None ==> css_length(token@) is None,
{
    let t = lowercase(trim(token).as_str());
    let t = t.as_str();
    let n = t.unicode_len();
    if n < 3 {
        return None;
    }
    if !has_unit_text(t) {
        return None;
    }
    let number = trim(slice_string(t, 0, n - 2).as_str());
    if number.unicode_len() > 0 && decimal_number(number.as_str()) {
        let mut r = number;
        r.append(slice_string(t, n - 2, n).as_str());
        Some(r)
    } else {
        None
    }
}

fn spaces_for_x(s: &str) -> (r: String)
    ensures
        r@ == x_as_space(s@),
{
    let n = s.unicode_len();
    let mut out = String::new();
    let mut i: usize = 0;
    while i < n
        invariant
            n == s@.len(),
            i <= n,
            out@ == x_as_space(s@.subrange(0, i as int)),
        decreases n - i,
    {
        let c = s.get_char(i);
        push_char(&mut out, if c == 'x' { ' ' } else { c });
        i += 1;
        assert(out@ =~= x_as_space(s@.subrange(0, i as int)));
    }
    assert(s@.subrange(0, n as int) =~= s@);
    out
}

/// A custom paper size, `80mm 200mm` or `80mmx200mm`, as width and height.
pub fn parse_custom_paper_css(paper_size: &str) -> (r: Option<(String, String)>)
    ensures
        r matches Some((w, h)) ==> custom_paper(paper_size@) == Some((w@, h@)),
        r is None ==> custom_paper(paper_size@) is None,
{
    let s = lowercase(trim(paper_size).as_str());
    if s.unicode_len() == 0 {
        return None;
    }
    let parts = split_words(spaces_for_x(s.as_str()).as_str());
    if parts.len() != 2 {
        return None;
    }
    assert(views(parts@)[0] == parts@[0]@ && views(parts@)[1] == parts@[1]@);
    let w = match normalize_css_length(parts[0].as_str()) {
        Some(w) => w,
        None => {
            return None;
        },
    };
    let h = match normalize_css_length(parts[1].as_str()) {
        Some(h) => h,
        None => {
            return None;
        },
    };
    Some((w, h))
}

fn preset_size(base: &str) -> (r: Option<String>)
    ensures
        r matches Some(s) ==> preset_css(base@) == Some(s@),
        r is None ==> preset_css(base@) is None,
{
    if same_text(base, "a4") {
        Some(String::from_str("210mm 297mm"))
    } else if same_text(base, "letter") {
        Some(String::from_str("8.5in 11in"))
    } else if same_text(base, "legal") {
        Some(String::from_str("8.5in 14in"))
    } else if same_text(base, "a3") {
        Some(String::from_str("297mm 420mm"))
    } else if same_text(base, "a5") {
        Some(String::from_str("148mm 210mm"))
    } else {
        None
    }
}

fn size_for_base(base: &str) -> (r: String)
    ensures
        r@ == base_css(base@),
{
    match preset_size(base) {
        Some(css) => css,
        None => match parse_custom_paper_css(base) {
            Some((w, h)) => {
                let mut css = w;
                push_char(&mut css, ' ');
                css.append(h.as_str());
                css
            },
            None => String::from_str("210mm 297mm"),
        },
    }
}

fn swap_dimensions(css: &str) -> (r: String)
    ensures
        r@ == swapped(css@),
{
    let n = css.unicode_len();
    let i = crate::scan::find_space(css);
    proof {
        lemma_first_of(css@, ' ');
    }
    if i < n {
        let mut out = slice_string(css, i + 1, n);
        push_char(&mut out, ' ');
        out.append(slice_string(css, 0, i).as_str());
        out
    } else {
        String::from_str(css)
    }
}

/// The words `ws[0..count]` joined by single spaces.
fn join_words(ws: &Vec<String>, count: usize) -> (r: String)
    requires
        count <= ws@.len(),
    ensures
        r@ == joined(views(ws@).subrange(0, count as int)),
{
    let mut out = String::new();
    if count == 0 {
        return out;
    }
    out.append(ws[0].as_str());
    assert(views(ws@).subrange(0, 1) =~= seq![ws@[0]@]);
    let mut i: usize = 1;
    while i < count
        invariant
            1 <= i <= count <= ws@.len(),
            out@ == joined(views(ws@).subrange(0, i as int)),
        decreases count - i,
    {
        push_char(&mut out, ' ');
        out.append(ws[i].as_str());
        assert(views(ws@).subrange(0, i + 1).drop_last() =~= views(ws@).subrange(0, i as int));
        i += 1;
    }
    out
}

/// The CSS `@page` size for a paper description.
pub fn paper_size_to_css(paper_size: &str) -> (r: String)
    ensures
        r@ == paper_css(paper_size@),
{
    let words = split_words(trim(paper_size).as_str());
    let mut tokens: Vec<String> = Vec::new();
    let mut i: usize = 0;
    while i < words.len()
        invariant
            i <= words@.len(),
            views(tokens@) == lowered(views(words@).subrange(0, i as int)),
        decreases words@.len() - i,
    {
        let low = lowercase(words[i].as_str());
        assert(low@ == lower_of(views(words@)[i as int]));
        let ghost before = tokens@;
        tokens.push(low);
        assert(views(tokens@) =~= views(before).push(low@));
        assert(views(words@).subrange(0, i + 1) =~= views(words@).subrange(0, i as int).push(
            views(words@)[i as int],
        ));
        i += 1;
        assert(views(tokens@) =~= lowered(views(words@).subrange(0, i as int)));
    }
    assert(views(words@).subrange(0, words@.len() as int) =~= views(words@));
    let n = tokens.len();
    if n == 0 {
        return String::from_str("210mm 297mm");
    }
    let last = tokens[n - 1].as_str();
    assert(views(tokens@).last() == tokens@[n - 1]@);
    let rotate = same_text(last, "landscape");
    let count = if rotate || same_text(last, "portrait") {
        n - 1
    } else {
        n
    };
    let base = join_words(&tokens, count);
    assert(views(tokens@).subrange(0, n - 1) =~= views(tokens@).drop_last());
    assert(views(tokens@).subrange(0, n as int) =~= views(tokens@));
    let css = size_for_base(base.as_str());
    if rotate {
        swap_dimensions(css.as_str())
    } else {
        css
    }
}

/// The printable HTML page: print styles, with the `@page` size for
/// `paper_size`, around `content`.
pub fn wrap_html_for_print(content: &str, paper_size: &str) -> (r: String)
    ensures
        r@ == print_page(content@, paper_css(paper_size@)),
{
    let css = paper_size_to_css(paper_size);
    let mut out = String::from_str("<!DOCTYPE html>
<html>
<head>
    <meta charset=\"UTF-8\">
    <meta name=\"viewport\" content=\"width=device-width, initial-scale=1.0\">
    <style>
        @page {
            size: ");
    out.append(css.as_str());
    out.append(";
            margin: 10mm;
        }
        @media print {
            body {
                -webkit-print-color-adjust: exact;
                print-color-adjust: exact;
            }
        }
        body {
            font-family: -apple-system, BlinkMacSystemFont, 'Segoe UI', Roboto, 'Helvetica Neue', Arial, sans-serif;
            font-size: 12pt;
            line-height: 1.5;
            margin: 0;
            padding: 20px;
        }
        table {
            border-collapse: collapse;
            width: 100%;
        }
        th, td {
            border: 1px solid #ddd;
            padding: 8px;
            text-align: left;
        }
        th {
            background-color: #f5f5f5;
        }
    </style>
</head>
<body>
");
    out.append(content);
    out.append("
</body>
</html>");
    out
}

/// The data URI a page is loaded from: the HTML's UTF-8 bytes in base64.
pub fn html_data_uri(html: &str) -> (r: String)
    ensures
        r@ == data_uri(html@),
{
    let mut out = String::from_str("data:text/html;base64,");
    out.append(encode_base64(html.as_bytes()).as_str());
    out
}

} // verus!
