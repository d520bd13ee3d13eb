//! ZPL commands for label printers, and a simple product label built from
//! them.

use vstd::prelude::*;
use vstd::string::StringExecFns;
use crate::text::{decimal, money_text, push_char, push_decimal, push_money};

verus! {

/// Start of a label.
pub const LABEL_START: &'static str = "^XA";

/// End of a label.
pub const LABEL_END: &'static str = "^XZ";

pub open spec fn label_size_text(width: u32, height: u32) -> Seq<char> {
    "^PW"@ + decimal(width as nat) + "^LL"@ + decimal(height as nat)
}

pub open spec fn field_origin_text(x: u32, y: u32) -> Seq<char> {
    "^FO"@ + decimal(x as nat) + seq![','] + decimal(y as nat)
}

pub open spec fn font_text(name: char, height: u32, width: u32) -> Seq<char> {
    "^A"@ + seq![name] + seq![','] + decimal(height as nat) + seq![','] + decimal(width as nat)
}

pub open spec fn field_data_text(text: Seq<char>) -> Seq<char> {
    "^FD"@ + text + "^FS"@
}

pub open spec fn barcode_128_text(x: u32, y: u32, height: u32, data: Seq<char>) -> Seq<char> {
    field_origin_text(x, y) + "^BY2^BCN,"@ + decimal(height as nat) + ",Y,N,N"@ + field_data_text(
        data,
    )
}

pub open spec fn qrcode_text(x: u32, y: u32, magnification: u32, data: Seq<char>) -> Seq<char> {
    field_origin_text(x, y) + "^BQN,2,"@ + decimal(magnification as nat) + field_data_text(
        "QA,"@ + data,
    )
}

/// A 4 x 2 inch label at 203 dpi (812 x 406 dots): the product name, a
/// Code 128 barcode and the price in yuan, between start and end.
pub open spec fn label_text(product_name: Seq<char>, barcode: Seq<char>, price: int) -> Seq<char> {
    "^XA"@ + seq!['\n'] + label_size_text(812, 406) + seq!['\n'] + field_origin_text(50, 50)
        + font_text('0', 40, 40) + field_data_text(product_name) + seq!['\n'] + barcode_128_text(
        50,
        120,
        80,
        barcode,
    ) + seq!['\n'] + field_origin_text(50, 250) + font_text('0', 60, 60) + field_data_text(
        "¥"@ + money_text(price),
    ) + seq!['\n'] + "^XZ"@
}

fn push_label_size(out: &mut String, width: u32, height: u32)
    ensures
        final(out)@ == old(out)@ + label_size_text(width, height),
{
    out.append("^PW");
    push_decimal(out, width as u64);
    out.append("^LL");
    push_decimal(out, height as u64);
    assert(out@ =~= old(out)@ + label_size_text(width, height));
}

fn push_field_origin(out: &mut String, x: u32, y: u32)
    ensures
        final(out)@ == old(out)@ + field_origin_text(x, y),
{
    out.append("^FO");
    push_decimal(out, x as u64);
    push_char(out, ',');
    push_decimal(out, y as u64);
    assert(out@ =~= old(out)@ + field_origin_text(x, y));
}

fn push_font(out: &mut String, name: char, height: u32, width: u32)
    ensures
        final(out)@ == old(out)@ + font_text(name, height, width),
{
    out.append("^A");
    push_char(out, name);
    push_char(out, ',');
    push_decimal(out, height as u64);
    push_char(out, ',');
    push_decimal(out, width as u64);
    assert(out@ =~= old(out)@ + font_text(name, height, width));
}

fn push_field_data(out: &mut String, text: &str)
    ensures
        final(out)@ == old(out)@ + field_data_text(text@),
{
    out.append("^FD");
    out.append(text);
    out.append("^FS");
    assert(out@ =~= old(out)@ + field_data_text(text@));
}

fn push_barcode_128(out: &mut String, x: u32, y: u32, height: u32, data: &str)
    ensures
        final(out)@ == old(out)@ + barcode_128_text(x, y, height, data@),
{
    push_field_origin(out, x, y);
    out.append("^BY2^BCN,");
    push_decimal(out, height as u64);
    out.append(",Y,N,N");
    push_field_data(out, data);
    assert(out@ =~= old(out)@ + barcode_128_text(x, y, height, data@));
}

/// Label size in dots: `^PW<width>^LL<height>`.
pub fn label_size(width: u32, height: u32) -> (r: String)
    ensures
        r@ == label_size_text(width, height),
{
    let mut out = String::new();
    push_label_size(&mut out, width, height);
    out
}

/// Field origin: `^FO<x>,<y>`.
pub fn field_origin(x: u32, y: u32) -> (r: String)
    ensures
        r@ == field_origin_text(x, y),
{
    let mut out = String::new();
    push_field_origin(&mut out, x, y);
    out
}

/// Font selection: `^A<name>,<height>,<width>`.
pub fn font(name: char, height: u32, width: u32) -> (r: String)
    ensures
        r@ == font_text(name, height, width),
{
    let mut out = String::new();
    push_font(&mut out, name, height, width);
    out
}

/// Field data with its terminator: `^FD<text>^FS`.
pub fn field_data(text: &str) -> (r: String)
    ensures
        r@ == field_data_text(text@),
{
    let mut out = String::new();
    push_field_data(&mut out, text);
    out
}

/// A Code 128 barcode field at `(x, y)`, `height` dots high.
pub fn barcode_128(x: u32, y: u32, height: u32, data: &str) -> (r: String)
    ensures
        r@ == barcode_128_text(x, y, height, data@),
{
    let mut out = String::new();
    push_barcode_128(&mut out, x, y, height, data);
    out
}

/// A QR code field at `(x, y)` with the given magnification.
pub fn qrcode(x: u32, y: u32, magnification: u32, data: &str) -> (r: String)
    ensures
        r@ == qrcode_text(x, y, magnification, data@),
{
    let mut out = String::new();
    push_field_origin(&mut out, x, y);
    out.append("^BQN,2,");
    push_decimal(&mut out, magnification as u64);
    out.append("^FD");
    out.append("QA,");
    out.append(data);
    out.append("^FS");
    assert(out@ =~= qrcode_text(x, y, magnification, data@));
    out
}

/// A simple product label; the price is in hundredths of a yuan.
pub fn build_label(product_name: &str, barcode: &str, price: i64) -> (r: String)
    ensures
        r@ == label_text(product_name@, barcode@, price as int),
{
    let mut zpl = String::new();
    zpl.append(LABEL_START);
    push_char(&mut zpl, '\n');
    push_label_size(&mut zpl, 812, 406);
    push_char(&mut zpl, '\n');
    push_field_origin(&mut zpl, 50, 50);
    push_font(&mut zpl, '0', 40, 40);
    push_field_data(&mut zpl, product_name);
    push_char(&mut zpl, '\n');
    push_barcode_128(&mut zpl, 50, 120, 80, barcode);
    push_char(&mut zpl, '\n');
    push_field_origin(&mut zpl, 50, 250);
    push_font(&mut zpl, '0', 60, 60);
    let mut price_text = String::new();
    price_text.append("¥");
    push_money(&mut price_text, price);
    push_field_data(&mut zpl, price_text.as_str());
    push_char(&mut zpl, '\n');
    zpl.append(LABEL_END);
    assert(zpl@ =~= label_text(product_name@, barcode@, price as int));
    zpl
}

} // verus!
