//! ESC/POS command bytes for thermal receipt printers, and a simple
//! receipt built from them.

use vstd::prelude::*;
use vstd::string::StringExecFns;
use vstd::string::StrSliceExecFns;
use vstd::utf8::encode_utf8;
use crate::text::{justify_left, justify_right, money_text, money_string, push_justified_left,
    push_justified_right, push_char};

verus! {

/// Initialise the printer.
pub const INIT: [u8; 2] = [0x1B, 0x40];

/// Centre the lines that follow.
pub const ALIGN_CENTER: [u8; 3] = [0x1B, 0x61, 0x01];

/// Align the lines that follow to the left.
pub const ALIGN_LEFT: [u8; 3] = [0x1B, 0x61, 0x00];

/// Align the lines that follow to the right.
pub const ALIGN_RIGHT: [u8; 3] = [0x1B, 0x61, 0x02];

/// Bold on.
pub const BOLD_ON: [u8; 3] = [0x1B, 0x45, 0x01];

/// Bold off.
pub const BOLD_OFF: [u8; 3] = [0x1B, 0x45, 0x00];

/// Double-height characters.
pub const DOUBLE_HEIGHT: [u8; 3] = [0x1B, 0x21, 0x10];

/// Double-width characters.
pub const DOUBLE_WIDTH: [u8; 3] = [0x1B, 0x21, 0x20];

/// Normal-size characters.
pub const NORMAL_SIZE: [u8; 3] = [0x1B, 0x21, 0x00];

/// Partial cut.
pub const CUT_PARTIAL: [u8; 2] = [0x1D, 0x6D];

/// Full cut.
pub const CUT_FULL: [u8; 2] = [0x1D, 0x69];

/// Feed three lines, then cut partially.
pub const FEED_AND_CUT: [u8; 5] = [0x1B, 0x64, 0x03, 0x1D, 0x6D];

/// Feed `n` lines.
pub fn feed_lines(n: u8) -> (r: Vec<u8>)
    ensures
        r@ == seq![0x1Bu8, 0x64u8, n],
{
    vec![0x1B, 0x64, n]
}

/// Sound the buzzer `times` times for `duration` units each.
pub fn beep(times: u8, duration: u8) -> (r: Vec<u8>)
    ensures
        r@ == seq![0x1Bu8, 0x42u8, times, duration],
{
    vec![0x1B, 0x42, times, duration]
}

/// The separator rule of a receipt: 32 dashes and a line break.
pub open spec fn rule_text() -> Seq<char> {
    "--------------------------------\n"@
}

/// One receipt line: the name left-justified to 20 characters, a space,
/// the amount with two decimals right-justified to 10, a line break.
pub open spec fn item_line(name: Seq<char>, cents: int) -> Seq<char> {
    justify_left(name, 20, ' ') + seq![' '] + justify_right(money_text(cents), 10, ' ') + seq!['\n']
}

/// The lines of `items`, in order.
pub open spec fn item_lines(items: Seq<(String, i64)>) -> Seq<char>
    decreases items.len(),
{
    if items.len() == 0 {
        seq![]
    } else {
        item_lines(items.drop_last()) + item_line(items.last().0@, items.last().1 as int)
    }
}

/// The characters of a receipt: initialise; the title centred at double
/// height; the rule at the left; one line per item; the rule; the total
/// line in bold; feed and cut.
pub open spec fn receipt_text(title: Seq<char>, items: Seq<(String, i64)>, total: int) -> Seq<
    char,
> {
    "\x1B@"@ + "\x1Ba\x01"@ + "\x1B!\x10"@ + title + seq!['\n'] + "\x1B!\x00"@ + "\x1Ba\x00"@
        + rule_text() + item_lines(items) + rule_text() + "\x1BE\x01"@ + item_line(
        "合计"@,
        total,
    ) + "\x1BE\x00"@ + "\x1Bd\x03\x1Dm"@
}

fn push_item_line(out: &mut String, name: &str, cents: i64)
    ensures
        final(out)@ == old(out)@ + item_line(name@, cents as int),
{
    push_justified_left(out, name, 20, ' ');
    push_char(out, ' ');
    let amount = money_string(cents);
    push_justified_right(out, amount.as_str(), 10, ' ');
    push_char(out, '\n');
    assert(out@ =~= old(out)@ + item_line(name@, cents as int));
}

/// A simple receipt. Amounts are in hundredths of the currency unit.
pub fn build_receipt(title: &str, items: &[(String, i64)], total: i64) -> (r: Vec<u8>)
    ensures
        r@ == encode_utf8(receipt_text(title@, items@, total as int)),
{
    let mut text = String::new();
    text.append("\x1B@");
    text.append("\x1Ba\x01");
    text.append("\x1B!\x10");
    text.append(title);
    push_char(&mut text, '\n');
    text.append("\x1B!\x00");
    text.append("\x1Ba\x00");
    text.append("--------------------------------\n");
    let ghost head = text@;
    let mut i: usize = 0;
    while i < items.len()
        invariant
            i <= items@.len(),
            text@ == head + item_lines(items@.subrange(0, i as int)),
        decreases items@.len() - i,
    {
        let item = &items[i];
        push_item_line(&mut text, item.0.as_str(), item.1);
        assert(items@.subrange(0, i + 1).drop_last() == items@.subrange(0, i as int));
        i += 1;
    }
    assert(items@.subrange(0, items@.len() as int) == items@);
    text.append("--------------------------------\n");
    text.append("\x1BE\x01");
    push_item_line(&mut text, "合计", total);
    text.append("\x1BE\x00");
    text.append("\x1Bd\x03\x1Dm");
    assert(text@ =~= receipt_text(title@, items@, total as int));
    text.as_str().as_bytes_vec()
}

} // verus!
