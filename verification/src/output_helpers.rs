//! Rendering of a classification as text, in three styles.

use crate::blur_result::{BlurResult, Reading};
use crate::text::{push_decimal, push_fixed3, push_fixed6, push_truth, verdict_text};
use vstd::prelude::*;

verus! {

/// The colours in which verdicts are written.
#[derive(Clone, Copy, Debug, PartialEq, Eq, Structural)]
pub enum Tint {
    Red,
    Green,
}

/// The escape sequence that switches a terminal to a colour.
pub open spec fn ansi_prefix(tint: Tint) -> Seq<char> {
    match tint {
        Tint::Red => "\x1B[31m"@,
        Tint::Green => "\x1B[32m"@,
    }
}

/// The escape sequence that switches a terminal back to its plain style.
pub open spec fn ansi_reset() -> Seq<char> {
    "\x1B[0m"@
}

/// A text between the escape sequences of a colour.
pub open spec fn painted(tint: Tint, text: Seq<char>) -> Seq<char> {
    ansi_prefix(tint) + text + ansi_reset()
}

/// `ansi_term::Colour::paint` wraps a text in a foreground colour, and the
/// `Display` impl of what it returns writes the colour's escape sequence
/// (code 31 for red, 32 for green), the text, and the reset sequence.
#[verifier::external_body]
fn paint(tint: Tint, text: &str) -> (r: String)
    ensures
        r@ == painted(tint, text@),
{
    let colour = match tint {
        Tint::Red => ansi_term::Colour::Red,
        Tint::Green => ansi_term::Colour::Green,
    };
    colour.paint(text).to_string()
}

/// A verdict in colour: blurry in red, sharp in green.
pub open spec fn coloured_verdict(is_blurry: bool) -> Seq<char> {
    if is_blurry {
        painted(Tint::Red, "BLURRY"@)
    } else {
        painted(Tint::Green, "SHARP"@)
    }
}

/// A verdict in colour: blurry in red, sharp in green.
pub fn colour_verdict(is_blurry: bool) -> (r: String)
    ensures
        r@ == coloured_verdict(is_blurry),
{
    if is_blurry {
        paint(Tint::Red, "BLURRY")
    } else {
        paint(Tint::Green, "SHARP")
    }
}

/// The focal length, or a dash where it is unknown.
pub open spec fn focal_text(focal: Option<Seq<char>>) -> Seq<char> {
    match focal {
        Some(text) => text,
        None => "-"@,
    }
}

/// The line of the verbose style for one reading.
pub open spec fn reading_line(r: Reading) -> Seq<char> {
    "  "@ + r.name + ": value = "@ + crate::text::fixed3(r.value as nat) + ", blurry = "@
        + coloured_verdict(r.is_blurry) + " (threshold: "@ + crate::text::fixed3(
        r.threshold as nat,
    ) + ")\n"@
}

/// The lines of the verbose style for the readings, in order.
pub open spec fn reading_lines(readings: Seq<Reading>) -> Seq<char>
    decreases readings.len(),
{
    if readings.len() == 0 {
        Seq::empty()
    } else {
        reading_lines(readings.drop_last()) + reading_line(readings.last())
    }
}

/// The verbose style: the file, its size, its dimensions, its focal length,
/// one line per reading, and the overall verdict.
pub open spec fn verbose_block(
    is_blurry: bool,
    readings: Seq<Reading>,
    size: u64,
    width: u32,
    height: u32,
    focal: Option<Seq<char>>,
    filename: Seq<char>,
) -> Seq<char> {
    "File: "@ + filename + "\n  Size: "@ + crate::text::decimal(size as nat)
        + " bytes\n  Dimensions: "@ + crate::text::decimal(width as nat) + "x"@
        + crate::text::decimal(height as nat) + "\n  Focal Length: "@ + focal_text(focal) + "\n"@
        + reading_lines(readings) + "  Overall blurry: "@ + coloured_verdict(is_blurry) + "\n"@
}

/// The tab-separated fields of one item: path, size, width, height.
pub open spec fn item_fields(filename: Seq<char>, size: u64, width: u32, height: u32) -> Seq<
    char,
> {
    filename + "\t"@ + crate::text::decimal(size as nat) + "\t"@ + crate::text::decimal(
        width as nat,
    ) + "\t"@ + crate::text::decimal(height as nat)
}

/// The tab-separated fields of one reading, each after a tab: name, value
/// with six places, threshold with three places, verdict.
pub open spec fn reading_fields(r: Reading) -> Seq<char> {
    "\t"@ + r.name + "\t"@ + crate::text::fixed6(r.value as nat) + "\t"@ + crate::text::fixed3(
        r.threshold as nat,
    ) + "\t"@ + crate::text::verdict(r.is_blurry)
}

/// The fields of the readings, in order.
pub open spec fn all_reading_fields(readings: Seq<Reading>) -> Seq<char>
    decreases readings.len(),
{
    if readings.len() == 0 {
        Seq::empty()
    } else {
        all_reading_fields(readings.drop_last()) + reading_fields(readings.last())
    }
}

/// The tabular style: one record with the item's fields and then those of
/// every reading.
pub open spec fn ascii_record(
    readings: Seq<Reading>,
    size: u64,
    width: u32,
    height: u32,
    filename: Seq<char>,
) -> Seq<char> {
    item_fields(filename, size, width, height) + all_reading_fields(readings) + "\n"@
}

/// The terse style: the path and the overall verdict.
pub open spec fn terse_line(filename: Seq<char>, is_blurry: bool) -> Seq<char> {
    filename + "\t"@ + crate::text::truth(is_blurry) + "\n"@
}

/// The tabular style of a filter run: one record per reading, each with the
/// item's fields before those of the reading.
pub open spec fn metric_records(
    readings: Seq<Reading>,
    size: u64,
    width: u32,
    height: u32,
    filename: Seq<char>,
) -> Seq<char>
    decreases readings.len(),
{
    if readings.len() == 0 {
        Seq::empty()
    } else {
        metric_records(readings.drop_last(), size, width, height, filename) + (item_fields(
            filename,
            size,
            width,
            height,
        ) + reading_fields(readings.last()) + "\n"@)
    }
}

/// What `print_results` renders: the tabular style where `ascii` is set,
/// else the verbose style where `verbose` is set, else the terse style.
pub open spec fn rendered(
    is_blurry: bool,
    readings: Seq<Reading>,
    size: u64,
    width: u32,
    height: u32,
    focal: Option<Seq<char>>,
    filename: Seq<char>,
    verbose: bool,
    ascii: bool,
) -> Seq<char> {
    if ascii {
        ascii_record(readings, size, width, height, filename)
    } else if verbose {
        verbose_block(is_blurry, readings, size, width, height, focal, filename)
    } else {
        terse_line(filename, is_blurry)
    }
}

/// The line of the verbose style for one reading.
fn render_reading_line(r: &BlurResult) -> (line: String)
    ensures
        line@ == reading_line(r@),
{
    let mut line = "  ".to_owned();
    line.append(r.name.as_str());
    line.append(": value = ");
    push_fixed3(&mut line, r.value);
    line.append(", blurry = ");
    line.append(colour_verdict(r.is_blurry).as_str());
    line.append(" (threshold: ");
    push_fixed3(&mut line, r.threshold);
    line.append(")\n");
    line
}

/// The tab-separated fields of one item.
fn render_item_fields(filename: &str, size: u64, width: u32, height: u32) -> (fields: String)
    ensures
        fields@ == item_fields(filename@, size, width, height),
{
    let mut fields = filename.to_owned();
    fields.append("\t");
    push_decimal(&mut fields, size);
    fields.append("\t");
    push_decimal(&mut fields, width as u64);
    fields.append("\t");
    push_decimal(&mut fields, height as u64);
    fields
}

/// The tab-separated fields of one reading.
fn render_reading_fields(r: &BlurResult) -> (fields: String)
    ensures
        fields@ == reading_fields(r@),
{
    let mut fields = "\t".to_owned();
    fields.append(r.name.as_str());
    fields.append("\t");
    push_fixed6(&mut fields, r.value);
    fields.append("\t");
    push_fixed3(&mut fields, r.threshold);
    fields.append("\t");
    fields.append(verdict_text(r.is_blurry));
    fields
}

/// The readings up to `i` are those up to `i - 1` and the one before `i`.
proof fn lemma_readings_prefix(results: Seq<BlurResult>, i: int)
    requires
        0 <= i < results.len(),
    ensures
        crate::blur_result::readings_of(results).take(i + 1).drop_last()
            == crate::blur_result::readings_of(results).take(i),
        crate::blur_result::readings_of(results).take(i + 1).last() == results[i]@,
{
    let readings = crate::blur_result::readings_of(results);
    assert(readings.take(i + 1).drop_last() =~= readings.take(i));
}

/// Renders a classification in the tabular style where `ascii` is set, else
/// in the verbose style where `verbose` is set, else in the terse style. The
/// text ends with a line break and is ready to be written.
pub fn print_results(
    is_blurry: bool,
    results: &Vec<BlurResult>,
    size: u64,
    width: u32,
    height: u32,
    focal: &Option<String>,
    filename: &str,
    verbose: bool,
    ascii: bool,
) -> (text: String)
    ensures
        text@ == rendered(
            is_blurry,
            crate::blur_result::readings_of(results@),
            size,
            width,
            height,
            crate::text::optional(*focal),
            filename@,
            verbose,
            ascii,
        ),
{
    let ghost readings = crate::blur_result::readings_of(results@);
    if ascii {
        let mut text = render_item_fields(filename, size, width, height);
        let ghost head = text@;
        let mut i: usize = 0;
        assert(text@ =~= head + all_reading_fields(readings.take(0)));
        while i < results.len()
            invariant
                i <= results@.len(),
                readings == crate::blur_result::readings_of(results@),
                text@ == head + all_reading_fields(readings.take(i as int)),
            decreases results@.len() - i,
        {
            proof {
                lemma_readings_prefix(results@, i as int);
            }
            let fields = render_reading_fields(&results[i]);
            text.append(fields.as_str());
            assert(text@ =~= head + all_reading_fields(readings.take(i as int + 1)));
            i = i + 1;
        }
        assert(readings.take(results@.len() as int) =~= readings);
        text.append("\n");
        text
    } else if verbose {
        let mut text = "File: ".to_owned();
        text.append(filename);
        text.append("\n  Size: ");
        push_decimal(&mut text, size);
        text.append(" bytes\n  Dimensions: ");
        push_decimal(&mut text, width as u64);
        text.append("x");
        push_decimal(&mut text, height as u64);
        text.append("\n  Focal Length: ");
        match focal {
            Some(known) => text.append(known.as_str()),
            None => text.append("-"),
        }
        text.append("\n");
        let ghost head = text@;
        let mut i: usize = 0;
        assert(text@ =~= head + reading_lines(readings.take(0)));
        while i < results.len()
            invariant
                i <= results@.len(),
                readings == crate::blur_result::readings_of(results@),
                text@ == head + reading_lines(readings.take(i as int)),
            decreases results@.len() - i,
        {
            proof {
                lemma_readings_prefix(results@, i as int);
            }
            let line = render_reading_line(&results[i]);
            text.append(line.as_str());
            assert(text@ =~= head + reading_lines(readings.take(i as int + 1)));
            i = i + 1;
        }
        assert(readings.take(results@.len() as int) =~= readings);
        text.append("  Overall blurry: ");
        text.append(colour_verdict(is_blurry).as_str());
        text.append("\n");
        text
    } else {
        let mut text = filename.to_owned();
        text.append("\t");
        push_truth(&mut text, is_blurry);
        text.append("\n");
        text
    }
}

/// Renders a classification in the tabular style of a filter run: one
/// record per reading.
pub fn print_metric_records(
    results: &Vec<BlurResult>,
    size: u64,
    width: u32,
    height: u32,
    filename: &str,
) -> (text: String)
    ensures
        text@ == metric_records(
            crate::blur_result::readings_of(results@),
            size,
            width,
            height,
            filename@,
        ),
{
    let ghost readings = crate::blur_result::readings_of(results@);
    let mut text = String::new();
    let mut i: usize = 0;
    assert(text@ =~= metric_records(readings.take(0), size, width, height, filename@));
    while i < results.len()
        invariant
            i <= results@.len(),
            readings == crate::blur_result::readings_of(results@),
            text@ == metric_records(readings.take(i as int), size, width, height, filename@),
        decreases results@.len() - i,
    {
        proof {
            lemma_readings_prefix(results@, i as int);
        }
        let mut record = render_item_fields(filename, size, width, height);
        record.append(render_reading_fields(&results[i]).as_str());
        record.append("\n");
        text.append(record.as_str());
        i = i + 1;
    }
    assert(readings.take(results@.len() as int) =~= readings);
    text
}

} // verus!
