//! The command stream of a receipt.
//!
//! A receipt starts by initialising the printer. Every line then sets
//! alignment, weight and size afresh, whatever the line before it set, and
//! prints its text and its QR code. The receipt ends by putting the printer
//! back to plain left-aligned text and cutting the paper.

use vstd::prelude::*;
use vstd::utf8::encode_utf8;
use crate::error::PrintError;
use crate::qr::{qr_code_command, qr_command, renderable};
use crate::request::{Line, LineContent};

verus! {

/// The byte that ends a printed line.
pub const LINE_FEED: u8 = 0x0A;

/// Initialise the printer.
pub open spec fn initialize() -> Seq<u8> {
    seq![0x1Bu8, 0x40u8]
}

/// Select left or centred alignment.
pub open spec fn align(center: bool) -> Seq<u8> {
    seq![0x1Bu8, 0x61u8, if center { 0x01u8 } else { 0x00u8 }]
}

/// Switch bold print on or off.
pub open spec fn bold(on: bool) -> Seq<u8> {
    seq![0x1Bu8, 0x45u8, if on { 0x01u8 } else { 0x00u8 }]
}

/// Select double or normal character size.
pub open spec fn size(double: bool) -> Seq<u8> {
    seq![0x1Du8, 0x21u8, if double { 0x11u8 } else { 0x00u8 }]
}

/// Feed and cut the paper partially.
pub open spec fn partial_cut() -> Seq<u8> {
    seq![0x1Bu8, 0x64u8, 0x03u8]
}

/// Cut the paper fully.
pub open spec fn full_cut() -> Seq<u8> {
    seq![0x1Du8, 0x56u8, 0x00u8]
}

/// Back to plain text: bold off, normal size, left-aligned.
pub open spec fn reset() -> Seq<u8> {
    bold(false) + size(false) + align(false)
}

/// The cut that ends a receipt: a partial cut, then a full cut.
pub open spec fn cut() -> Seq<u8> {
    partial_cut() + full_cut()
}

/// The bytes for a line's text: nothing for an empty text, else the text in
/// UTF-8 and a line feed.
pub open spec fn text_part(text: Seq<char>) -> Seq<u8> {
    if text.len() == 0 {
        Seq::empty()
    } else {
        encode_utf8(text).push(LINE_FEED)
    }
}

/// The bytes for a line's QR code: nothing without a code, else its raster
/// command and a line feed.
pub open spec fn code_part(code: Option<Seq<u8>>) -> Seq<u8> {
    match code {
        Some(command) => command.push(LINE_FEED),
        None => Seq::empty(),
    }
}

/// The bytes of one line, given the raster command of its QR code: the three
/// formatting commands, the text, the code.
pub open spec fn line_with_code(line: LineContent, code: Option<Seq<u8>>) -> Seq<u8> {
    align(line.center) + bold(line.bold) + size(line.double_size) + text_part(line.text)
        + code_part(code)
}

/// Whether the line can be printed: it has no QR payload, or one that can
/// be encoded into a symbol that is printed.
pub open spec fn encodable(line: LineContent) -> bool {
    line.qr matches Some(payload) ==> qr_command(payload) is Some
}

/// The raster command of the line's QR code, if the line has one.
pub open spec fn line_code(line: LineContent) -> Option<Seq<u8>> {
    match line.qr {
        Some(payload) => qr_command(payload),
        None => None,
    }
}

/// The bytes of one line.
pub open spec fn line_bytes(line: LineContent) -> Seq<u8> {
    line_with_code(line, line_code(line))
}

/// The bytes of the lines, in order.
pub open spec fn lines_bytes(lines: Seq<LineContent>) -> Seq<u8>
    decreases lines.len(),
{
    if lines.len() == 0 {
        Seq::empty()
    } else {
        lines_bytes(lines.drop_last()) + line_bytes(lines.last())
    }
}

/// The whole command stream of a receipt.
pub open spec fn receipt(lines: Seq<LineContent>) -> Seq<u8> {
    initialize() + lines_bytes(lines) + reset() + cut()
}

/// Whether every line of the receipt can be printed.
pub open spec fn all_encodable(lines: Seq<LineContent>) -> bool {
    forall|i: int| 0 <= i < lines.len() ==> encodable(#[trigger] lines[i])
}

/// What composing `lines` may return: the receipt's bytes if every line can
/// be printed, and `EncodingError` if one cannot.
pub open spec fn composed(lines: Seq<LineContent>, res: Result<Vec<u8>, PrintError>) -> bool {
    match res {
        Ok(bytes) => all_encodable(lines) && bytes@ == receipt(lines),
        Err(e) => !all_encodable(lines) && e == PrintError::EncodingError,
    }
}

/// Composing is a function of the lines alone: two results for the same
/// lines agree on success and failure, and on every byte.
pub proof fn compose_is_deterministic(
    lines: Seq<LineContent>,
    first: Result<Vec<u8>, PrintError>,
    second: Result<Vec<u8>, PrintError>,
)
    requires
        composed(lines, first),
        composed(lines, second),
    ensures
        first is Ok <==> second is Ok,
        first matches Ok(a) ==> second matches Ok(b) && a@ == b@,
        first matches Err(e) ==> second == Err::<Vec<u8>, PrintError>(e),
{
}

/// A QR payload whose symbol is larger than the largest that is printed, or
/// that fits no symbol at all, makes its line, and with it the whole
/// receipt, fail with `EncodingError`.
pub proof fn unprintable_qr_fails_the_receipt(lines: Seq<LineContent>, i: int)
    requires
        0 <= i < lines.len(),
        lines[i].qr matches Some(payload) && !renderable(payload),
    ensures
        !encodable(lines[i]),
        !all_encodable(lines),
        forall|res: Result<Vec<u8>, PrintError>|
            composed(lines, res) ==> res == Err::<Vec<u8>, PrintError>(PrintError::EncodingError),
{
}

/// A receipt without lines is the initialisation, the reset and the cut,
/// with nothing in between.
pub proof fn empty_receipt()
    ensures
        all_encodable(Seq::empty()),
        receipt(Seq::empty()) == initialize() + reset() + cut(),
        receipt(Seq::empty()) == seq![
            0x1Bu8, 0x40u8,
            0x1Bu8, 0x45u8, 0x00u8,
            0x1Du8, 0x21u8, 0x00u8,
            0x1Bu8, 0x61u8, 0x00u8,
            0x1Bu8, 0x64u8, 0x03u8,
            0x1Du8, 0x56u8, 0x00u8,
        ],
{
    assert(receipt(Seq::empty()) =~= initialize() + reset() + cut());
    assert(initialize() + reset() + cut() =~= seq![
        0x1Bu8, 0x40u8,
        0x1Bu8, 0x45u8, 0x00u8,
        0x1Du8, 0x21u8, 0x00u8,
        0x1Bu8, 0x61u8, 0x00u8,
        0x1Bu8, 0x64u8, 0x03u8,
        0x1Du8, 0x56u8, 0x00u8,
    ]);
}

/// Whatever the lines are, a receipt starts with the initialisation and ends
/// with the reset and the cut, so the printer is left in plain text however
/// the last line was formatted.
pub proof fn receipt_is_framed(lines: Seq<LineContent>)
    ensures
        receipt(lines).len() == 17 + lines_bytes(lines).len(),
        receipt(lines).take(2) == initialize(),
        receipt(lines).skip(receipt(lines).len() - 15) == reset() + cut(),
{
    let r = receipt(lines);
    assert(r.take(2) =~= initialize());
    assert(r.skip(r.len() - 15) =~= reset() + cut());
}

/// Every line states its own formatting: its bytes start with an alignment,
/// a bold and a size command that depend on this line alone, so the bytes of
/// a line are the same wherever in a receipt it stands.
pub proof fn lines_are_self_contained(before: Seq<LineContent>, line: LineContent)
    ensures
        lines_bytes(before.push(line)) == lines_bytes(before) + line_bytes(line),
        line_bytes(line).take(9) == align(line.center) + bold(line.bold) + size(line.double_size),
{
    assert(before.push(line).drop_last() =~= before);
    assert(line_bytes(line).take(9) =~= align(line.center) + bold(line.bold) + size(
        line.double_size,
    ));
}

/// Appends a command of three bytes.
fn push_command(data: &mut Vec<u8>, a: u8, b: u8, c: u8)
    ensures
        final(data)@ == old(data)@ + seq![a, b, c],
{
    data.push(a);
    data.push(b);
    data.push(c);
    assert(data@ =~= old(data)@ + seq![a, b, c]);
}

/// Appends `bytes` and a line feed.
fn push_printed(data: &mut Vec<u8>, bytes: &[u8])
    ensures
        final(data)@ == old(data)@ + bytes@.push(LINE_FEED),
{
    data.extend_from_slice(bytes);
    data.push(LINE_FEED);
    assert(data@ =~= old(data)@ + bytes@.push(LINE_FEED));
}

/// Appends one line to the command stream: alignment, bold and size, each
/// stated anew; the text, if there is any; and the raster command of the
/// line's QR code, if `code` holds one.
pub fn push_line(data: &mut Vec<u8>, line: &Line, code: Option<&Vec<u8>>)
    ensures
        final(data)@ == old(data)@ + line_with_code(
            line@,
            match code {
                Some(command) => Some(command@),
                None => None,
            },
        ),
{
    push_command(data, 0x1B, 0x61, if line.center { 0x01 } else { 0x00 });
    push_command(data, 0x1B, 0x45, if line.bold { 0x01 } else { 0x00 });
    push_command(data, 0x1D, 0x21, if line.double_size { 0x11 } else { 0x00 });
    let ghost formatted = data@;
    assert(formatted =~= old(data)@ + align(line.center) + bold(line.bold) + size(
        line.double_size,
    ));
    let text = line.text.as_str();
    if !text.is_empty() {
        push_printed(data, text.as_bytes());
    }
    let ghost with_text = data@;
    assert(with_text =~= formatted + text_part(line.text@));
    match code {
        Some(command) => {
            push_printed(data, command.as_slice());
        },
        None => {},
    }
    assert(data@ =~= with_text + code_part(
        match code {
            Some(command) => Some(command@),
            None => None,
        },
    ));
}

/// Composes the command stream of a receipt from its lines, in order.
///
/// Returns the receipt's bytes if every QR payload can be encoded, and
/// `EncodingError` if one cannot, be it because its symbol would be larger
/// than `MAX_QR_VERSION`. The result depends on the lines alone.
pub fn compose_print_data(lines: Vec<Line>) -> (res: Result<Vec<u8>, PrintError>)
    ensures
        composed(lines.deep_view(), res),
{
    let ghost content = lines.deep_view();
    let mut data: Vec<u8> = Vec::new();
    data.push(0x1B);
    data.push(0x40);
    assert(data@ =~= initialize());

    let mut i: usize = 0;
    while i < lines.len()
        invariant
            i <= lines.len(),
            content == lines.deep_view(),
            all_encodable(content.take(i as int)),
            data@ == initialize() + lines_bytes(content.take(i as int)),
        decreases lines.len() - i,
    {
        let line = &lines[i];
        assert(content[i as int] == line@);
        let code = match &line.qr {
            Some(payload) => match qr_code_command(payload.as_str()) {
                Ok(command) => Some(command),
                Err(e) => {
                    assert(!encodable(content[i as int]));
                    return Err(e);
                },
            },
            None => None,
        };
        push_line(&mut data, line, code.as_ref());
        proof {
            let done = content.take(i as int);
            assert(content.take(i + 1) =~= done.push(line@));
            lines_are_self_contained(done, line@);
            assert(encodable(line@));
            assert forall|k: int| 0 <= k < i + 1 implies encodable(
                #[trigger] content.take(i + 1)[k],
            ) by {
                if k < i {
                    assert(content.take(i + 1)[k] == done[k]);
                }
            }
        }
        i += 1;
    }
    assert(content.take(i as int) =~= content);

    push_command(&mut data, 0x1B, 0x45, 0x00);
    push_command(&mut data, 0x1D, 0x21, 0x00);
    push_command(&mut data, 0x1B, 0x61, 0x00);
    push_command(&mut data, 0x1B, 0x64, 0x03);
    push_command(&mut data, 0x1D, 0x56, 0x00);
    assert(data@ =~= receipt(content));
    Ok(data)
}

} // verus!
