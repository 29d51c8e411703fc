//! The values a caller hands over to describe one print job.

use vstd::prelude::*;

verus! {

/// One printable line: its text, how it is formatted, and an optional QR
/// payload printed below it.
#[derive(Clone, Debug, PartialEq, Eq)]
pub struct Line {
    /// The text to print; an empty text prints nothing.
    pub text: String,
    /// Centre the line instead of aligning it left.
    pub center: bool,
    /// Print in bold.
    pub bold: bool,
    /// Print in double width and height.
    pub double_size: bool,
    /// Payload of a QR code to print after the text.
    pub qr: Option<String>,
}

/// What a line says, with its strings taken as sequences of characters.
pub struct LineContent {
    pub text: Seq<char>,
    pub center: bool,
    pub bold: bool,
    pub double_size: bool,
    pub qr: Option<Seq<char>>,
}

impl View for Line {
    type V = LineContent;

    open spec fn view(&self) -> LineContent {
        LineContent {
            text: self.text@,
            center: self.center,
            bold: self.bold,
            double_size: self.double_size,
            qr: match self.qr {
                Some(payload) => Some(payload@),
                None => None,
            },
        }
    }
}

impl DeepView for Line {
    type V = LineContent;

    open spec fn deep_view(&self) -> LineContent {
        self@
    }
}

/// A complete print job: who asked, which printer, and what to print.
#[derive(Debug)]
pub struct PrintInfo {
    /// A label chosen by the caller; it does not affect the printed bytes.
    pub name: String,
    /// USB product id of the printer.
    pub pid: u16,
    /// USB vendor id of the printer.
    pub vid: u16,
    /// The lines in print order.
    pub lines: Vec<Line>,
}

} // verus!
