//! Reports as data: lines of text, each with the number that is written
//! behind it, if there is one.

use vstd::prelude::*;
use vstd::string::*;

use crate::float::Float64;

verus! {

/// A number that a report shows, given by how it is obtained.
///
/// Whoever emits the report evaluates it in double-precision arithmetic and
/// writes the result in decimal notation.
#[derive(Clone, Copy, Debug)]
pub enum Amount {
    /// The number itself.
    Value(Float64),
    /// The product of the two numbers.
    Product(Float64, Float64),
    /// The count, converted to the double nearest to it, times the number.
    CountProduct(u64, Float64),
}

/// One line of a report: its text, and the number that follows the text on
/// the same line.
#[derive(Debug)]
pub struct ReportLine {
    pub text: String,
    pub amount: Option<Amount>,
}

/// A report line with its text as a sequence of characters.
pub struct ReportLineView {
    pub text: Seq<char>,
    pub amount: Option<Amount>,
}

impl View for ReportLine {
    type V = ReportLineView;

    open spec fn view(&self) -> ReportLineView {
        ReportLineView { text: self.text@, amount: self.amount }
    }
}

/// The lines of a report, each by its view.
pub open spec fn lines_view(lines: Seq<ReportLine>) -> Seq<ReportLineView> {
    Seq::new(lines.len(), |i: int| lines[i]@)
}

impl ReportLine {
    /// A line of text alone.
    pub fn plain(text: &str) -> (line: ReportLine)
        ensures
            line@ == (ReportLineView { text: text@, amount: None }),
    {
        ReportLine { text: String::from_str(text), amount: None }
    }

    /// A line that names a number and shows it.
    pub fn labelled(label: &str, amount: Amount) -> (line: ReportLine)
        ensures
            line@ == (ReportLineView { text: label@, amount: Some(amount) }),
    {
        ReportLine { text: String::from_str(label), amount: Some(amount) }
    }
}

} // verus!
