//! Report configuration: which kind of report to generate.
use vstd::prelude::*;

use crate::text::{ascii_lower, lowers_to, lowers_to_word, trim, trim_end, trim_start, trimmed_chars};

verus! {

/// Configuration Error
#[derive(Debug, Clone, Copy, PartialEq, Eq, Structural)]
pub enum Error {
    /// The text names no known report type.
    InvalidReportType,
}

/// [QcReportType]
#[derive(Debug, Clone, Copy, PartialEq, Eq, Structural)]
pub enum QcReportType {
    /// In [Summary] mode, only the summary section
    /// of the report is to be generated. It is the lightest
    /// form we can generate.
    Summary,
    /// In [Full] mode, we generate the combined report as well,
    /// which results from the consideration of all input product types
    /// at the same time.
    Full,
}

/// The words that select [QcReportType::Summary], in lower case.
pub open spec fn summary_words() -> Set<Seq<char>> {
    set![seq!['s', 'u', 'm'], seq!['s', 'u', 'm', 'm'], seq!['s', 'u', 'm', 'm', 'a', 'r', 'y']]
}

/// The word that selects [QcReportType::Full], in lower case.
pub open spec fn full_word() -> Seq<char> {
    seq!['f', 'u', 'l', 'l']
}

/// What parsing `s` gives: the text is trimmed of white space and lowered;
/// "sum", "summ" and "summary" select the summary, "full" the full report,
/// anything else is refused.
///
/// Lowering is stated on ASCII letters only: no other character lowers to
/// one of the letters of these words, so the outcome is the one of
/// `str::to_lowercase`.
pub open spec fn parse_report_type(s: Seq<char>) -> Result<QcReportType, Error> {
    let t = trim(s);
    if exists|w: Seq<char>| summary_words().contains(w) && lowers_to(t, w) {
        Ok(QcReportType::Summary)
    } else if lowers_to(t, full_word()) {
        Ok(QcReportType::Full)
    } else {
        Err(Error::InvalidReportType)
    }
}

/// The name a [QcReportType] is printed with.
pub open spec fn report_type_name(r: QcReportType) -> Seq<char> {
    match r {
        QcReportType::Full => seq!['F', 'u', 'l', 'l'],
        QcReportType::Summary => seq!['S', 'u', 'm', 'm', 'a', 'r', 'y'],
    }
}

/// Printing a report type and parsing the text back gives the same report type.
pub proof fn lemma_report_type_round_trip(r: QcReportType)
    ensures
        parse_report_type(report_type_name(r)) == Ok::<QcReportType, Error>(r),
{
    let n = report_type_name(r);
    assert(trim_start(n) == n);
    assert(trim_end(n) == n);
    assert(trim(n) == n);
    match r {
        QcReportType::Full => {
            assert(lowers_to(n, full_word()));
            assert forall|w: Seq<char>| summary_words().contains(w) implies !lowers_to(n, w) by {
                assert(w[0] == 's');
                assert(ascii_lower(n[0]) == 'f');
            }
        },
        QcReportType::Summary => {
            let w = seq!['s', 'u', 'm', 'm', 'a', 'r', 'y'];
            assert(summary_words().contains(w));
            assert(lowers_to(n, w));
        },
    }
}

impl Default for QcReportType {
    /// The full report is the default.
    fn default() -> (r: Self)
        ensures
            r == QcReportType::Full,
    {
        QcReportType::Full
    }
}

impl QcReportType {
    /// Parses a report type from its name; see [parse_report_type].
    pub fn parse(s: &str) -> (r: Result<Self, Error>)
        ensures
            r == parse_report_type(s@),
    {
        let t = trimmed_chars(s);
        let sum: [char; 3] = ['s', 'u', 'm'];
        let summ: [char; 4] = ['s', 'u', 'm', 'm'];
        let summary: [char; 7] = ['s', 'u', 'm', 'm', 'a', 'r', 'y'];
        let full: [char; 4] = ['f', 'u', 'l', 'l'];
        let is_sum = lowers_to_word(&t, sum.as_slice());
        let is_summ = lowers_to_word(&t, summ.as_slice());
        let is_summary = lowers_to_word(&t, summary.as_slice());
        let is_full = lowers_to_word(&t, full.as_slice());
        proof {
            assert(sum@ == seq!['s', 'u', 'm']);
            assert(summ@ == seq!['s', 'u', 'm', 'm']);
            assert(summary@ == seq!['s', 'u', 'm', 'm', 'a', 'r', 'y']);
            assert(full@ == full_word());
            assert(summary_words().contains(sum@));
            assert(summary_words().contains(summ@));
            assert(summary_words().contains(summary@));
        }
        if is_sum || is_summ || is_summary {
            Ok(QcReportType::Summary)
        } else if is_full {
            Ok(QcReportType::Full)
        } else {
            Err(Error::InvalidReportType)
        }
    }

    /// The name of this report type, as it is displayed.
    pub fn to_string(&self) -> (s: String)
        ensures
            s@ == report_type_name(*self),
    {
        match self {
            QcReportType::Full => {
                let s = String::from_str("Full");
                proof {
                    reveal_strlit("Full");
                }
                s
            },
            QcReportType::Summary => {
                let s = String::from_str("Summary");
                proof {
                    reveal_strlit("Summary");
                }
                s
            },
        }
    }
}

} // verus!

verus! {

/// Report configuration.
#[derive(Debug, Clone, Copy, PartialEq, Eq, Structural)]
pub struct QcConfig {
    /// Preferred kind of report.
    pub report: QcReportType,
}

impl Default for QcConfig {
    /// The default configuration asks for the full report.
    fn default() -> (c: Self)
        ensures
            c.report == QcReportType::Full,
    {
        QcConfig { report: QcReportType::Full }
    }
}

/// The HTML table row that presents a configuration.
pub open spec fn config_html(c: QcConfig) -> Seq<char> {
    "<tr><td>Report</td><td>"@ + report_type_name(c.report) + "</td></tr>"@
}

impl QcConfig {
    /// Define a new prefered [QcReportType].
    pub fn set_report_type(&mut self, report_type: QcReportType)
        ensures
            *final(self) == (QcConfig { report: report_type, ..*old(self) }),
    {
        self.report = report_type;
    }

    /// Build a [QcConfig] with updated [QcReportType] preference.
    pub fn with_report_type(&self, report_type: QcReportType) -> (c: Self)
        ensures
            c == (QcConfig { report: report_type, ..*self }),
    {
        let mut s = *self;
        s.report = report_type;
        s
    }

    /// This configuration as an HTML table row.
    pub fn render(&self) -> (html: String)
        ensures
            html@ == config_html(*self),
    {
        let mut html = String::from_str("<tr><td>Report</td><td>");
        let name = self.report.to_string();
        html.append(name.as_str());
        html.append("</td></tr>");
        html
    }
}

} // verus!
