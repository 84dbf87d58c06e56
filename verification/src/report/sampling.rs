//! Time sampling of a product: which of its data gaps are the shortest and the longest.
use vstd::prelude::*;

use crate::text::{decimal, decimal_string, html_escape, push_html_escaped};

verus! {

/// `i` is the first position of a smallest duration of `d`.
pub open spec fn is_first_minimum(d: Seq<i128>, i: int) -> bool {
    &&& 0 <= i < d.len()
    &&& forall|j: int| 0 <= j < d.len() ==> d[i] <= #[trigger] d[j]
    &&& forall|j: int| 0 <= j < i ==> d[i] < #[trigger] d[j]
}

/// `i` is the last position of a largest duration of `d`.
pub open spec fn is_last_maximum(d: Seq<i128>, i: int) -> bool {
    &&& 0 <= i < d.len()
    &&& forall|j: int| 0 <= j < d.len() ==> #[trigger] d[j] <= d[i]
    &&& forall|j: int| i < j < d.len() ==> #[trigger] d[j] < d[i]
}

/// The position of the shortest data gap, given the gap durations in
/// nanoseconds in detection order: the first of the shortest ones, none
/// when there is no gap.
pub fn shortest_gap(durations: &Vec<i128>) -> (r: Option<usize>)
    ensures
        match r {
            Some(i) => is_first_minimum(durations@, i as int),
            None => durations@.len() == 0,
        },
{
    if durations.len() == 0 {
        return None;
    }
    let mut best: usize = 0;
    let mut i: usize = 1;
    while i < durations.len()
        invariant
            1 <= i <= durations@.len(),
            best < i,
            forall|j: int| 0 <= j < i ==> durations@[best as int] <= #[trigger] durations@[j],
            forall|j: int| 0 <= j < best ==> durations@[best as int] < #[trigger] durations@[j],
        decreases durations@.len() - i,
    {
        if durations[i] < durations[best] {
            best = i;
        }
        i = i + 1;
    }
    Some(best)
}

/// The position of the longest data gap, given the gap durations in
/// nanoseconds in detection order: the last of the longest ones, none when
/// there is no gap.
pub fn longest_gap(durations: &Vec<i128>) -> (r: Option<usize>)
    ensures
        match r {
            Some(i) => is_last_maximum(durations@, i as int),
            None => durations@.len() == 0,
        },
{
    if durations.len() == 0 {
        return None;
    }
    let mut best: usize = 0;
    let mut i: usize = 1;
    while i < durations.len()
        invariant
            1 <= i <= durations@.len(),
            best < i,
            forall|j: int| 0 <= j < i ==> #[trigger] durations@[j] <= durations@[best as int],
            forall|j: int| best < j < i ==> #[trigger] durations@[j] < durations@[best as int],
        decreases durations@.len() - i,
    {
        if durations[i] >= durations[best] {
            best = i;
        }
        i = i + 1;
    }
    Some(best)
}

/// The shortest gap is never longer than the longest one.
pub proof fn lemma_shortest_not_longer(d: Seq<i128>, s: int, l: int)
    requires
        is_first_minimum(d, s),
        is_last_maximum(d, l),
    ensures
        d[s] <= d[l],
{
    assert(d[s] <= d[l]);
}

} // verus!

verus! {

/// A data gap, as a report shows it: when it starts and how long it lasts,
/// with its length in nanoseconds to compare it with other gaps.
#[derive(Debug, Clone)]
pub struct Gap {
    /// Start of the gap, as displayed
    pub start: String,
    /// Length of the gap, as displayed
    pub duration: String,
    /// Length of the gap in nanoseconds
    pub duration_ns: i128,
}

/// What the sampling table of a product shows: its time frame, its sampling
/// period and rate when known, and its data gaps in detection order.
pub struct SamplingSummary {
    /// First epoch, as displayed
    pub first_epoch: String,
    /// Last epoch, as displayed
    pub last_epoch: String,
    /// Time span, as displayed
    pub duration: String,
    /// Sampling period the header declares, as displayed
    pub sampling_interval: Option<String>,
    /// Dominant sampling rate in Hz, written with three decimals
    pub dominant_sample_rate: Option<String>,
    /// Data gaps, in detection order
    pub gaps: Vec<Gap>,
}

/// The lengths of gaps, in nanoseconds.
pub open spec fn gap_lengths(gaps: Seq<Gap>) -> Seq<i128> {
    gaps.map_values(|g: Gap| g.duration_ns)
}

/// A table row for a gap.
pub open spec fn gap_row_html(label: Seq<char>, g: Gap) -> Seq<char> {
    "<tr><th>"@ + label + "</th><td>"@ + html_escape(g.start@) + "</td><td>"@ + html_escape(
        g.duration@,
    ) + "</td></tr>"@
}

/// The gap rows of a table: how many gaps there are, then the shortest and
/// the longest of them; a single row when there is none.
pub open spec fn gaps_html(gaps: Seq<Gap>) -> Seq<char> {
    if gaps.len() == 0 {
        "<tr><th class=\"is-primary\">Data gaps</th><td>No gaps detected</td></tr>"@
    } else {
        let d = gap_lengths(gaps);
        let s = choose|i: int| is_first_minimum(d, i);
        let l = choose|i: int| is_last_maximum(d, i);
        "<tr><th class=\"is-warning\">Data gaps</th><td>"@ + decimal(gaps.len()) + " Data gaps"@
            + "</td></tr>"@ + gap_row_html("Shortest"@, gaps[s]) + gap_row_html(
            "Longest"@,
            gaps[l],
        )
    }
}

/// The HTML of a sampling table.
pub open spec fn sampling_html(s: SamplingSummary) -> Seq<char> {
    "<div class=\"table-container\"><table class=\"table is-bordered\"><tbody><tr><th class=\"is-info\">Time Frame</th></tr><tr><th>Start</th><td>"@
        + html_escape(s.first_epoch@) + "</td><th>End</th><td>"@ + html_escape(s.last_epoch@)
        + "</td></tr><tr><th>Duration</th><td>"@ + html_escape(s.duration@) + "</td></tr>"@
        + match s.sampling_interval {
        Some(p) => "<tr><th class=\"is-info\">Sampling Period</th></tr><tr><td>"@ + html_escape(p@)
            + "</td></tr>"@,
        None => Seq::empty(),
    } + match s.dominant_sample_rate {
        Some(r) => "<tr><th class=\"is-info\">Dominant Sampling Rate</th></tr><tr><td>"@
            + html_escape(r@ + " Hz"@) + "</td></tr>"@,
        None => Seq::empty(),
    } + gaps_html(s.gaps@) + "</tbody></table></div>"@
}

fn push_gap_row(out: &mut String, label: &str, g: &Gap)
    ensures
        final(out)@ == old(out)@ + gap_row_html(label@, *g),
{
    out.append("<tr><th>");
    out.append(label);
    out.append("</th><td>");
    push_html_escaped(out, g.start.as_str());
    out.append("</td><td>");
    push_html_escaped(out, g.duration.as_str());
    out.append("</td></tr>");
    assert(final(out)@ =~= old(out)@ + gap_row_html(label@, *g));
}

impl SamplingSummary {
    /// This sampling table as HTML.
    pub fn render(&self) -> (html: String)
        ensures
            html@ == sampling_html(*self),
    {
        let mut s = String::from_str(
            "<div class=\"table-container\"><table class=\"table is-bordered\"><tbody><tr><th class=\"is-info\">Time Frame</th></tr><tr><th>Start</th><td>",
        );
        push_html_escaped(&mut s, self.first_epoch.as_str());
        s.append("</td><th>End</th><td>");
        push_html_escaped(&mut s, self.last_epoch.as_str());
        s.append("</td></tr><tr><th>Duration</th><td>");
        push_html_escaped(&mut s, self.duration.as_str());
        s.append("</td></tr>");
        let ghost head = s@;
        if let Some(p) = &self.sampling_interval {
            s.append("<tr><th class=\"is-info\">Sampling Period</th></tr><tr><td>");
            push_html_escaped(&mut s, p.as_str());
            s.append("</td></tr>");
        }
        let ghost with_period = s@;
        if let Some(r) = &self.dominant_sample_rate {
            s.append("<tr><th class=\"is-info\">Dominant Sampling Rate</th></tr><tr><td>");
            let mut text = r.clone();
            text.append(" Hz");
            push_html_escaped(&mut s, text.as_str());
            s.append("</td></tr>");
        }
        let ghost with_rate = s@;
        if self.gaps.len() == 0 {
            s.append("<tr><th class=\"is-primary\">Data gaps</th><td>No gaps detected</td></tr>");
        } else {
            s.append("<tr><th class=\"is-warning\">Data gaps</th><td>");
            let count = decimal_string(self.gaps.len());
            s.append(count.as_str());
            s.append(" Data gaps");
            s.append("</td></tr>");
            let lengths = self.gap_lengths();
            let short = shortest_gap(&lengths);
            let long = longest_gap(&lengths);
            match (short, long) {
                (Some(i), Some(j)) => {
                    push_gap_row(&mut s, "Shortest", &self.gaps[i]);
                    push_gap_row(&mut s, "Longest", &self.gaps[j]);
                    proof {
                        let d = gap_lengths(self.gaps@);
                        lemma_first_minimum_unique(d, i as int, choose|k: int| is_first_minimum(d, k));
                        lemma_last_maximum_unique(d, j as int, choose|k: int| is_last_maximum(d, k));
                    }
                },
                _ => {},
            }
        }
        s.append("</tbody></table></div>");
        assert(s@ =~= sampling_html(*self));
        s
    }

    /// The lengths of the gaps, in nanoseconds.
    fn gap_lengths(&self) -> (v: Vec<i128>)
        ensures
            v@ == gap_lengths(self.gaps@),
    {
        let mut v: Vec<i128> = Vec::new();
        let mut i: usize = 0;
        while i < self.gaps.len()
            invariant
                i <= self.gaps@.len(),
                v@ == gap_lengths(self.gaps@.subrange(0, i as int)),
            decreases self.gaps@.len() - i,
        {
            v.push(self.gaps[i].duration_ns);
            proof {
                assert(gap_lengths(self.gaps@.subrange(0, i + 1)) =~= gap_lengths(
                    self.gaps@.subrange(0, i as int),
                ).push(self.gaps@[i as int].duration_ns));
            }
            i = i + 1;
        }
        assert(self.gaps@.subrange(0, i as int) =~= self.gaps@);
        v
    }
}

/// A sequence has one first smallest element.
pub proof fn lemma_first_minimum_unique(d: Seq<i128>, a: int, b: int)
    requires
        is_first_minimum(d, a),
    ensures
        is_first_minimum(d, b) ==> a == b,
{
    if is_first_minimum(d, b) {
        if a < b {
            assert(d[b] < d[a]);
        } else if b < a {
            assert(d[a] < d[b]);
        }
    }
}

/// A sequence has one last largest element.
pub proof fn lemma_last_maximum_unique(d: Seq<i128>, a: int, b: int)
    requires
        is_last_maximum(d, a),
    ensures
        is_last_maximum(d, b) ==> a == b,
{
    if is_last_maximum(d, b) {
        if a < b {
            assert(d[b] < d[a]);
        } else if b < a {
            assert(d[a] < d[b]);
        }
    }
}

} // verus!
