//! Orbital projections report: the HTML of its plots.
use vstd::prelude::*;

use crate::navigation::{constellation_name, Constellation};
use crate::text::{html_escape, push_html_escaped};

verus! {

/// The menu entry of the orbital projections report.
pub open spec fn orbit_menu_html() -> Seq<char> {
    "<a id=\"menu:orbit\"><span class=\"icon\"><i class=\"fa-solid fa-globe\"></i></span>Orbital projections</a>"@
}

/// The menu entry of the orbital projections report.
fn orbit_menu() -> (s: String)
    ensures
        s@ == orbit_menu_html(),
{
    String::from_str(
        "<a id=\"menu:orbit\"><span class=\"icon\"><i class=\"fa-solid fa-globe\"></i></span>Orbital projections</a>",
    )
}

/// The three rows every orbital report shows, given the HTML of its map
/// projection, sky plot and elevation plot.
pub open spec fn orbit_rows_html(map: Seq<char>, sky: Seq<char>, elev: Seq<char>) -> Seq<char> {
    "<tr><th class=\"is-info\">Map projection</th><td>"@ + map
        + "</td></tr><tr><th class=\"is-info\">Sky plot</th><td>"@ + sky
        + "</td></tr><tr><th class=\"is-info\">Elevation</th><td>"@ + elev + "</td></tr>"@
}

/// Opening of a bordered table.
pub open spec fn table_open() -> Seq<char> {
    "<div class=\"table-container\"><table class=\"table is-bordered\">"@
}

/// Closing of a bordered table.
pub open spec fn table_close() -> Seq<char> {
    "</table></div>"@
}

fn push_orbit_rows(out: &mut String, map: &String, sky: &String, elev: &String)
    ensures
        final(out)@ == old(out)@ + orbit_rows_html(map@, sky@, elev@),
{
    out.append("<tr><th class=\"is-info\">Map projection</th><td>");
    out.append(map.as_str());
    out.append("</td></tr><tr><th class=\"is-info\">Sky plot</th><td>");
    out.append(sky.as_str());
    out.append("</td></tr><tr><th class=\"is-info\">Elevation</th><td>");
    out.append(elev.as_str());
    out.append("</td></tr>");
    assert(final(out)@ =~= old(out)@ + orbit_rows_html(map@, sky@, elev@));
}

/// Orbital projections report without SP3 support: the HTML of its plots.
pub struct OrbitalReport {
    /// Sky plot
    pub sky_plot: String,
    /// Elevation plot
    pub elev_plot: String,
    /// Map projection
    pub map_proj: String,
}

impl OrbitalReport {
    /// The menu entry of this report.
    pub fn html_inline_menu_bar(&self) -> (s: String)
        ensures
            s@ == orbit_menu_html(),
    {
        orbit_menu()
    }

    /// This report as HTML.
    pub fn render(&self) -> (s: String)
        ensures
            s@ == table_open() + orbit_rows_html(self.map_proj@, self.sky_plot@, self.elev_plot@)
                + table_close(),
    {
        let mut s = String::from_str("<div class=\"table-container\"><table class=\"table is-bordered\">");
        push_orbit_rows(&mut s, &self.map_proj, &self.sky_plot, &self.elev_plot);
        s.append("</table></div>");
        s
    }
}

/// Broadcast orbits against SP3 orbits, for one constellation: the HTML of the
/// plots of the position errors along each axis.
pub struct BrdcSp3Report {
    /// X errors plot
    pub x_err_plot: String,
    /// Y errors plot
    pub y_err_plot: String,
    /// Z errors plot
    pub z_err_plot: String,
}

/// The HTML of a [BrdcSp3Report].
pub open spec fn brdc_sp3_html(r: BrdcSp3Report) -> Seq<char> {
    table_open() + "<tr><th class=\"is-info\">X errors</th><td>"@ + r.x_err_plot@
        + "</td></tr><tr><th class=\"is-info\">Y errors</th><td>"@ + r.y_err_plot@
        + "</td></tr><tr><th class=\"is-info\">Z errors</th><td>"@ + r.z_err_plot@
        + "</td></tr>"@ + table_close()
}

impl BrdcSp3Report {
    /// This report as HTML.
    pub fn render(&self) -> (s: String)
        ensures
            s@ == brdc_sp3_html(*self),
    {
        let mut s = String::from_str("<div class=\"table-container\"><table class=\"table is-bordered\">");
        s.append("<tr><th class=\"is-info\">X errors</th><td>");
        s.append(self.x_err_plot.as_str());
        s.append("</td></tr><tr><th class=\"is-info\">Y errors</th><td>");
        s.append(self.y_err_plot.as_str());
        s.append("</td></tr><tr><th class=\"is-info\">Z errors</th><td>");
        s.append(self.z_err_plot.as_str());
        s.append("</td></tr>");
        s.append("</table></div>");
        assert(s@ =~= brdc_sp3_html(*self));
        s
    }
}

/// Orbital projections report with SP3 support: the HTML of its plots, and
/// one broadcast against SP3 comparison per constellation both products share.
pub struct OrbitReport {
    /// Sky plot
    pub sky_plot: String,
    /// Elevation plot
    pub elev_plot: String,
    /// Map projection
    pub map_proj: String,
    /// Broadcast against SP3 comparisons, per constellation
    pub brdc_sp3_err: Vec<(Constellation, BrdcSp3Report)>,
}

/// The rows of the broadcast against SP3 comparisons, in order.
pub open spec fn brdc_rows_html(pages: Seq<(Constellation, BrdcSp3Report)>) -> Seq<char>
    decreases pages.len(),
{
    if pages.len() == 0 {
        Seq::empty()
    } else {
        let (c, r) = pages.last();
        brdc_rows_html(pages.drop_last()) + "<tr><th class=\"is-info\">"@ + html_escape(
            constellation_name(c) + " SP3/BRDC"@,
        ) + "</th><td>"@ + brdc_sp3_html(r) + "</td></tr>"@
    }
}

/// The row of one broadcast against SP3 comparison: the constellation's
/// name followed by " SP3/BRDC", then the comparison's table.
pub open spec fn comparison_row(c: Constellation, r: BrdcSp3Report) -> Seq<char> {
    "<tr><th class=\"is-info\">"@ + html_escape(constellation_name(c) + " SP3/BRDC"@) + "</th><td>"@
        + brdc_sp3_html(r) + "</td></tr>"@
}

/// No comparison, no row.
pub proof fn lemma_no_comparison_no_row()
    ensures
        brdc_rows_html(Seq::<(Constellation, BrdcSp3Report)>::empty()) == Seq::<char>::empty(),
{
}

/// One more comparison adds its row after the rows of the others.
pub proof fn lemma_comparison_adds_its_row(
    pages: Seq<(Constellation, BrdcSp3Report)>,
    c: Constellation,
    r: BrdcSp3Report,
)
    ensures
        brdc_rows_html(pages.push((c, r))) == brdc_rows_html(pages) + comparison_row(c, r),
{
    assert(pages.push((c, r)).drop_last() =~= pages);
    assert(brdc_rows_html(pages.push((c, r))) =~= brdc_rows_html(pages) + comparison_row(c, r));
}

/// The rows of two lists of comparisons, one after the other, are the rows
/// of the first list followed by those of the second: every comparison has
/// its row, in order.
pub proof fn lemma_comparison_rows_concat(
    a: Seq<(Constellation, BrdcSp3Report)>,
    b: Seq<(Constellation, BrdcSp3Report)>,
)
    ensures
        brdc_rows_html(a + b) == brdc_rows_html(a) + brdc_rows_html(b),
    decreases b.len(),
{
    if b.len() == 0 {
        assert(a + b =~= a);
        assert(brdc_rows_html(a) + brdc_rows_html(b) =~= brdc_rows_html(a));
    } else {
        let (c, r) = b.last();
        let b0 = b.drop_last();
        assert(a + b =~= (a + b0).push((c, r)));
        assert(b =~= b0.push((c, r)));
        lemma_comparison_rows_concat(a, b0);
        lemma_comparison_adds_its_row(a + b0, c, r);
        lemma_comparison_adds_its_row(b0, c, r);
        assert(brdc_rows_html(a) + brdc_rows_html(b0) + comparison_row(c, r) =~= brdc_rows_html(a) + (
        brdc_rows_html(b0) + comparison_row(c, r)));
    }
}

impl OrbitReport {
    /// The menu entry of this report.
    pub fn html_inline_menu_bar(&self) -> (s: String)
        ensures
            s@ == orbit_menu_html(),
    {
        orbit_menu()
    }

    /// This report as HTML: the plots, then one row per comparison.
    pub fn render(&self) -> (s: String)
        ensures
            s@ == table_open() + orbit_rows_html(self.map_proj@, self.sky_plot@, self.elev_plot@)
                + brdc_rows_html(self.brdc_sp3_err@) + table_close(),
    {
        let mut s = String::from_str("<div class=\"table-container\"><table class=\"table is-bordered\">");
        push_orbit_rows(&mut s, &self.map_proj, &self.sky_plot, &self.elev_plot);
        let ghost head = s@;
        let mut i: usize = 0;
        while i < self.brdc_sp3_err.len()
            invariant
                i <= self.brdc_sp3_err@.len(),
                s@ == head + brdc_rows_html(self.brdc_sp3_err@.subrange(0, i as int)),
            decreases self.brdc_sp3_err@.len() - i,
        {
            let (c, page) = &self.brdc_sp3_err[i];
            let ghost before = s@;
            s.append("<tr><th class=\"is-info\">");
            let mut title = c.to_string();
            title.append(" SP3/BRDC");
            push_html_escaped(&mut s, title.as_str());
            s.append("</th><td>");
            let body = page.render();
            s.append(body.as_str());
            s.append("</td></tr>");
            proof {
                let sub = self.brdc_sp3_err@.subrange(0, i + 1);
                assert(sub.drop_last() =~= self.brdc_sp3_err@.subrange(0, i as int));
                assert(sub.last() == self.brdc_sp3_err@[i as int]);
                assert(s@ =~= head + brdc_rows_html(sub));
            }
            i = i + 1;
        }
        s.append("</table></div>");
        assert(self.brdc_sp3_err@.subrange(0, self.brdc_sp3_err@.len() as int)
            =~= self.brdc_sp3_err@);
        s
    }
}

/// Whether `cs` lists constellation `c`.
fn lists_constellation(cs: &Vec<Constellation>, c: Constellation) -> (b: bool)
    ensures
        b == cs@.contains(c),
{
    let mut i: usize = 0;
    while i < cs.len()
        invariant
            i <= cs@.len(),
            forall|j: int| 0 <= j < i ==> cs@[j] != c,
        decreases cs@.len() - i,
    {
        if cs[i] == c {
            assert(cs@[i as int] == c);
            return true;
        }
        i = i + 1;
    }
    false
}

/// The constellations a broadcast against SP3 comparison is made for: those
/// of the SP3 data, in their order, that the navigation data hold too.
pub fn brdc_sp3_constellations(sp3: Vec<Constellation>, nav: Vec<Constellation>) -> (r: Vec<Constellation>)
    ensures
        r@ == sp3@.filter(|c: Constellation| nav@.contains(c)),
{
    let ghost pred = |c: Constellation| nav@.contains(c);
    let mut r: Vec<Constellation> = Vec::new();
    let mut i: usize = 0;
    while i < sp3.len()
        invariant
            i <= sp3@.len(),
            pred == (|c: Constellation| nav@.contains(c)),
            r@ == sp3@.subrange(0, i as int).filter(pred),
        decreases sp3@.len() - i,
    {
        let c = sp3[i];
        proof {
            reveal(Seq::filter);
            let front = sp3@.subrange(0, i + 1);
            assert(front.drop_last() =~= sp3@.subrange(0, i as int));
            assert(front.last() == c);
        }
        if lists_constellation(&nav, c) {
            r.push(c);
        }
        i = i + 1;
    }
    assert(sp3@.subrange(0, sp3@.len() as int) =~= sp3@);
    r
}

/// Whether the trace of the satellite at position `sv_index` is shown when
/// a plot opens: the first four traces of the sky and elevation plots, the
/// first two of the map projection.
pub fn trace_visible(sv_index: usize, map_projection: bool) -> (b: bool)
    ensures
        b == if map_projection {
            sv_index < 2
        } else {
            sv_index < 4
        },
{
    if map_projection {
        sv_index < 2
    } else {
        sv_index < 4
    }
}

} // verus!
