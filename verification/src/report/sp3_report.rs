//! High precision orbit (SP3) report: the HTML of its tables.
use vstd::prelude::*;

use super::orbit::{table_close, table_open};
use super::sampling::{sampling_html, SamplingSummary};
use crate::navigation::{constellation_at, constellation_name, Constellation};
use crate::external::{
    constellation_focus, constellation_index, gnss_index, sp3_clock_drift, sp3_clock_flags,
    sp3_constellation_list, sp3_constellations, sp3_focus, sp3_has_clock_drift,
    sp3_has_clock_offset, sp3_has_velocity, sp3_header_texts, sp3_header_texts_of,
    sp3_satellite_list, sp3_satellites, sp3_velocity, sv_parts, sv_parts_of,
};
use crate::text::{
    html_escape, lemma_cell_between, lemma_cell_extends, push_html_escaped, shows_cell,
};
use gnss_rs::prelude::SV;
use sp3::prelude::SP3;

verus! {

/// A satellite, as the SP3 report lists it: its PRN, its constellation and
/// its displayed name.
#[derive(Debug, Clone)]
pub struct Satellite {
    /// PRN number
    pub prn: u8,
    /// Constellation
    pub constellation: Constellation,
    /// Displayed name
    pub name: String,
}

/// Number of satellite sorting keys.
pub open spec fn key_count() -> int {
    256int * 21
}

/// Satellites are listed by PRN number, then by constellation in the order
/// of their declaration.
pub open spec fn sort_key(s: Satellite) -> int {
    s.prn * 21 + s.constellation.rank()
}

impl Constellation {
    /// The position of this constellation in the declaration.
    pub open spec fn rank(&self) -> int {
        choose|i: int| 0 <= i < 21 && constellation_at(i) == *self
    }
}

/// The names of the satellites of `sats` with sorting key `k`, in list order.
pub open spec fn names_with_key(sats: Seq<Satellite>, k: int) -> Seq<Seq<char>>
    decreases sats.len(),
{
    if sats.len() == 0 {
        Seq::empty()
    } else {
        let rest = names_with_key(sats.drop_last(), k);
        if sort_key(sats.last()) == k {
            rest.push(sats.last().name@)
        } else {
            rest
        }
    }
}

/// The names of the satellites of `sats` with a sorting key below `k`, sorted.
pub open spec fn sorted_names_below(sats: Seq<Satellite>, k: int) -> Seq<Seq<char>>
    decreases k,
{
    if k <= 0 {
        Seq::empty()
    } else {
        sorted_names_below(sats, k - 1) + names_with_key(sats, k - 1)
    }
}

/// The names of `sats`, sorted.
pub open spec fn sorted_names(sats: Seq<Satellite>) -> Seq<Seq<char>> {
    sorted_names_below(sats, key_count())
}

/// Names separated by a comma and a space.
pub open spec fn join_names(names: Seq<Seq<char>>) -> Seq<char>
    decreases names.len(),
{
    if names.len() == 0 {
        Seq::empty()
    } else if names.len() == 1 {
        names[0]
    } else {
        join_names(names.drop_last()) + ", "@ + names.last()
    }
}

/// How a flag is displayed.
pub open spec fn bool_text(b: bool) -> Seq<char> {
    if b {
        "true"@
    } else {
        "false"@
    }
}

/// One SP3 page per constellation: what the data of that constellation hold.
pub struct SP3Page {
    /// Clock offsets are given
    pub has_clock: bool,
    /// Velocities are given
    pub has_velocity: bool,
    /// Clock drifts are given
    pub has_clock_drift: bool,
    /// Satellites of the constellation
    pub satellites: Vec<Satellite>,
    /// Sampling of the data of the constellation
    pub sampling: SamplingSummary,
}

/// The HTML of an [SP3Page].
pub open spec fn sp3_page_html(p: SP3Page) -> Seq<char> {
    table_open() + "<tr><th class=\"is-info\">General</th></tr><tr><th>Velocity</th><td>"@
        + bool_text(p.has_velocity) + "</td></tr><tr><th>Clock offset</th><td>"@ + bool_text(
        p.has_clock,
    ) + "</td></tr><tr><th>Clock drift</th><td>"@ + bool_text(p.has_clock_drift)
        + "</td></tr><tr><th class=\"is-info\">Satellites</th><td>"@ + html_escape(
        join_names(sorted_names(p.satellites@)),
    ) + "</td></tr><tr><th class=\"is-info\">Sampling</th><td>"@ + sampling_html(p.sampling)
        + "</td></tr>"@ + table_close()
}

/// The text of a flag: "true" or "false".
pub open spec fn flag_text(b: bool) -> Seq<char> {
    if b {
        "true"@
    } else {
        "false"@
    }
}

proof fn lemma_page_literals()
    ensures
        ("<th>"@ + "Velocity"@ + "</th><td>"@).len() <= "<tr><th class=\"is-info\">General</th></tr><tr><th>Velocity</th><td>"@.len(),
        "<tr><th class=\"is-info\">General</th></tr><tr><th>Velocity</th><td>"@.subrange(
            "<tr><th class=\"is-info\">General</th></tr><tr><th>Velocity</th><td>"@.len() - ("<th>"@ + "Velocity"@ + "</th><td>"@).len(),
            "<tr><th class=\"is-info\">General</th></tr><tr><th>Velocity</th><td>"@.len() as int,
        ) == "<th>"@ + "Velocity"@ + "</th><td>"@,
        ("<th>"@ + "Clock offset"@ + "</th><td>"@).len() <= "</td></tr><tr><th>Clock offset</th><td>"@.len(),
        "</td></tr><tr><th>Clock offset</th><td>"@.subrange(
            "</td></tr><tr><th>Clock offset</th><td>"@.len() - ("<th>"@ + "Clock offset"@ + "</th><td>"@).len(),
            "</td></tr><tr><th>Clock offset</th><td>"@.len() as int,
        ) == "<th>"@ + "Clock offset"@ + "</th><td>"@,
        ("<th>"@ + "Clock drift"@ + "</th><td>"@).len() <= "</td></tr><tr><th>Clock drift</th><td>"@.len(),
        "</td></tr><tr><th>Clock drift</th><td>"@.subrange(
            "</td></tr><tr><th>Clock drift</th><td>"@.len() - ("<th>"@ + "Clock drift"@ + "</th><td>"@).len(),
            "</td></tr><tr><th>Clock drift</th><td>"@.len() as int,
        ) == "<th>"@ + "Clock drift"@ + "</th><td>"@,
        "</td></tr><tr><th>Clock offset</th><td>"@.len() >= 5,
        "</td></tr><tr><th>Clock drift</th><td>"@.len() >= 5,
        "</td></tr><tr><th class=\"is-info\">Satellites</th><td>"@.len() >= 5,
        "</td></tr><tr><th>Clock offset</th><td>"@.subrange(0, 5) == "</td>"@,
        "</td></tr><tr><th>Clock drift</th><td>"@.subrange(0, 5) == "</td>"@,
        "</td></tr><tr><th class=\"is-info\">Satellites</th><td>"@.subrange(0, 5) == "</td>"@,
{
    reveal_strlit("<tr><th class=\"is-info\">General</th></tr><tr><th>Velocity</th><td>");
    reveal_strlit("</td></tr><tr><th>Clock offset</th><td>");
    reveal_strlit("</td></tr><tr><th>Clock drift</th><td>");
    reveal_strlit("</td></tr><tr><th class=\"is-info\">Satellites</th><td>");
    reveal_strlit("<th>");
    reveal_strlit("</th><td>");
    reveal_strlit("</td>");
    reveal_strlit("Velocity");
    reveal_strlit("Clock offset");
    reveal_strlit("Clock drift");
    assert("<tr><th class=\"is-info\">General</th></tr><tr><th>Velocity</th><td>"@.subrange(
        "<tr><th class=\"is-info\">General</th></tr><tr><th>Velocity</th><td>"@.len() - ("<th>"@ + "Velocity"@ + "</th><td>"@).len(),
        "<tr><th class=\"is-info\">General</th></tr><tr><th>Velocity</th><td>"@.len() as int,
    ) =~= "<th>"@ + "Velocity"@ + "</th><td>"@);
    assert("</td></tr><tr><th>Clock offset</th><td>"@.subrange(
        "</td></tr><tr><th>Clock offset</th><td>"@.len() - ("<th>"@ + "Clock offset"@ + "</th><td>"@).len(),
        "</td></tr><tr><th>Clock offset</th><td>"@.len() as int,
    ) =~= "<th>"@ + "Clock offset"@ + "</th><td>"@);
    assert("</td></tr><tr><th>Clock drift</th><td>"@.subrange(
        "</td></tr><tr><th>Clock drift</th><td>"@.len() - ("<th>"@ + "Clock drift"@ + "</th><td>"@).len(),
        "</td></tr><tr><th>Clock drift</th><td>"@.len() as int,
    ) =~= "<th>"@ + "Clock drift"@ + "</th><td>"@);
    assert("</td></tr><tr><th>Clock offset</th><td>"@.subrange(0, 5) =~= "</td>"@);
    assert("</td></tr><tr><th>Clock drift</th><td>"@.subrange(0, 5) =~= "</td>"@);
    assert("</td></tr><tr><th class=\"is-info\">Satellites</th><td>"@.subrange(0, 5) =~= "</td>"@);
}

/// A page shows each flag under its own header: velocities under
/// "Velocity", clock offsets under "Clock offset", clock drifts under
/// "Clock drift", as "true" or "false".
pub proof fn lemma_sp3_page_flags(p: SP3Page)
    ensures
        shows_cell(sp3_page_html(p), "Velocity"@, flag_text(p.has_velocity)),
        shows_cell(sp3_page_html(p), "Clock offset"@, flag_text(p.has_clock)),
        shows_cell(sp3_page_html(p), "Clock drift"@, flag_text(p.has_clock_drift)),
{
    lemma_page_literals();
    let t = table_open();
    let l1 = "<tr><th class=\"is-info\">General</th></tr><tr><th>Velocity</th><td>"@;
    let l2 = "</td></tr><tr><th>Clock offset</th><td>"@;
    let l3 = "</td></tr><tr><th>Clock drift</th><td>"@;
    let l4 = "</td></tr><tr><th class=\"is-info\">Satellites</th><td>"@;
    let esc = html_escape(join_names(sorted_names(p.satellites@)));
    let r2 = "</td></tr><tr><th class=\"is-info\">Sampling</th><td>"@;
    let samp = sampling_html(p.sampling);
    let r3 = "</td></tr>"@;
    let close = table_close();
    let v = flag_text(p.has_velocity);
    let c = flag_text(p.has_clock);
    let d = flag_text(p.has_clock_drift);
    assert(bool_text(p.has_velocity) == v);
    assert(bool_text(p.has_clock) == c);
    assert(bool_text(p.has_clock_drift) == d);
    let p1 = t + l1 + v + l2;
    let p2 = p1 + c + l3;
    let p3 = p2 + d + l4;
    let p4 = p3 + esc + r2 + samp + r3 + close;
    assert(sp3_page_html(p) == p4);
    lemma_cell_between(t, l1, "Velocity"@, v, l2);
    lemma_cell_between(t + l1 + v, l2, "Clock offset"@, c, l3);
    lemma_cell_between(p1 + c, l3, "Clock drift"@, d, l4);
    lemma_cell_extends(p1, c, "Velocity"@, v);
    lemma_cell_extends(p1 + c, l3, "Velocity"@, v);
    lemma_cell_extends(p2, d, "Velocity"@, v);
    lemma_cell_extends(p2 + d, l4, "Velocity"@, v);
    lemma_cell_extends(p2, d, "Clock offset"@, c);
    lemma_cell_extends(p2 + d, l4, "Clock offset"@, c);
    lemma_page_tail(p3, esc, r2, samp, r3, close, "Velocity"@, v);
    lemma_page_tail(p3, esc, r2, samp, r3, close, "Clock offset"@, c);
    lemma_page_tail(p3, esc, r2, samp, r3, close, "Clock drift"@, d);
}

proof fn lemma_page_tail(
    p3: Seq<char>,
    esc: Seq<char>,
    r2: Seq<char>,
    samp: Seq<char>,
    r3: Seq<char>,
    close: Seq<char>,
    header: Seq<char>,
    value: Seq<char>,
)
    requires
        shows_cell(p3, header, value),
    ensures
        shows_cell(p3 + esc + r2 + samp + r3 + close, header, value),
{
    lemma_cell_extends(p3, esc, header, value);
    lemma_cell_extends(p3 + esc, r2, header, value);
    lemma_cell_extends(p3 + esc + r2, samp, header, value);
    lemma_cell_extends(p3 + esc + r2 + samp, r3, header, value);
    lemma_cell_extends(p3 + esc + r2 + samp + r3, close, header, value);
}

fn push_bool(out: &mut String, b: bool)
    ensures
        final(out)@ == old(out)@ + bool_text(b),
{
    if b {
        out.append("true");
    } else {
        out.append("false");
    }
}

/// Appends `name` to a list of names being joined.
fn push_joined(out: &mut String, names: Ghost<Seq<Seq<char>>>, first: bool, name: &String)
    requires
        old(out)@ == join_names(names@),
        first == (names@.len() == 0),
    ensures
        final(out)@ == join_names(names@.push(name@)),
{
    let ghost n = names@.push(name@);
    assert(n.drop_last() =~= names@);
    if !first {
        out.append(", ");
    }
    out.append(name.as_str());
    assert(final(out)@ =~= join_names(n));
}

impl SP3Page {
    /// The satellite names, sorted and joined.
    pub fn satellites_text(&self) -> (s: String)
        ensures
            s@ == join_names(sorted_names(self.satellites@)),
    {
        let mut s = String::new();
        let ghost mut names: Seq<Seq<char>> = Seq::empty();
        let mut first = true;
        let mut k: usize = 0;
        while k < 5376
            invariant
                k <= 5376,
                first == (names.len() == 0),
                names == sorted_names_below(self.satellites@, k as int),
                s@ == join_names(names),
            decreases 5376 - k,
        {
            let ghost start = names;
            let mut j: usize = 0;
            while j < self.satellites.len()
                invariant
                    j <= self.satellites@.len(),
                    k < 5376,
                    names == start + names_with_key(self.satellites@.subrange(0, j as int), k as int),
                    first == (names.len() == 0),
                    s@ == join_names(names),
                decreases self.satellites@.len() - j,
            {
                let sat = &self.satellites[j];
                let key: usize = (sat.prn as usize) * 21 + (sat.constellation.index() as usize);
                proof {
                    let sub = self.satellites@.subrange(0, j + 1);
                    assert(sub.drop_last() =~= self.satellites@.subrange(0, j as int));
                    assert(sub.last() == *sat);
                    lemma_rank_is_index(sat.constellation);
                }
                if key == k {
                    push_joined(&mut s, Ghost(names), first, &sat.name);
                    first = false;
                    proof {
                        names = names.push(sat.name@);
                    }
                }
                j = j + 1;
            }
            assert(self.satellites@.subrange(0, self.satellites@.len() as int) =~= self.satellites@);
            k = k + 1;
        }
        s
    }

    /// This page as HTML.
    pub fn render(&self) -> (html: String)
        ensures
            html@ == sp3_page_html(*self),
    {
        let mut s = String::from_str("<div class=\"table-container\"><table class=\"table is-bordered\">");
        s.append("<tr><th class=\"is-info\">General</th></tr><tr><th>Velocity</th><td>");
        push_bool(&mut s, self.has_velocity);
        s.append("</td></tr><tr><th>Clock offset</th><td>");
        push_bool(&mut s, self.has_clock);
        s.append("</td></tr><tr><th>Clock drift</th><td>");
        push_bool(&mut s, self.has_clock_drift);
        s.append("</td></tr><tr><th class=\"is-info\">Satellites</th><td>");
        let sats = self.satellites_text();
        push_html_escaped(&mut s, sats.as_str());
        s.append("</td></tr><tr><th class=\"is-info\">Sampling</th><td>");
        let sampling = self.sampling.render();
        s.append(sampling.as_str());
        s.append("</td></tr>");
        s.append("</table></div>");
        assert(s@ =~= sp3_page_html(*self));
        s
    }
}

/// The declared position of a constellation is its rank.
pub proof fn lemma_rank_is_index(c: Constellation)
    ensures
        0 <= c.rank() < 21,
        constellation_at(c.rank()) == c,
{
    let i: int = match c {
        Constellation::GPS => 0,
        Constellation::Glonass => 1,
        Constellation::BeiDou => 2,
        Constellation::QZSS => 3,
        Constellation::Galileo => 4,
        Constellation::IRNSS => 5,
        Constellation::WAAS => 6,
        Constellation::EGNOS => 7,
        Constellation::MSAS => 8,
        Constellation::GAGAN => 9,
        Constellation::BDSBAS => 10,
        Constellation::KASS => 11,
        Constellation::SDCM => 12,
        Constellation::ASBAS => 13,
        Constellation::SPAN => 14,
        Constellation::SBAS => 15,
        Constellation::AusNZ => 16,
        Constellation::GBAS => 17,
        Constellation::NSAS => 18,
        Constellation::ASAL => 19,
        Constellation::Mixed => 20,
    };
    assert(constellation_at(i) == c);
    let r = c.rank();
    assert(0 <= r < 21 && constellation_at(r) == c);
}

/// The menu entry of the SP3 report.
pub open spec fn sp3_menu_html() -> Seq<char> {
    "<a id=\"menu:sp3\"><span class=\"icon\"><i class=\"fa-solid fa-satellite\"></i></span>High Precision Orbit (SP3)</a>"@
}

/// SP3 report: what the header declares, the sampling of the whole file and
/// one page per constellation.
pub struct SP3Report {
    /// Production center
    pub agency: String,
    /// File revision
    pub version: String,
    /// Reference frame
    pub coord_system: String,
    /// Orbit determination technique
    pub orbit_fit: String,
    /// Fitted constellations
    pub constellation: String,
    /// Timescale of the coordinates
    pub time_scale: String,
    /// Sampling of the file
    pub sampling: SamplingSummary,
    /// Pages, at most one per constellation
    pub pages: Vec<(Constellation, SP3Page)>,
}

/// A header row of the SP3 report.
pub open spec fn header_row_html(tip: Seq<char>, label: Seq<char>, value: Seq<char>) -> Seq<char> {
    "<tr><th><button aria-label=\""@ + tip + "\" data-balloon-pos=\"right\">"@ + label
        + "</button></th><td>"@ + html_escape(value) + "</td></tr>"@
}

/// The page of constellation `c`, the first one listed for it.
pub open spec fn page_of(pages: Seq<(Constellation, SP3Page)>, c: Constellation) -> Option<SP3Page>
    decreases pages.len(),
{
    if pages.len() == 0 {
        None
    } else if pages[0].0 == c {
        Some(pages[0].1)
    } else {
        page_of(pages.drop_first(), c)
    }
}

/// The block of the page of constellation `c`, if there is one.
pub open spec fn page_block_html(pages: Seq<(Constellation, SP3Page)>, c: Constellation) -> Seq<char> {
    match page_of(pages, c) {
        Some(p) => "<div class=\"table-container is-page\" id=\""@ + html_escape(
            "sp3:"@ + constellation_name(c),
        ) + "\" style=\"display:block\"><table class=\"table is-bordered\"><tr><th class=\"is-info\">"@
            + html_escape(constellation_name(c)) + "</th><td>"@ + sp3_page_html(p)
            + "</td></tr></table></div>"@,
        None => Seq::empty(),
    }
}

/// The page blocks of the constellations declared before position `k`, in
/// the order of their declaration.
pub open spec fn page_blocks_below(pages: Seq<(Constellation, SP3Page)>, k: int) -> Seq<char>
    decreases k,
{
    if k <= 0 {
        Seq::empty()
    } else {
        page_blocks_below(pages, k - 1) + page_block_html(pages, constellation_at(k - 1))
    }
}

/// The HTML of an [SP3Report].
pub open spec fn sp3_report_html(r: SP3Report) -> Seq<char> {
    table_open() + header_row_html("File revision"@, "File revision"@, r.version@)
        + header_row_html("Production Center"@, "Agency"@, r.agency@) + header_row_html(
        "Fitted constellations"@,
        "Constellation"@,
        r.constellation@,
    ) + header_row_html(
        "Timescale in which post-fit coordinates are expressed."@,
        "Timescale"@,
        r.time_scale@,
    ) + header_row_html(
        "Reference frame in which post-fit coordinates are expressed."@,
        "Reference Frame"@,
        r.coord_system@,
    ) + header_row_html("Coordinates determination technique."@, "Orbit FIT"@, r.orbit_fit@)
        + "<tr><th>Sampling</th><td>"@ + sampling_html(r.sampling) + "</td></tr>"@ + table_close()
        + page_blocks_below(r.pages@, 21)
}

fn push_header_row(out: &mut String, tip: &str, label: &str, value: &String)
    ensures
        final(out)@ == old(out)@ + header_row_html(tip@, label@, value@),
{
    out.append("<tr><th><button aria-label=\"");
    out.append(tip);
    out.append("\" data-balloon-pos=\"right\">");
    out.append(label);
    out.append("</button></th><td>");
    push_html_escaped(out, value.as_str());
    out.append("</td></tr>");
    assert(final(out)@ =~= old(out)@ + header_row_html(tip@, label@, value@));
}

/// The position of the page of constellation `c`, the first one listed for it.
fn find_page(pages: &Vec<(Constellation, SP3Page)>, c: Constellation) -> (r: Option<usize>)
    ensures
        match r {
            Some(i) => i < pages@.len() && page_of(pages@, c) == Some(pages@[i as int].1),
            None => page_of(pages@, c) is None,
        },
{
    let mut i: usize = 0;
    assert(pages@.subrange(0, pages@.len() as int) =~= pages@);
    while i < pages.len()
        invariant
            i <= pages@.len(),
            page_of(pages@, c) == page_of(pages@.subrange(i as int, pages@.len() as int), c),
        decreases pages@.len() - i,
    {
        let ghost rest = pages@.subrange(i as int, pages@.len() as int);
        assert(rest[0] == pages@[i as int]);
        assert(rest.drop_first() =~= pages@.subrange(i + 1, pages@.len() as int));
        if pages[i].0 == c {
            assert(page_of(rest, c) == Some(pages@[i as int].1));
            return Some(i);
        }
        i = i + 1;
    }
    assert(pages@.subrange(i as int, pages@.len() as int).len() == 0);
    None
}

fn push_page_block(out: &mut String, pages: &Vec<(Constellation, SP3Page)>, c: Constellation)
    ensures
        final(out)@ == old(out)@ + page_block_html(pages@, c),
{
    match find_page(pages, c) {
        Some(i) => {
            let page = &pages[i].1;
            out.append("<div class=\"table-container is-page\" id=\"");
            let mut id = String::from_str("sp3:");
            let name = c.to_string();
            id.append(name.as_str());
            push_html_escaped(out, id.as_str());
            out.append("\" style=\"display:block\"><table class=\"table is-bordered\"><tr><th class=\"is-info\">");
            push_html_escaped(out, name.as_str());
            out.append("</th><td>");
            let body = page.render();
            out.append(body.as_str());
            out.append("</td></tr></table></div>");
            assert(final(out)@ =~= old(out)@ + page_block_html(pages@, c));
        },
        None => {
            assert(final(out)@ =~= old(out)@ + page_block_html(pages@, c));
        },
    }
}

impl SP3Report {
    /// The menu entry of this report.
    pub fn html_inline_menu_bar(&self) -> (s: String)
        ensures
            s@ == sp3_menu_html(),
    {
        String::from_str(
            "<a id=\"menu:sp3\"><span class=\"icon\"><i class=\"fa-solid fa-satellite\"></i></span>High Precision Orbit (SP3)</a>",
        )
    }

    /// This report as HTML: the header table, then the pages in the order
    /// the constellations are declared.
    pub fn render(&self) -> (html: String)
        ensures
            html@ == sp3_report_html(*self),
    {
        let mut s = String::from_str("<div class=\"table-container\"><table class=\"table is-bordered\">");
        push_header_row(&mut s, "File revision", "File revision", &self.version);
        push_header_row(&mut s, "Production Center", "Agency", &self.agency);
        push_header_row(&mut s, "Fitted constellations", "Constellation", &self.constellation);
        push_header_row(
            &mut s,
            "Timescale in which post-fit coordinates are expressed.",
            "Timescale",
            &self.time_scale,
        );
        push_header_row(
            &mut s,
            "Reference frame in which post-fit coordinates are expressed.",
            "Reference Frame",
            &self.coord_system,
        );
        push_header_row(&mut s, "Coordinates determination technique.", "Orbit FIT", &self.orbit_fit);
        s.append("<tr><th>Sampling</th><td>");
        let sampling = self.sampling.render();
        s.append(sampling.as_str());
        s.append("</td></tr>");
        s.append("</table></div>");
        let ghost head = s@;
        let mut k: u8 = 0;
        while k < 21
            invariant
                k <= 21,
                s@ == head + page_blocks_below(self.pages@, k as int),
            decreases 21 - k,
        {
            let c = Constellation::from_index(k);
            push_page_block(&mut s, &self.pages, c);
            k = k + 1;
        }
        assert(s@ =~= sp3_report_html(*self));
        s
    }
}

/// Whether `s` is the satellite a report lists for `sv`.
pub open spec fn lists_satellite(s: Satellite, sv: SV) -> bool {
    let (prn, c, name) = sv_parts_of(sv);
    &&& s.prn == prn
    &&& s.constellation == constellation_at(c as int)
    &&& s.name@ == name
}

/// Whether page `p` describes the SP3 data `focused`: their clock offsets,
/// velocities and clock drifts, and the satellites their header lists, in
/// that order. The sampling table is left to the caller.
pub open spec fn page_describes(p: SP3Page, focused: SP3) -> bool {
    let svs = sp3_satellite_list(focused);
    &&& p.has_clock == sp3_clock_flags(focused).contains(true)
    &&& p.has_velocity == sp3_velocity(focused)
    &&& p.has_clock_drift == sp3_clock_drift(focused)
    &&& p.satellites@.len() == svs.len()
    &&& forall|j: int| 0 <= j < svs.len() ==> lists_satellite(#[trigger] p.satellites@[j], svs[j])
}

/// The satellites of `svs`, in their order.
fn satellites_of(svs: &Vec<SV>) -> (r: Vec<Satellite>)
    ensures
        r@.len() == svs@.len(),
        forall|j: int| 0 <= j < svs@.len() ==> lists_satellite(#[trigger] r@[j], svs@[j]),
{
    let mut r: Vec<Satellite> = Vec::new();
    let mut j: usize = 0;
    while j < svs.len()
        invariant
            j <= svs@.len(),
            r@.len() == j,
            forall|k: int| 0 <= k < j ==> lists_satellite(#[trigger] r@[k], svs@[k]),
        decreases svs@.len() - j,
    {
        let (prn, c, name) = sv_parts(svs[j]);
        let sat = Satellite { prn, constellation: Constellation::from_index(c), name };
        r.push(sat);
        j = j + 1;
    }
    r
}

impl SP3Report {
    /// The report of `sp3`: its header texts and one page per constellation
    /// it holds, in the order the file lists them, each about the part of the
    /// file of that constellation. `sampling` makes the sampling tables: of
    /// the whole file, and of each constellation.
    pub fn new<F: Fn(&SP3) -> SamplingSummary>(sp3: &SP3, sampling: F) -> (r: Self)
        requires
            forall|s: &SP3| #[trigger] call_requires(sampling, (s,)),
        ensures
            (r.agency@, r.coord_system@, r.version@, r.orbit_fit@, r.time_scale@, r.constellation@)
                == sp3_header_texts_of(*sp3),
            call_ensures(sampling, (sp3,), r.sampling),
            r.pages@.len() == sp3_constellation_list(*sp3).len(),
            forall|i: int|
                0 <= i < r.pages@.len() ==> {
                    let c = sp3_constellation_list(*sp3)[i];
                    let focused = constellation_focus(*sp3, c);
                    &&& (#[trigger] r.pages@[i]).0 == constellation_at(gnss_index(c) as int)
                    &&& page_describes(r.pages@[i].1, focused)
                    &&& call_ensures(sampling, (&focused,), r.pages@[i].1.sampling)
                },
    {
        let (agency, coord_system, version, orbit_fit, time_scale, constellation) = sp3_header_texts(
            sp3,
        );
        let summary = sampling(sp3);
        let cs = sp3_constellations(sp3);
        let mut pages: Vec<(Constellation, SP3Page)> = Vec::new();
        let mut i: usize = 0;
        while i < cs.len()
            invariant
                forall|s: &SP3| #[trigger] call_requires(sampling, (s,)),
                cs@ == sp3_constellation_list(*sp3),
                i <= cs@.len(),
                pages@.len() == i,
                forall|k: int|
                    0 <= k < i ==> {
                        let c = cs@[k];
                        let focused = constellation_focus(*sp3, c);
                        &&& (#[trigger] pages@[k]).0 == constellation_at(gnss_index(c) as int)
                        &&& page_describes(pages@[k].1, focused)
                        &&& call_ensures(sampling, (&focused,), pages@[k].1.sampling)
                    },
            decreases cs@.len() - i,
        {
            let c = cs[i];
            let focused = sp3_focus(sp3, c);
            let svs = sp3_satellites(&focused);
            let page = SP3Page {
                has_clock: sp3_has_clock_offset(&focused),
                has_velocity: sp3_has_velocity(&focused),
                has_clock_drift: sp3_has_clock_drift(&focused),
                satellites: satellites_of(&svs),
                sampling: sampling(&focused),
            };
            let index = constellation_index(c);
            pages.push((Constellation::from_index(index), page));
            i = i + 1;
        }
        SP3Report {
            agency,
            version,
            coord_system,
            orbit_fit,
            constellation,
            time_scale,
            sampling: summary,
            pages,
        }
    }
}

} // verus!
