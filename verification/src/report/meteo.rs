//! Meteo observations: how each observed physical quantity is named and measured.
use vstd::prelude::*;

use super::orbit::{table_close, table_open};
use super::sampling::{sampling_html, SamplingSummary};
use super::Error;
use crate::text::{html_escape, push_html_escaped};

verus! {

/// The physical quantities a meteo RINEX file may observe; every other
/// observable falls under [MeteoObservable::Other].
#[derive(Debug, Clone, Copy, PartialEq, Eq, Structural, Hash)]
pub enum MeteoObservable {
    /// Pressure
    Pressure,
    /// Dry temperature
    Temperature,
    /// Relative humidity
    HumidityRate,
    /// Zenith wet delay
    ZenithWetDelay,
    /// Zenith dry delay
    ZenithDryDelay,
    /// Zenith total delay
    ZenithTotalDelay,
    /// Wind azimuth
    WindDirection,
    /// Wind speed
    WindSpeed,
    /// Rain increment
    RainIncrement,
    /// Hail indicator
    HailIndicator,
    /// Any observable that is no meteo quantity
    Other,
}

/// The name of the physics behind an observable.
pub open spec fn physics_name(ob: MeteoObservable) -> Seq<char> {
    match ob {
        MeteoObservable::Pressure => "Pressure"@,
        MeteoObservable::Temperature => "Temperature"@,
        MeteoObservable::HumidityRate => "Moisture"@,
        MeteoObservable::ZenithWetDelay => "Wet Delay"@,
        MeteoObservable::ZenithDryDelay => "Dry Delay"@,
        MeteoObservable::ZenithTotalDelay => "Wet+Dry Delay"@,
        MeteoObservable::WindDirection => "Wind Direction"@,
        MeteoObservable::WindSpeed => "Wind Speed"@,
        MeteoObservable::RainIncrement => "Rain Increment"@,
        MeteoObservable::HailIndicator => "Hail"@,
        MeteoObservable::Other => "Not applicable"@,
    }
}

/// The unit an observable is measured in.
pub open spec fn unit_name(ob: MeteoObservable) -> Seq<char> {
    match ob {
        MeteoObservable::Pressure => "hPa"@,
        MeteoObservable::Temperature => "°C"@,
        MeteoObservable::HumidityRate => "%"@,
        MeteoObservable::RainIncrement => "%"@,
        MeteoObservable::ZenithWetDelay => "s"@,
        MeteoObservable::ZenithDryDelay => "s"@,
        MeteoObservable::ZenithTotalDelay => "s"@,
        MeteoObservable::WindDirection => "°"@,
        MeteoObservable::WindSpeed => "m/s"@,
        MeteoObservable::HailIndicator => "boolean"@,
        MeteoObservable::Other => "not applicable"@,
    }
}

/// The name of the physics behind an observable, as reports title it.
pub fn obs2physics(ob: &MeteoObservable) -> (s: String)
    ensures
        s@ == physics_name(*ob),
{
    match ob {
        MeteoObservable::Pressure => String::from_str("Pressure"),
        MeteoObservable::Temperature => String::from_str("Temperature"),
        MeteoObservable::HumidityRate => String::from_str("Moisture"),
        MeteoObservable::ZenithWetDelay => String::from_str("Wet Delay"),
        MeteoObservable::ZenithDryDelay => String::from_str("Dry Delay"),
        MeteoObservable::ZenithTotalDelay => String::from_str("Wet+Dry Delay"),
        MeteoObservable::WindDirection => String::from_str("Wind Direction"),
        MeteoObservable::WindSpeed => String::from_str("Wind Speed"),
        MeteoObservable::RainIncrement => String::from_str("Rain Increment"),
        MeteoObservable::HailIndicator => String::from_str("Hail"),
        MeteoObservable::Other => String::from_str("Not applicable"),
    }
}

/// The unit an observable is measured in, as plot axes label it.
pub fn obs2unit(ob: &MeteoObservable) -> (s: String)
    ensures
        s@ == unit_name(*ob),
{
    match ob {
        MeteoObservable::Pressure => String::from_str("hPa"),
        MeteoObservable::Temperature => String::from_str("°C"),
        MeteoObservable::HumidityRate | MeteoObservable::RainIncrement => String::from_str("%"),
        MeteoObservable::ZenithWetDelay | MeteoObservable::ZenithDryDelay
        | MeteoObservable::ZenithTotalDelay => String::from_str("s"),
        MeteoObservable::WindDirection => String::from_str("°"),
        MeteoObservable::WindSpeed => String::from_str("m/s"),
        MeteoObservable::HailIndicator => String::from_str("boolean"),
        MeteoObservable::Other => String::from_str("not applicable"),
    }
}

} // verus!

verus! {

/// The meteo observables, in the alphabetical order of their names.
pub open spec fn meteo_at(i: int) -> MeteoObservable {
    if i == 0 { MeteoObservable::ZenithDryDelay }
    else if i == 1 { MeteoObservable::HailIndicator }
    else if i == 2 { MeteoObservable::HumidityRate }
    else if i == 3 { MeteoObservable::Other }
    else if i == 4 { MeteoObservable::Pressure }
    else if i == 5 { MeteoObservable::RainIncrement }
    else if i == 6 { MeteoObservable::Temperature }
    else if i == 7 { MeteoObservable::ZenithWetDelay }
    else if i == 8 { MeteoObservable::ZenithTotalDelay }
    else if i == 9 { MeteoObservable::WindDirection }
    else { MeteoObservable::WindSpeed }
}

fn meteo_from_rank(i: u8) -> (m: MeteoObservable)
    requires
        i < 11,
    ensures
        m == meteo_at(i as int),
{
    if i == 0 { MeteoObservable::ZenithDryDelay }
    else if i == 1 { MeteoObservable::HailIndicator }
    else if i == 2 { MeteoObservable::HumidityRate }
    else if i == 3 { MeteoObservable::Other }
    else if i == 4 { MeteoObservable::Pressure }
    else if i == 5 { MeteoObservable::RainIncrement }
    else if i == 6 { MeteoObservable::Temperature }
    else if i == 7 { MeteoObservable::ZenithWetDelay }
    else if i == 8 { MeteoObservable::ZenithTotalDelay }
    else if i == 9 { MeteoObservable::WindDirection }
    else { MeteoObservable::WindSpeed }
}

/// Whether name `a` comes strictly before name `b` in the order of their
/// characters.
pub open spec fn name_before(a: Seq<char>, b: Seq<char>) -> bool {
    exists|k: int|
        0 <= k <= a.len() && k <= b.len() && #[trigger] a.subrange(0, k) == b.subrange(0, k) && (
        (k == a.len() && k < b.len()) || (k < a.len() && k < b.len() && a[k] < b[k]))
}

/// Every meteo quantity has a rank below eleven.
pub proof fn lemma_every_quantity_ranked(m: MeteoObservable)
    ensures
        exists|i: int| 0 <= i < 11 && meteo_at(i) == m,
{
    let i: int = match m {
        MeteoObservable::ZenithDryDelay => 0,
        MeteoObservable::HailIndicator => 1,
        MeteoObservable::HumidityRate => 2,
        MeteoObservable::Other => 3,
        MeteoObservable::Pressure => 4,
        MeteoObservable::RainIncrement => 5,
        MeteoObservable::Temperature => 6,
        MeteoObservable::ZenithWetDelay => 7,
        MeteoObservable::ZenithTotalDelay => 8,
        MeteoObservable::WindDirection => 9,
        MeteoObservable::WindSpeed => 10,
    };
    assert(meteo_at(i) == m);
}

/// Two ranks below eleven give two different quantities.
pub proof fn lemma_ranks_distinct(i: int, j: int)
    requires
        0 <= i < 11,
        0 <= j < 11,
        i != j,
    ensures
        meteo_at(i) != meteo_at(j),
{
}

/// Ranks follow the names: each quantity's name comes before the name of
/// the quantity of the next rank.
pub proof fn lemma_ranks_follow_names(i: int)
    requires
        0 <= i < 10,
    ensures
        name_before(physics_name(meteo_at(i)), physics_name(meteo_at(i + 1))),
{
    reveal_strlit("Dry Delay");
    reveal_strlit("Hail");
    reveal_strlit("Moisture");
    reveal_strlit("Not applicable");
    reveal_strlit("Pressure");
    reveal_strlit("Rain Increment");
    reveal_strlit("Temperature");
    reveal_strlit("Wet Delay");
    reveal_strlit("Wet+Dry Delay");
    reveal_strlit("Wind Direction");
    reveal_strlit("Wind Speed");
    let a = physics_name(meteo_at(i));
    let b = physics_name(meteo_at(i + 1));
    let k: int = if i == 7 {
        3
    } else if i == 8 {
        1
    } else if i == 9 {
        5
    } else {
        0
    };
    assert(a.subrange(0, k) =~= b.subrange(0, k));
}

/// The menu entry of the meteo report.
pub open spec fn meteo_menu_html() -> Seq<char> {
    "<a id=\"menu:meteo\"><span class=\"icon\"><i class=\"fa-solid fa-cloud-sun-rain\"></i></span>Meteo Observations</a>"@
}

/// The observations plot of a meteo page: wind directions are shown on a
/// compass, other quantities on a time plot. Both hold the HTML of the plot.
pub enum ObservableDependent {
    /// A time plot
    SinglePlot(String),
    /// A compass
    WindDirection(String),
}

/// The HTML of the observations plot of a meteo page.
pub open spec fn observable_html(o: ObservableDependent) -> Seq<char> {
    match o {
        ObservableDependent::SinglePlot(p) => p@,
        ObservableDependent::WindDirection(c) => table_open() + "<tbody><tr><td>"@ + c@
            + "</td></tr></tbody>"@ + table_close(),
    }
}

/// One meteo page per observed quantity: its sampling and its plot.
pub struct MeteoPage {
    /// Observations plot
    pub inner: ObservableDependent,
    /// Sampling of the observations of that quantity
    pub sampling: SamplingSummary,
}

/// The HTML of a [MeteoPage].
pub open spec fn meteo_page_html(p: MeteoPage) -> Seq<char> {
    table_open() + "<tbody><tr><th class=\"is-info\">Sampling</th><td>"@ + sampling_html(p.sampling)
        + "</td></tr><tr><th class=\"is-info\">Observations</th><td>"@ + observable_html(p.inner)
        + "</td></tr></tbody>"@ + table_close()
}

impl MeteoPage {
    /// This page as HTML.
    pub fn render(&self) -> (html: String)
        ensures
            html@ == meteo_page_html(*self),
    {
        let mut s = String::from_str("<div class=\"table-container\"><table class=\"table is-bordered\">");
        s.append("<tbody><tr><th class=\"is-info\">Sampling</th><td>");
        let sampling = self.sampling.render();
        s.append(sampling.as_str());
        s.append("</td></tr><tr><th class=\"is-info\">Observations</th><td>");
        match &self.inner {
            ObservableDependent::SinglePlot(p) => {
                s.append(p.as_str());
            },
            ObservableDependent::WindDirection(c) => {
                s.append("<div class=\"table-container\"><table class=\"table is-bordered\">");
                s.append("<tbody><tr><td>");
                s.append(c.as_str());
                s.append("</td></tr></tbody>");
                s.append("</table></div>");
            },
        }
        s.append("</td></tr></tbody>");
        s.append("</table></div>");
        assert(s@ =~= meteo_page_html(*self));
        s
    }
}

/// A sensor of a meteo file: the quantity it measures and the HTML of its description.
pub struct MeteoSensor {
    /// Measured quantity
    pub observable: MeteoObservable,
    /// HTML description of the sensor
    pub html: String,
}

/// Meteo observations report.
pub struct MeteoReport {
    /// Sensors the header declares
    pub sensors: Vec<MeteoSensor>,
    /// Producing agency, when known
    pub agency: Option<String>,
    /// Sampling of the file
    pub sampling: SamplingSummary,
    /// Pages, at most one per quantity
    pub pages: Vec<(MeteoObservable, MeteoPage)>,
}

/// The rows of the sensors, in order.
pub open spec fn sensor_rows_html(sensors: Seq<MeteoSensor>) -> Seq<char>
    decreases sensors.len(),
{
    if sensors.len() == 0 {
        Seq::empty()
    } else {
        sensor_rows_html(sensors.drop_last()) + "<tr><th>"@ + html_escape(
            physics_name(sensors.last().observable) + " sensor"@,
        ) + "</th><td>"@ + sensors.last().html@ + "</td></tr>"@
    }
}

/// The page of quantity `m`, the last one listed for it (a later page for a
/// quantity replaces an earlier one).
pub open spec fn meteo_page_of(pages: Seq<(MeteoObservable, MeteoPage)>, m: MeteoObservable) -> Option<MeteoPage>
    decreases pages.len(),
{
    if pages.len() == 0 {
        None
    } else if pages.last().0 == m {
        Some(pages.last().1)
    } else {
        meteo_page_of(pages.drop_last(), m)
    }
}

/// The row of the page of quantity `m`, if there is one.
pub open spec fn meteo_page_row_html(pages: Seq<(MeteoObservable, MeteoPage)>, m: MeteoObservable) -> Seq<char> {
    match meteo_page_of(pages, m) {
        Some(p) => "<tr><th class=\"is-info\">"@ + html_escape(physics_name(m) + " observations"@)
            + "</th><td>"@ + meteo_page_html(p) + "</td></tr>"@,
        None => Seq::empty(),
    }
}

/// The rows of the pages of the quantities before position `k` in the
/// alphabetical order of their names.
pub open spec fn meteo_rows_below(pages: Seq<(MeteoObservable, MeteoPage)>, k: int) -> Seq<char>
    decreases k,
{
    if k <= 0 {
        Seq::empty()
    } else {
        meteo_rows_below(pages, k - 1) + meteo_page_row_html(pages, meteo_at(k - 1))
    }
}

/// The HTML of a [MeteoReport].
pub open spec fn meteo_report_html(r: MeteoReport) -> Seq<char> {
    table_open() + "<tbody><tr><th class=\"is-info\">Agency</th>"@ + match r.agency {
        Some(a) => "<td>"@ + html_escape(a@) + "</td>"@,
        None => "<td>Unknown</td>"@,
    } + "</tr>"@ + sensor_rows_html(r.sensors@) + "<tr><th class=\"is-info\">Sampling</th><td>"@
        + sampling_html(r.sampling)
        + "</td></tr><tr><th class=\"is-info\">Observations</th><td>"@ + table_open()
        + meteo_rows_below(r.pages@, 11) + table_close() + "</td></tr></tbody>"@ + table_close()
}

fn find_meteo_page(pages: &Vec<(MeteoObservable, MeteoPage)>, m: MeteoObservable) -> (r: Option<usize>)
    ensures
        match r {
            Some(i) => i < pages@.len() && meteo_page_of(pages@, m) == Some(pages@[i as int].1),
            None => meteo_page_of(pages@, m) is None,
        },
{
    let mut i: usize = pages.len();
    assert(pages@.subrange(0, pages@.len() as int) =~= pages@);
    while i > 0
        invariant
            i <= pages@.len(),
            meteo_page_of(pages@, m) == meteo_page_of(pages@.subrange(0, i as int), m),
        decreases i,
    {
        let ghost front = pages@.subrange(0, i as int);
        assert(front.last() == pages@[i - 1]);
        assert(front.drop_last() =~= pages@.subrange(0, i - 1));
        if pages[i - 1].0 == m {
            assert(meteo_page_of(front, m) == Some(pages@[i - 1].1));
            return Some(i - 1);
        }
        i = i - 1;
    }
    assert(pages@.subrange(0, 0).len() == 0);
    None
}

fn push_meteo_page_row(out: &mut String, pages: &Vec<(MeteoObservable, MeteoPage)>, m: MeteoObservable)
    ensures
        final(out)@ == old(out)@ + meteo_page_row_html(pages@, m),
{
    match find_meteo_page(pages, m) {
        Some(i) => {
            out.append("<tr><th class=\"is-info\">");
            let mut title = obs2physics(&m);
            title.append(" observations");
            push_html_escaped(out, title.as_str());
            out.append("</th><td>");
            let body = pages[i].1.render();
            out.append(body.as_str());
            out.append("</td></tr>");
            assert(final(out)@ =~= old(out)@ + meteo_page_row_html(pages@, m));
        },
        None => {
            assert(final(out)@ =~= old(out)@ + meteo_page_row_html(pages@, m));
        },
    }
}

fn push_sensor_rows(out: &mut String, sensors: &Vec<MeteoSensor>)
    ensures
        final(out)@ == old(out)@ + sensor_rows_html(sensors@),
{
    let mut i: usize = 0;
    while i < sensors.len()
        invariant
            i <= sensors@.len(),
            out@ == old(out)@ + sensor_rows_html(sensors@.subrange(0, i as int)),
        decreases sensors@.len() - i,
    {
        let sensor = &sensors[i];
        out.append("<tr><th>");
        let mut title = obs2physics(&sensor.observable);
        title.append(" sensor");
        push_html_escaped(out, title.as_str());
        out.append("</th><td>");
        out.append(sensor.html.as_str());
        out.append("</td></tr>");
        proof {
            let sub = sensors@.subrange(0, i + 1);
            assert(sub.drop_last() =~= sensors@.subrange(0, i as int));
            assert(sub.last() == *sensor);
            assert(out@ =~= old(out)@ + sensor_rows_html(sub));
        }
        i = i + 1;
    }
    assert(sensors@.subrange(0, sensors@.len() as int) =~= sensors@);
}

impl MeteoReport {
    /// The menu entry of this report.
    pub fn html_inline_menu_bar(&self) -> (s: String)
        ensures
            s@ == meteo_menu_html(),
    {
        String::from_str(
            "<a id=\"menu:meteo\"><span class=\"icon\"><i class=\"fa-solid fa-cloud-sun-rain\"></i></span>Meteo Observations</a>",
        )
    }

    /// This report as HTML: agency, sensors, sampling, then the pages in the
    /// alphabetical order of the quantity names.
    pub fn render(&self) -> (html: String)
        ensures
            html@ == meteo_report_html(*self),
    {
        let mut s = String::from_str("<div class=\"table-container\"><table class=\"table is-bordered\">");
        s.append("<tbody><tr><th class=\"is-info\">Agency</th>");
        match &self.agency {
            Some(a) => {
                s.append("<td>");
                push_html_escaped(&mut s, a.as_str());
                s.append("</td>");
            },
            None => {
                s.append("<td>Unknown</td>");
            },
        }
        s.append("</tr>");
        push_sensor_rows(&mut s, &self.sensors);
        s.append("<tr><th class=\"is-info\">Sampling</th><td>");
        let sampling = self.sampling.render();
        s.append(sampling.as_str());
        s.append("</td></tr><tr><th class=\"is-info\">Observations</th><td>");
        s.append("<div class=\"table-container\"><table class=\"table is-bordered\">");
        let ghost head = s@;
        let mut k: u8 = 0;
        while k < 11
            invariant
                k <= 11,
                s@ == head + meteo_rows_below(self.pages@, k as int),
            decreases 11 - k,
        {
            let m = meteo_from_rank(k);
            push_meteo_page_row(&mut s, &self.pages, m);
            k = k + 1;
        }
        s.append("</table></div>");
        s.append("</td></tr></tbody>");
        s.append("</table></div>");
        assert(s@ =~= meteo_report_html(*self));
        s
    }
}

/// Whether `pages` holds a page of quantity `m`.
pub open spec fn has_page(pages: Seq<(MeteoObservable, MeteoPage)>, m: MeteoObservable) -> bool {
    exists|k: int| 0 <= k < pages.len() && pages[k].0 == m
}

/// Whether `pages` holds one page per quantity of `observables`, each made
/// by `page` for its quantity: no quantity twice, none that is not observed.
pub open spec fn meteo_pages_fit<F: Fn(MeteoObservable) -> MeteoPage>(
    pages: Seq<(MeteoObservable, MeteoPage)>,
    observables: Seq<MeteoObservable>,
    page: F,
) -> bool {
    &&& forall|a: int, b: int|
        0 <= a < b < pages.len() ==> (#[trigger] pages[a]).0 != (#[trigger] pages[b]).0
    &&& forall|k: int| 0 <= k < pages.len() ==> observables.contains((#[trigger] pages[k]).0)
    &&& forall|j: int| 0 <= j < observables.len() ==> has_page(pages, #[trigger] observables[j])
    &&& forall|k: int| 0 <= k < pages.len() ==> call_ensures(page, ((#[trigger] pages[k]).0,), pages[k].1)
}

/// The position of the page of quantity `m` in `pages`, if there is one.
fn position_of(pages: &Vec<(MeteoObservable, MeteoPage)>, m: MeteoObservable) -> (r: Option<usize>)
    ensures
        match r {
            Some(k) => k < pages@.len() && pages@[k as int].0 == m,
            None => forall|k: int| 0 <= k < pages@.len() ==> (#[trigger] pages@[k]).0 != m,
        },
{
    let mut k: usize = 0;
    while k < pages.len()
        invariant
            k <= pages@.len(),
            forall|j: int| 0 <= j < k ==> (#[trigger] pages@[j]).0 != m,
        decreases pages@.len() - k,
    {
        if pages[k].0 == m {
            return Some(k);
        }
        k = k + 1;
    }
    None
}

impl MeteoReport {
    /// The report of a meteo file, from the sensors its meteo header declares
    /// (none without such a header), its sampling and its observed
    /// quantities: one page per quantity, made by `page`; a later observable
    /// of a quantity replaces the page of an earlier one. Without a meteo
    /// header there is no report.
    pub fn new<F: Fn(MeteoObservable) -> MeteoPage>(
        header_sensors: Option<Vec<MeteoSensor>>,
        sampling: SamplingSummary,
        observables: Vec<MeteoObservable>,
        page: F,
    ) -> (r: Result<MeteoReport, Error>)
        requires
            forall|m: MeteoObservable| #[trigger] call_requires(page, (m,)),
        ensures
            header_sensors is None <==> r is Err,
            r matches Err(e) ==> e == Error::MissingMeteoHeader,
            r matches Ok(rep) ==> {
                &&& header_sensors matches Some(ss) && rep.sensors@ == ss@
                &&& rep.agency is None
                &&& rep.sampling == sampling
                &&& meteo_pages_fit(rep.pages@, observables@, page)
            },
    {
        let sensors = match header_sensors {
            Some(ss) => ss,
            None => {
                return Err(Error::MissingMeteoHeader);
            },
        };
        let mut pages: Vec<(MeteoObservable, MeteoPage)> = Vec::new();
        let mut j: usize = 0;
        while j < observables.len()
            invariant
                forall|m: MeteoObservable| #[trigger] call_requires(page, (m,)),
                header_sensors == Some(sensors),
                j <= observables@.len(),
                forall|a: int, b: int|
                    0 <= a < b < pages@.len() ==> (#[trigger] pages@[a]).0 != (#[trigger] pages@[b]).0,
                forall|k: int|
                    0 <= k < pages@.len() ==> observables@.subrange(0, j as int).contains(
                        (#[trigger] pages@[k]).0,
                    ),
                forall|i: int| 0 <= i < j ==> has_page(pages@, #[trigger] observables@[i]),
                forall|k: int|
                    0 <= k < pages@.len() ==> call_ensures(page, ((#[trigger] pages@[k]).0,), pages@[k].1),
            decreases observables@.len() - j,
        {
            let m = observables[j];
            let made = page(m);
            let ghost old_pages = pages@;
            assert(observables@.subrange(0, j + 1) =~= observables@.subrange(0, j as int).push(m));
            match position_of(&pages, m) {
                Some(k) => {
                    pages.set(k, (m, made));
                    assert forall|i: int| 0 <= i < j + 1 implies has_page(pages@, #[trigger] observables@[i]) by {
                        if i < j {
                            let q = choose|q: int| 0 <= q < old_pages.len() && old_pages[q].0 == observables@[i];
                            assert(pages@[q].0 == old_pages[q].0);
                        } else {
                            assert(pages@[k as int].0 == observables@[i]);
                        }
                    }
                    assert forall|q: int| 0 <= q < pages@.len() implies observables@.subrange(0, j + 1).contains(
                        (#[trigger] pages@[q]).0,
                    ) by {
                        if q != k {
                            assert(old_pages[q] == pages@[q]);
                            let w = choose|w: int| 0 <= w < j && observables@.subrange(0, j as int)[w] == old_pages[q].0;
                            assert(observables@.subrange(0, j + 1)[w] == old_pages[q].0);
                        } else {
                            assert(observables@.subrange(0, j + 1)[j as int] == m);
                        }
                    }
                },
                None => {
                    pages.push((m, made));
                    assert forall|i: int| 0 <= i < j + 1 implies has_page(pages@, #[trigger] observables@[i]) by {
                        if i < j {
                            let q = choose|q: int| 0 <= q < old_pages.len() && old_pages[q].0 == observables@[i];
                            assert(pages@[q] == old_pages[q]);
                        } else {
                            assert(pages@[old_pages.len() as int].0 == observables@[i]);
                        }
                    }
                    assert forall|q: int| 0 <= q < pages@.len() implies observables@.subrange(0, j + 1).contains(
                        (#[trigger] pages@[q]).0,
                    ) by {
                        if q < old_pages.len() {
                            assert(old_pages[q] == pages@[q]);
                            let w = choose|w: int| 0 <= w < j && observables@.subrange(0, j as int)[w] == old_pages[q].0;
                            assert(observables@.subrange(0, j + 1)[w] == old_pages[q].0);
                        } else {
                            assert(observables@.subrange(0, j + 1)[j as int] == m);
                        }
                    }
                },
            }
            j = j + 1;
        }
        assert(j == observables@.len());
        assert(observables@.subrange(0, j as int) =~= observables@);
        assert forall|k: int| 0 <= k < pages@.len() implies observables@.contains((#[trigger] pages@[k]).0) by {
            assert(observables@.subrange(0, j as int).contains(pages@[k].0));
        }
        let rep = MeteoReport { sensors, agency: None, sampling, pages };
        assert(rep.sensors@ == sensors@);
        assert forall|i: int| 0 <= i < observables@.len() implies has_page(rep.pages@, #[trigger] observables@[i]) by {
            assert(i < j);
        }
        assert(meteo_pages_fit(rep.pages@, observables@, page));
        Ok(rep)
    }
}

} // verus!
