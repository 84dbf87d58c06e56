use gnss_qc::navigation::Constellation;
use gnss_qc::report::meteo::{
    obs2physics, obs2unit, MeteoObservable, MeteoPage, MeteoReport, MeteoSensor,
    ObservableDependent,
};
use gnss_qc::report::orbit::{
    brdc_sp3_constellations, trace_visible, BrdcSp3Report, OrbitReport, OrbitalReport,
};
use gnss_qc::report::Error as ReportError;
use gnss_qc::report::sampling::{longest_gap, shortest_gap, Gap, SamplingSummary};
use gnss_qc::report::sp3_report::{SP3Page, SP3Report, Satellite};
use gnss_qc::text::{decimal_string, html_escaped};

fn sampling(gaps: Vec<Gap>) -> SamplingSummary {
    SamplingSummary {
        first_epoch: "t0".to_string(),
        last_epoch: "t1".to_string(),
        duration: "1 h".to_string(),
        sampling_interval: None,
        dominant_sample_rate: None,
        gaps,
    }
}

const NO_GAP_TABLE: &str = "<div class=\"table-container\"><table class=\"table is-bordered\"><tbody><tr><th class=\"is-info\">Time Frame</th></tr><tr><th>Start</th><td>t0</td><th>End</th><td>t1</td></tr><tr><th>Duration</th><td>1 h</td></tr><tr><th class=\"is-primary\">Data gaps</th><td>No gaps detected</td></tr></tbody></table></div>";

#[test]
fn decimal_writing() {
    assert_eq!(decimal_string(0), "0");
    assert_eq!(decimal_string(7), "7");
    assert_eq!(decimal_string(10), "10");
    assert_eq!(decimal_string(1234567), "1234567");
    assert_eq!(decimal_string(usize::MAX), usize::MAX.to_string());
}

#[test]
fn html_escaping() {
    assert_eq!(html_escaped("a<b>&\"c'"), "a&lt;b&gt;&amp;&quot;c'");
    assert_eq!(html_escaped(""), "");
    assert_eq!(html_escaped("°C"), "°C");
}

#[test]
fn gap_selection() {
    assert_eq!(shortest_gap(&vec![]), None);
    assert_eq!(longest_gap(&vec![]), None);
    let d = vec![30, 10, 50, 10, 50, 20];
    assert_eq!(shortest_gap(&d), Some(1));
    assert_eq!(longest_gap(&d), Some(4));
    assert_eq!(shortest_gap(&vec![-5]), Some(0));
    assert_eq!(longest_gap(&vec![-5]), Some(0));
}

#[test]
fn sampling_without_gaps() {
    assert_eq!(sampling(vec![]).render(), NO_GAP_TABLE);
}

#[test]
fn sampling_with_gaps_and_rates() {
    let gap = |s: &str, d: &str, ns: i128| Gap {
        start: s.to_string(),
        duration: d.to_string(),
        duration_ns: ns,
    };
    let mut s = sampling(vec![gap("a", "2 s", 2), gap("b", "1 s", 1), gap("c", "<3 s>", 3)]);
    s.sampling_interval = Some("30 s".to_string());
    s.dominant_sample_rate = Some("0.033".to_string());
    let html = s.render();
    assert_eq!(html, "<div class=\"table-container\"><table class=\"table is-bordered\"><tbody><tr><th class=\"is-info\">Time Frame</th></tr><tr><th>Start</th><td>t0</td><th>End</th><td>t1</td></tr><tr><th>Duration</th><td>1 h</td></tr><tr><th class=\"is-info\">Sampling Period</th></tr><tr><td>30 s</td></tr><tr><th class=\"is-info\">Dominant Sampling Rate</th></tr><tr><td>0.033 Hz</td></tr><tr><th class=\"is-warning\">Data gaps</th><td>3 Data gaps</td></tr><tr><th>Shortest</th><td>b</td><td>1 s</td></tr><tr><th>Longest</th><td>c</td><td>&lt;3 s&gt;</td></tr></tbody></table></div>");
}

#[test]
fn menu_bars() {
    let orbital = OrbitalReport {
        sky_plot: String::new(),
        elev_plot: String::new(),
        map_proj: String::new(),
    };
    assert_eq!(
        orbital.html_inline_menu_bar(),
        "<a id=\"menu:orbit\"><span class=\"icon\"><i class=\"fa-solid fa-globe\"></i></span>Orbital projections</a>"
    );
    let orbit = OrbitReport {
        sky_plot: String::new(),
        elev_plot: String::new(),
        map_proj: String::new(),
        brdc_sp3_err: vec![],
    };
    assert_eq!(orbit.html_inline_menu_bar(), orbital.html_inline_menu_bar());
    let meteo = MeteoReport {
        sensors: vec![],
        agency: None,
        sampling: sampling(vec![]),
        pages: vec![],
    };
    assert_eq!(
        meteo.html_inline_menu_bar(),
        "<a id=\"menu:meteo\"><span class=\"icon\"><i class=\"fa-solid fa-cloud-sun-rain\"></i></span>Meteo Observations</a>"
    );
    let sp3 = SP3Report {
        agency: String::new(),
        version: String::new(),
        coord_system: String::new(),
        orbit_fit: String::new(),
        constellation: String::new(),
        time_scale: String::new(),
        sampling: sampling(vec![]),
        pages: vec![],
    };
    assert_eq!(
        sp3.html_inline_menu_bar(),
        "<a id=\"menu:sp3\"><span class=\"icon\"><i class=\"fa-solid fa-satellite\"></i></span>High Precision Orbit (SP3)</a>"
    );
}

#[test]
fn orbital_reports_render_their_plots() {
    let orbital = OrbitalReport {
        sky_plot: "S".to_string(),
        elev_plot: "E".to_string(),
        map_proj: "M".to_string(),
    };
    let rows = "<tr><th class=\"is-info\">Map projection</th><td>M</td></tr><tr><th class=\"is-info\">Sky plot</th><td>S</td></tr><tr><th class=\"is-info\">Elevation</th><td>E</td></tr>";
    assert_eq!(
        orbital.render(),
        format!("<div class=\"table-container\"><table class=\"table is-bordered\">{}</table></div>", rows)
    );
    let brdc = BrdcSp3Report {
        x_err_plot: "X".to_string(),
        y_err_plot: "Y".to_string(),
        z_err_plot: "Z".to_string(),
    };
    let brdc_html = "<div class=\"table-container\"><table class=\"table is-bordered\"><tr><th class=\"is-info\">X errors</th><td>X</td></tr><tr><th class=\"is-info\">Y errors</th><td>Y</td></tr><tr><th class=\"is-info\">Z errors</th><td>Z</td></tr></table></div>";
    assert_eq!(brdc.render(), brdc_html);
    let orbit = OrbitReport {
        sky_plot: "S".to_string(),
        elev_plot: "E".to_string(),
        map_proj: "M".to_string(),
        brdc_sp3_err: vec![(Constellation::Galileo, brdc)],
    };
    assert_eq!(
        orbit.render(),
        format!("<div class=\"table-container\"><table class=\"table is-bordered\">{}<tr><th class=\"is-info\">Galileo (EU) SP3/BRDC</th><td>{}</td></tr></table></div>", rows, brdc_html)
    );
}

fn sat(prn: u8, c: Constellation, name: &str) -> Satellite {
    Satellite {
        prn,
        constellation: c,
        name: name.to_string(),
    }
}

#[test]
fn sp3_page_sorts_satellites_by_prn_then_constellation() {
    let page = SP3Page {
        has_clock: true,
        has_velocity: false,
        has_clock_drift: false,
        satellites: vec![
            sat(2, Constellation::GPS, "G02"),
            sat(1, Constellation::Galileo, "E01"),
            sat(1, Constellation::GPS, "G01"),
            sat(1, Constellation::Glonass, "R01"),
        ],
        sampling: sampling(vec![]),
    };
    assert_eq!(page.satellites_text(), "G01, R01, E01, G02");
    assert_eq!(
        page.render(),
        format!("<div class=\"table-container\"><table class=\"table is-bordered\"><tr><th class=\"is-info\">General</th></tr><tr><th>Velocity</th><td>false</td></tr><tr><th>Clock offset</th><td>true</td></tr><tr><th>Clock drift</th><td>false</td></tr><tr><th class=\"is-info\">Satellites</th><td>G01, R01, E01, G02</td></tr><tr><th class=\"is-info\">Sampling</th><td>{}</td></tr></table></div>", NO_GAP_TABLE)
    );
}

#[test]
fn sp3_report_lists_pages_by_constellation() {
    let page = |name: &str| SP3Page {
        has_clock: false,
        has_velocity: true,
        has_clock_drift: false,
        satellites: vec![sat(1, Constellation::GPS, name)],
        sampling: sampling(vec![]),
    };
    let report = SP3Report {
        agency: "IGS".to_string(),
        version: "d".to_string(),
        coord_system: "ITRF".to_string(),
        orbit_fit: "FIT".to_string(),
        constellation: "Mixed".to_string(),
        time_scale: "GPST".to_string(),
        sampling: sampling(vec![]),
        pages: vec![
            (Constellation::Galileo, page("E")),
            (Constellation::GPS, page("G")),
        ],
    };
    let html = report.render();
    let gps = html.find("id=\"sp3:GPS (US)\"").unwrap();
    let gal = html.find("id=\"sp3:Galileo (EU)\"").unwrap();
    assert!(gps < gal);
    assert!(html.starts_with("<div class=\"table-container\"><table class=\"table is-bordered\"><tr><th><button aria-label=\"File revision\" data-balloon-pos=\"right\">File revision</button></th><td>d</td></tr><tr><th><button aria-label=\"Production Center\" data-balloon-pos=\"right\">Agency</button></th><td>IGS</td></tr>"));
    assert_eq!(html.matches("table-container is-page").count(), 2);
}

#[test]
fn meteo_names_and_units() {
    assert_eq!(obs2physics(&MeteoObservable::HumidityRate), "Moisture");
    assert_eq!(obs2physics(&MeteoObservable::ZenithTotalDelay), "Wet+Dry Delay");
    assert_eq!(obs2physics(&MeteoObservable::Other), "Not applicable");
    assert_eq!(obs2unit(&MeteoObservable::Temperature), "°C");
    assert_eq!(obs2unit(&MeteoObservable::RainIncrement), "%");
    assert_eq!(obs2unit(&MeteoObservable::ZenithDryDelay), "s");
    assert_eq!(obs2unit(&MeteoObservable::HailIndicator), "boolean");
    assert_eq!(obs2unit(&MeteoObservable::Other), "not applicable");
}

#[test]
fn meteo_report_lists_pages_alphabetically() {
    let page = |p: &str| MeteoPage {
        inner: ObservableDependent::SinglePlot(p.to_string()),
        sampling: sampling(vec![]),
    };
    let report = MeteoReport {
        sensors: vec![MeteoSensor {
            observable: MeteoObservable::Pressure,
            html: "<table></table>".to_string(),
        }],
        agency: None,
        sampling: sampling(vec![]),
        pages: vec![
            (MeteoObservable::WindSpeed, page("WS")),
            (MeteoObservable::Pressure, page("PR")),
            (MeteoObservable::ZenithDryDelay, page("ZD")),
        ],
    };
    let html = report.render();
    let dry = html.find("Dry Delay observations").unwrap();
    let pr = html.find("Pressure observations").unwrap();
    let ws = html.find("Wind Speed observations").unwrap();
    assert!(dry < pr && pr < ws);
    assert!(html.contains("<tr><th>Pressure sensor</th><td><table></table></td></tr>"));
    assert!(html.contains("<td>Unknown</td>"));
    let mut names: Vec<String> = [
        MeteoObservable::Pressure,
        MeteoObservable::Temperature,
        MeteoObservable::HumidityRate,
        MeteoObservable::ZenithWetDelay,
        MeteoObservable::ZenithDryDelay,
        MeteoObservable::ZenithTotalDelay,
        MeteoObservable::WindDirection,
        MeteoObservable::WindSpeed,
        MeteoObservable::RainIncrement,
        MeteoObservable::HailIndicator,
        MeteoObservable::Other,
    ]
    .iter()
    .map(obs2physics)
    .collect();
    let listed: Vec<String> = names.clone();
    names.sort();
    assert_eq!(names.len(), listed.len());
}

#[test]
fn wind_direction_page_wraps_its_compass() {
    let page = MeteoPage {
        inner: ObservableDependent::WindDirection("C".to_string()),
        sampling: sampling(vec![]),
    };
    assert_eq!(page.render(), format!("<div class=\"table-container\"><table class=\"table is-bordered\"><tbody><tr><th class=\"is-info\">Sampling</th><td>{}</td></tr><tr><th class=\"is-info\">Observations</th><td><div class=\"table-container\"><table class=\"table is-bordered\"><tbody><tr><td>C</td></tr></tbody></table></div></td></tr></tbody></table></div>", NO_GAP_TABLE));
}

fn page_for(m: MeteoObservable) -> MeteoPage {
    MeteoPage {
        inner: ObservableDependent::SinglePlot(obs2physics(&m)),
        sampling: sampling(vec![]),
    }
}

#[test]
fn meteo_report_needs_a_meteo_header() {
    let r = MeteoReport::new(None, sampling(vec![]), vec![MeteoObservable::Pressure], page_for);
    assert!(matches!(r, Err(ReportError::MissingMeteoHeader)));
}

#[test]
fn meteo_report_has_one_page_per_quantity() {
    let sensor = MeteoSensor {
        observable: MeteoObservable::Temperature,
        html: "<table></table>".to_string(),
    };
    let r = MeteoReport::new(
        Some(vec![sensor]),
        sampling(vec![]),
        vec![
            MeteoObservable::Pressure,
            MeteoObservable::Other,
            MeteoObservable::Temperature,
            MeteoObservable::Other,
        ],
        page_for,
    )
    .unwrap();
    assert!(r.agency.is_none());
    assert_eq!(r.sensors.len(), 1);
    assert_eq!(r.sensors[0].observable, MeteoObservable::Temperature);
    let keys: Vec<MeteoObservable> = r.pages.iter().map(|(m, _)| *m).collect();
    assert_eq!(
        keys,
        vec![
            MeteoObservable::Pressure,
            MeteoObservable::Other,
            MeteoObservable::Temperature
        ]
    );
    let html = r.render();
    assert_eq!(html.matches("Not applicable observations").count(), 1);
}

#[test]
fn later_meteo_page_replaces_an_earlier_one() {
    let mut r = MeteoReport::new(Some(vec![]), sampling(vec![]), vec![], page_for).unwrap();
    let first = MeteoPage {
        inner: ObservableDependent::SinglePlot("first".to_string()),
        sampling: sampling(vec![]),
    };
    let second = MeteoPage {
        inner: ObservableDependent::SinglePlot("second".to_string()),
        sampling: sampling(vec![]),
    };
    r.pages.push((MeteoObservable::Pressure, first));
    r.pages.push((MeteoObservable::Pressure, second));
    let html = r.render();
    assert!(html.contains("second"));
    assert!(!html.contains("first"));
}

#[test]
fn brdc_sp3_constellations_are_the_common_ones() {
    let r = brdc_sp3_constellations(
        vec![Constellation::Galileo, Constellation::GPS, Constellation::BeiDou],
        vec![Constellation::GPS, Constellation::Galileo],
    );
    assert_eq!(r, vec![Constellation::Galileo, Constellation::GPS]);
    assert!(brdc_sp3_constellations(vec![Constellation::GPS], vec![]).is_empty());
}

#[test]
fn trace_visibility() {
    assert!(trace_visible(3, false));
    assert!(!trace_visible(4, false));
    assert!(trace_visible(1, true));
    assert!(!trace_visible(2, true));
}
