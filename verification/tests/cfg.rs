use gnss_qc::cfg::{Error, QcConfig, QcReportType};

#[test]
fn report_type_parses_summary_words() {
    assert_eq!(QcReportType::parse("sum"), Ok(QcReportType::Summary));
    assert_eq!(QcReportType::parse("summ"), Ok(QcReportType::Summary));
    assert_eq!(QcReportType::parse("Summary"), Ok(QcReportType::Summary));
    assert_eq!(QcReportType::parse("  SUMMARY\t\n"), Ok(QcReportType::Summary));
}

#[test]
fn report_type_parses_full() {
    assert_eq!(QcReportType::parse("full"), Ok(QcReportType::Full));
    assert_eq!(QcReportType::parse(" FuLl "), Ok(QcReportType::Full));
    assert_eq!(QcReportType::parse("\u{a0}full\u{3000}"), Ok(QcReportType::Full));
}

#[test]
fn report_type_refuses_other_words() {
    assert_eq!(QcReportType::parse(""), Err(Error::InvalidReportType));
    assert_eq!(QcReportType::parse("fulll"), Err(Error::InvalidReportType));
    assert_eq!(QcReportType::parse("su m"), Err(Error::InvalidReportType));
    assert_eq!(QcReportType::parse("summaries"), Err(Error::InvalidReportType));
}

#[test]
fn report_type_names() {
    assert_eq!(QcReportType::Full.to_string(), "Full");
    assert_eq!(QcReportType::Summary.to_string(), "Summary");
}

#[test]
fn report_type_round_trip() {
    for r in [QcReportType::Full, QcReportType::Summary] {
        assert_eq!(QcReportType::parse(&r.to_string()), Ok(r));
    }
}

#[test]
fn report_type_default_is_full() {
    assert_eq!(QcReportType::default(), QcReportType::Full);
    assert_eq!(QcConfig::default().report, QcReportType::Full);
}

#[test]
fn config_setters() {
    let mut cfg = QcConfig::default();
    cfg.set_report_type(QcReportType::Summary);
    assert_eq!(cfg.report, QcReportType::Summary);
    let other = cfg.with_report_type(QcReportType::Full);
    assert_eq!(other.report, QcReportType::Full);
    assert_eq!(cfg.report, QcReportType::Summary);
}

#[test]
fn config_renders_a_row() {
    let cfg = QcConfig::default();
    assert_eq!(cfg.render(), "<tr><td>Report</td><td>Full</td></tr>");
    let cfg = cfg.with_report_type(QcReportType::Summary);
    assert_eq!(cfg.render(), "<tr><td>Report</td><td>Summary</td></tr>");
}
