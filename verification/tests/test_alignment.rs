use parasail_rs::aligner::{Error as AlignerError, Mode};
use parasail_rs::Alignment;

#[test]
fn base_fields_are_always_available() {
    let alignment = Alignment::new(5, 4, 4, Mode::Global);
    assert_eq!(alignment.get_score(), 5);
    assert_eq!(alignment.get_end_query(), 4);
    assert_eq!(alignment.get_end_ref(), 4);
    assert!(alignment.is_global());
    assert!(!alignment.is_semi_global());
    assert!(!alignment.is_local());
}

#[test]
fn mode_predicates() {
    assert!(Alignment::new(0, 0, 0, Mode::SemiGlobal).is_semi_global());
    assert!(Alignment::new(0, 0, 0, Mode::Local).is_local());
}

#[test]
fn stats_accessors_require_stats() {
    let plain = Alignment::new(5, 4, 4, Mode::Global);
    assert_eq!(plain.get_matches().unwrap_err(), AlignerError::NoStatsReturned);
    assert_eq!(plain.get_similar().unwrap_err(), AlignerError::NoStatsReturned);
    assert_eq!(plain.get_length().unwrap_err(), AlignerError::NoStatsReturned);
    assert!(!plain.is_stats());

    let with_stats = Alignment::new(5, 4, 4, Mode::Global).with_stats(5, 5, 5);
    assert!(with_stats.is_stats());
    assert_eq!(with_stats.get_matches().unwrap(), 5);
    assert_eq!(with_stats.get_similar().unwrap(), 5);
    assert_eq!(with_stats.get_length().unwrap(), 5);
}

#[test]
fn traceback_result_refuses_match_count() {
    // A configuration that asked for traceback got no statistics: the
    // two are mutually exclusive, and the accessor says so.
    let trace_result = Alignment::new(5, 4, 4, Mode::Global).with_trace();
    assert!(trace_result.is_trace());
    assert!(!trace_result.is_stats());
    assert_eq!(trace_result.get_matches().unwrap_err(), AlignerError::NoStatsReturned);
}

#[test]
fn table_accessors_require_table() {
    let plain = Alignment::new(1, 0, 0, Mode::Global);
    assert_eq!(plain.get_score_table().unwrap_err(), AlignerError::NoTableReturned);
    assert!(!plain.is_table());

    let with_table = Alignment::new(1, 0, 0, Mode::Global).with_score_table(vec![1, -1, -1, 1]);
    assert!(with_table.is_table());
    assert_eq!(with_table.get_score_table().unwrap(), &vec![1, -1, -1, 1]);
}

#[test]
fn rowcol_accessors_require_rowcol() {
    let plain = Alignment::new(1, 0, 0, Mode::Global);
    assert_eq!(plain.get_score_row().unwrap_err(), AlignerError::NoRowColReturned);
    assert_eq!(plain.get_score_col().unwrap_err(), AlignerError::NoRowColReturned);
    assert!(!plain.is_rowcol());

    let with_rowcol = Alignment::new(1, 0, 0, Mode::Global).with_rowcol(vec![0, 1], vec![2, 3]);
    assert!(with_rowcol.is_rowcol());
    assert_eq!(with_rowcol.get_score_row().unwrap(), &vec![0, 1]);
    assert_eq!(with_rowcol.get_score_col().unwrap(), &vec![2, 3]);
}

#[test]
fn combined_capability_predicates() {
    let stats_table = Alignment::new(0, 0, 0, Mode::Global)
        .with_stats(1, 1, 1)
        .with_score_table(vec![0]);
    assert!(stats_table.is_stats_table());
    assert!(!stats_table.is_stats_rowcol());

    let stats_rowcol = Alignment::new(0, 0, 0, Mode::Global)
        .with_stats(1, 1, 1)
        .with_rowcol(vec![0], vec![0]);
    assert!(stats_rowcol.is_stats_rowcol());
    assert!(!stats_rowcol.is_stats_table());

    let table_only = Alignment::new(0, 0, 0, Mode::Global).with_score_table(vec![0]);
    assert!(!table_only.is_stats_table());
}

#[test]
fn kernel_flags_are_recorded() {
    let a = Alignment::new(0, 0, 0, Mode::Global).with_flags(true, false, false, true, false, false);
    assert!(a.is_saturated());
    assert!(!a.is_banded());
    assert!(!a.is_scan());
    assert!(a.is_striped());
    assert!(!a.is_diag());
    assert!(!a.is_blocked());
}
