use parasail_rs::aligner::Error as AlignerError;
use parasail_rs::{Aligner, Gap, InstructionSet, Matrix, Profile};

#[test]
fn build_default_aligner() {
    assert!(Aligner::new().build().is_ok()); // default is global aligner
    assert!(Aligner::new().local().build().is_ok());
    assert!(Aligner::new().semi_global().build().is_ok());
}

#[test]
fn get_parasail_fn_name() -> Result<(), parasail_rs::Error> {
    // test basic configurations and then a few tricky ones

    // default NW aligner
    assert_eq!(Aligner::new().get_parasail_fn_name()?, "parasail_nw");

    // use local alignment
    assert_eq!(Aligner::new().local().get_parasail_fn_name()?, "parasail_sw");

    // use semi-global alignment
    assert_eq!(
        Aligner::new().semi_global().get_parasail_fn_name()?,
        "parasail_sg"
    );

    // semi-global with allowed gaps
    assert_eq!(
        Aligner::new()
            .semi_global()
            .allow_query_gaps(Gap::Prefix)
            .get_parasail_fn_name()?,
        "parasail_sg_qb"
    );

    assert_eq!(
        Aligner::new()
            .semi_global()
            .allow_ref_gaps(Gap::Suffix)
            .get_parasail_fn_name()?,
        "parasail_sg_de"
    );

    // check that overriding table works when calling row_col
    assert_eq!(
        Aligner::new()
            .local()
            .return_table() // initially set to return full table
            .return_last_rowcol() // override and return the last row/col
            .get_parasail_fn_name()?,
        "parasail_sw_rowcol"
    );

    // does this work if we do it the other way now,
    assert_eq!(
        Aligner::new()
            .local()
            .return_last_rowcol() // initially set to return last row/col
            .return_table() // call to return whole table but prefers row/col
            .get_parasail_fn_name()?,
        "parasail_sw_rowcol"
    );

    // set a solution width along with some instructions
    // this should still work because the vectorization strategy is
    // checked first, and if it is not set, then the instruction set
    // and solution width settings are ignored.
    assert_eq!(
        Aligner::new()
            .global()
            .solution_width(8)
            .instruction_set(InstructionSet::Neon)
            .get_parasail_fn_name()?,
        "parasail_nw"
    );

    // now we add the vec strategy and it should add the instruction set
    // and solution width information
    assert_eq!(
        Aligner::new()
            .global()
            .striped()
            .solution_width(8)
            .instruction_set(InstructionSet::Neon)
            .get_parasail_fn_name()?,
        "parasail_nw_striped_neon_128_8"
    );

    Ok(())
}

#[test]
fn last_rowcol_wins_in_both_orders() {
    let table_then_rowcol = Aligner::new()
        .local()
        .return_table()
        .return_last_rowcol()
        .get_parasail_fn_name()
        .unwrap();
    let rowcol_then_table = Aligner::new()
        .local()
        .return_last_rowcol()
        .return_table()
        .get_parasail_fn_name()
        .unwrap();
    assert_eq!(table_then_rowcol, "parasail_sw_rowcol");
    assert_eq!(rowcol_then_table, "parasail_sw_rowcol");
}

#[test]
fn allow_all_gaps_collapses_to_default() {
    let unrestricted = Aligner::new().semi_global().get_parasail_fn_name().unwrap();
    let explicit = Aligner::new()
        .semi_global()
        .allow_query_gaps(Gap::All)
        .allow_ref_gaps(Gap::All)
        .get_parasail_fn_name()
        .unwrap();
    assert_eq!(unrestricted, "parasail_sg");
    assert_eq!(explicit, "parasail_sg");

    // Prefix and suffix accumulate to the allow-all form.
    let accumulated = Aligner::new()
        .semi_global()
        .allow_query_gaps(Gap::Prefix)
        .allow_query_gaps(Gap::Suffix)
        .allow_ref_gaps(Gap::All)
        .get_parasail_fn_name()
        .unwrap();
    assert_eq!(accumulated, "parasail_sg");
}

#[test]
fn gap_tokens_only_in_semi_global() {
    // In global mode the gap flags contribute nothing.
    assert_eq!(
        Aligner::new()
            .global()
            .allow_query_gaps(Gap::All)
            .get_parasail_fn_name()
            .unwrap(),
        "parasail_nw"
    );
    // Allow-all on one side alone is not the canonical form and stays.
    assert_eq!(
        Aligner::new()
            .semi_global()
            .allow_query_gaps(Gap::All)
            .get_parasail_fn_name()
            .unwrap(),
        "parasail_sg_qx"
    );
    assert_eq!(
        Aligner::new()
            .semi_global()
            .allow_query_gaps(Gap::Prefix)
            .allow_ref_gaps(Gap::Suffix)
            .get_parasail_fn_name()
            .unwrap(),
        "parasail_sg_qb_de"
    );
}

#[test]
fn stats_and_traceback_are_mutually_exclusive() {
    // Requesting stats then traceback leaves traceback active only.
    assert_eq!(
        Aligner::new()
            .return_stats()
            .enable_traceback()
            .get_parasail_fn_name()
            .unwrap(),
        "parasail_nw_trace"
    );
    // And the other way round, stats win.
    assert_eq!(
        Aligner::new()
            .enable_traceback()
            .return_stats()
            .get_parasail_fn_name()
            .unwrap(),
        "parasail_nw_stats"
    );
    // Traceback also clears a table request.
    assert_eq!(
        Aligner::new()
            .return_table()
            .enable_traceback()
            .get_parasail_fn_name()
            .unwrap(),
        "parasail_nw_trace"
    );
}

#[test]
fn profile_overrides_stats_token() {
    let matrix = Matrix::default();
    let plain_profile = Profile::new(b"ACGT", &matrix).build().unwrap();
    // Stats were requested independently, but the bound profile was
    // built without stats: its flag wins.
    let name = Aligner::new()
        .return_stats()
        .profile(plain_profile)
        .scan()
        .get_parasail_fn_name()
        .unwrap();
    assert_eq!(name, "parasail_nw_scan_profile_sat");

    let stats_profile = Profile::new(b"ACGT", &matrix).use_stats().build().unwrap();
    let name = Aligner::new()
        .profile(stats_profile)
        .scan()
        .get_parasail_fn_name()
        .unwrap();
    assert_eq!(name, "parasail_nw_stats_scan_profile_sat");
}

#[test]
fn adopted_stats_flag_clears_traceback() {
    let matrix = Matrix::default();
    // Binding a statistics-built profile while traceback is active
    // adopts the flag and clears traceback, the mutually exclusive
    // option.
    let stats_profile = Profile::new(b"ACGT", &matrix).use_stats().build().unwrap();
    let name = Aligner::new()
        .enable_traceback()
        .profile(stats_profile)
        .scan()
        .get_parasail_fn_name()
        .unwrap();
    assert_eq!(name, "parasail_nw_stats_scan_profile_sat");

    // A profile built without statistics adopts the cleared flag and
    // leaves traceback alone.
    let plain_profile = Profile::new(b"ACGT", &matrix).build().unwrap();
    let name = Aligner::new()
        .enable_traceback()
        .profile(plain_profile)
        .scan()
        .get_parasail_fn_name()
        .unwrap();
    assert_eq!(name, "parasail_nw_trace_scan_profile_sat");
}

#[test]
fn solution_width_tokens() {
    for (width, expected) in [
        (8, "parasail_nw_scan_8"),
        (16, "parasail_nw_scan_16"),
        (32, "parasail_nw_scan_32"),
        (64, "parasail_nw_scan_64"),
    ] {
        assert_eq!(
            Aligner::new()
                .scan()
                .solution_width(width)
                .get_parasail_fn_name()
                .unwrap(),
            expected
        );
    }
    // Unset width selects the saturating kernels.
    assert_eq!(
        Aligner::new().scan().get_parasail_fn_name().unwrap(),
        "parasail_nw_scan_sat"
    );
}

#[test]
fn instruction_set_tokens() {
    for (iset, expected) in [
        (InstructionSet::SSE2, "parasail_nw_diag_sse2_128_sat"),
        (InstructionSet::SSE41, "parasail_nw_diag_sse41_128_sat"),
        (InstructionSet::AVX2, "parasail_nw_diag_avx2_256_sat"),
        (InstructionSet::AltiVec, "parasail_nw_diag_altivec_128_sat"),
        (InstructionSet::Neon, "parasail_nw_diag_neon_128_sat"),
    ] {
        assert_eq!(
            Aligner::new()
                .diag()
                .instruction_set(iset)
                .get_parasail_fn_name()
                .unwrap(),
            expected
        );
    }
}

#[test]
fn invalid_width_is_a_build_error() {
    let err = Aligner::new().striped().solution_width(7).build().unwrap_err();
    assert_eq!(err, AlignerError::InvalidSolutionWidth { solution_width: 7 });

    // Without a vectorization strategy the width is ignored, even an
    // invalid one: this is the strategy gate.
    assert!(Aligner::new().solution_width(7).build().is_ok());
}

#[test]
fn profile_demands_scan_or_striped() {
    let matrix = Matrix::default();
    let profile = Profile::new(b"ACGT", &matrix).build().unwrap();
    let err = Aligner::new().profile(profile).diag().build().unwrap_err();
    assert_eq!(
        err,
        AlignerError::IncompatibleProfileConfig {
            vec_strategy: String::from("_diag"),
        }
    );

    let profile = Profile::new(b"ACGT", &matrix).build().unwrap();
    let err = Aligner::new().profile(profile).build().unwrap_err();
    assert_eq!(
        err,
        AlignerError::IncompatibleProfileConfig {
            vec_strategy: String::new(),
        }
    );

    let profile = Profile::new(b"ACGT", &matrix).build().unwrap();
    assert!(Aligner::new().profile(profile).striped().build().is_ok());
}

#[test]
fn built_aligner_keeps_configuration() {
    let matrix = Matrix::default();
    let profile = Profile::new(b"ACGT", &matrix).build().unwrap();
    let aligner = Aligner::new()
        .gap_open_penalty(10)
        .gap_extend_penalty(1)
        .profile(profile)
        .scan()
        .build()
        .unwrap();
    assert_eq!(aligner.fn_name, "parasail_nw_scan_profile_sat");
    assert_eq!(aligner.gap_open_penalty, 10);
    assert_eq!(aligner.gap_extend_penalty, 1);
    assert!(aligner.uses_profile_shape());

    let direct = Aligner::new().build().unwrap();
    assert_eq!(direct.fn_name, "parasail_nw");
    assert!(!direct.uses_profile_shape());
}
