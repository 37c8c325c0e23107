//! Aligner configuration and symbol resolution.
//!
//! An [`AlignerBuilder`] accumulates orthogonal alignment options under
//! the documented mutual-exclusion rules; [`AlignerBuilder::build`]
//! validates the accumulated configuration and encodes it into the
//! canonical backend entry-point identifier, a string the backend's
//! dynamic function table is keyed by. The token order of the identifier
//! is fixed: mode, query-gap token, reference-gap token, statistics,
//! table, traceback, vectorization strategy, profile, instruction set,
//! solution width.

use crate::matrix::Matrix;
use crate::profile::{stats_part, valid_solution_width, Profile};
use crate::InstructionSet;
use vstd::prelude::*;
use vstd::string::StringExecFns;

verus! {

/// Errors of aligner construction.
#[derive(Debug, Clone, PartialEq)]
pub enum Error {
    /// A profile is bound but the vectorization strategy is not scan or
    /// striped, the only strategies with profile entry points.
    IncompatibleProfileConfig { vec_strategy: String },
    /// A solution width outside 8, 16, 32 and 64 bits, noticed once a
    /// vectorization strategy makes the width matter.
    InvalidSolutionWidth { solution_width: u8 },
    /// A sequence holds an interior `0` byte, which the backend's C
    /// strings cannot carry.
    InteriorNul { pos: usize },
    /// The backend's function table has no entry point of this name.
    FunctionLookupFailed { fn_name: String },
    /// An alignment with a profile was requested of an aligner built
    /// without one.
    NoProfileFound,
    /// The stored callable does not match the call shape that was used.
    IncompatibleAlignerFn,
    /// The backend returned no result handle.
    NulResult { msg: String },
    /// The result was produced without statistics.
    NoStatsReturned,
    /// The result was produced without a table.
    NoTableReturned,
    /// The result was produced without the last row and column.
    NoRowColReturned,
    /// The result was produced without traceback support.
    NoTraceReturned,
}

/// Where gaps are allowed — not penalized — on a sequence in semi-global
/// alignment.
#[derive(Debug, Clone, Copy, PartialEq, Eq, Structural)]
pub enum Gap {
    Prefix,
    Suffix,
    All,
}

/// Alignment mode.
#[derive(Debug, Clone, Copy, PartialEq, Eq, Structural)]
pub enum Mode {
    /// Global (Needleman-Wunsch) alignment.
    Global,
    /// Semi-global alignment.
    SemiGlobal,
    /// Local (Smith-Waterman) alignment.
    Local,
}

/// Vectorization strategy of the alignment kernel.
#[derive(Debug, Clone, Copy, PartialEq, Eq, Structural)]
pub enum VecStrategy {
    /// No vectorization: the plain kernels, with no width specialization.
    NoVec,
    Scan,
    Striped,
    Diag,
}

/// Which part of the dynamic-programming table the result should carry.
#[derive(Debug, Clone, Copy, PartialEq, Eq, Structural)]
pub enum TableMode {
    /// No table data.
    NoTable,
    /// The full table.
    FullTable,
    /// Only the last row and column. Once requested, this wins over the
    /// full table whatever order the two were requested in.
    LastRowCol,
}

/// Accumulates alignment options before the aligner is built.
#[derive(Debug, Clone)]
pub struct AlignerBuilder {
    /// Alignment mode; global by default.
    pub mode: Mode,
    /// Solution width in bits; unset means saturating.
    pub solution_width: Option<u8>,
    /// The substitution matrix; the DNA identity matrix by default.
    pub matrix: Matrix,
    /// Gap-opening penalty, not applied by default.
    pub gap_open_penalty: u32,
    /// Gap-extension penalty, not applied by default.
    pub gap_extend_penalty: u32,
    /// Bound query profile, if any.
    pub profile: Option<Profile>,
    /// Allow unpenalized gaps at the start of the query.
    pub query_gap_prefix: bool,
    /// Allow unpenalized gaps at the end of the query.
    pub query_gap_suffix: bool,
    /// Allow unpenalized gaps at the start of the reference.
    pub ref_gap_prefix: bool,
    /// Allow unpenalized gaps at the end of the reference.
    pub ref_gap_suffix: bool,
    /// Vectorization strategy; none by default.
    pub vec_strategy: VecStrategy,
    /// Return alignment statistics; mutually exclusive with traceback.
    pub use_stats: bool,
    /// Which part of the dynamic-programming table to return.
    pub table_mode: TableMode,
    /// Enable traceback; mutually exclusive with statistics and tables.
    pub use_trace: bool,
    /// Explicit SIMD instruction-set hint.
    pub instruction_set: Option<InstructionSet>,
}

/// Token of the alignment mode.
pub open spec fn mode_token(m: Mode) -> Seq<char> {
    match m {
        Mode::Global => "nw"@,
        Mode::SemiGlobal => "sg"@,
        Mode::Local => "sw"@,
    }
}

/// Token of the query gap-allowance flags: prefix and suffix together
/// collapse to the allow-all form.
pub open spec fn query_gap_token(prefix: bool, suffix: bool) -> Seq<char> {
    if prefix && suffix {
        "_qx"@
    } else if prefix {
        "_qb"@
    } else if suffix {
        "_qe"@
    } else {
        ""@
    }
}

/// Token of the reference gap-allowance flags: prefix and suffix together
/// collapse to the allow-all form.
pub open spec fn ref_gap_token(prefix: bool, suffix: bool) -> Seq<char> {
    if prefix && suffix {
        "_dx"@
    } else if prefix {
        "_db"@
    } else if suffix {
        "_de"@
    } else {
        ""@
    }
}

/// Gaps allowed everywhere on both sequences: the backend's canonical
/// "no restriction" form, whose tokens are dropped from the identifier
/// entirely because the plain semi-global entry point already means
/// exactly that.
pub open spec fn all_gaps_allowed(b: AlignerBuilder) -> bool {
    b.query_gap_prefix && b.query_gap_suffix && b.ref_gap_prefix && b.ref_gap_suffix
}

/// Query gap token of the identifier: emitted only in semi-global mode,
/// and dropped when the configuration collapses to the no-restriction
/// form.
pub open spec fn query_gaps_token(b: AlignerBuilder) -> Seq<char> {
    if b.mode is SemiGlobal && !all_gaps_allowed(b) {
        query_gap_token(b.query_gap_prefix, b.query_gap_suffix)
    } else {
        ""@
    }
}

/// Reference gap token of the identifier: emitted only in semi-global
/// mode, and dropped when the configuration collapses to the
/// no-restriction form.
pub open spec fn ref_gaps_token(b: AlignerBuilder) -> Seq<char> {
    if b.mode is SemiGlobal && !all_gaps_allowed(b) {
        ref_gap_token(b.ref_gap_prefix, b.ref_gap_suffix)
    } else {
        ""@
    }
}

/// Statistics token of the identifier: with a profile bound it comes
/// from the profile's own flag, never from an independently set option.
pub open spec fn stats_token(b: AlignerBuilder) -> Seq<char> {
    match b.profile {
        Some(p) => stats_part(p.use_stats),
        None => stats_part(b.use_stats),
    }
}

/// Table token of the identifier.
pub open spec fn table_token(t: TableMode) -> Seq<char> {
    match t {
        TableMode::NoTable => ""@,
        TableMode::FullTable => "_table"@,
        TableMode::LastRowCol => "_rowcol"@,
    }
}

/// Traceback token of the identifier.
pub open spec fn trace_token(use_trace: bool) -> Seq<char> {
    if use_trace {
        "_trace"@
    } else {
        ""@
    }
}

/// Vectorization-strategy token of the identifier.
pub open spec fn vec_token(v: VecStrategy) -> Seq<char> {
    match v {
        VecStrategy::NoVec => ""@,
        VecStrategy::Scan => "_scan"@,
        VecStrategy::Striped => "_striped"@,
        VecStrategy::Diag => "_diag"@,
    }
}

/// Profile token of the identifier: appended only when a profile is
/// bound.
pub open spec fn profile_token(b: AlignerBuilder) -> Seq<char> {
    if b.profile is Some {
        "_profile"@
    } else {
        ""@
    }
}

/// Instruction-set token of an aligner entry point.
pub open spec fn aligner_iset_token(iset: Option<InstructionSet>) -> Seq<char> {
    match iset {
        None => ""@,
        Some(InstructionSet::SSE2) => "_sse2_128"@,
        Some(InstructionSet::SSE41) => "_sse41_128"@,
        Some(InstructionSet::AVX2) => "_avx2_256"@,
        Some(InstructionSet::AltiVec) => "_altivec_128"@,
        Some(InstructionSet::Neon) => "_neon_128"@,
    }
}

/// Width token of an aligner entry point; an unset width selects the
/// saturating kernels. Only meaningful for widths `valid_solution_width`
/// accepts.
pub open spec fn aligner_width_token(w: Option<u8>) -> Seq<char> {
    match w {
        None => "_sat"@,
        Some(v) => if v == 8 {
            "_8"@
        } else if v == 16 {
            "_16"@
        } else if v == 32 {
            "_32"@
        } else if v == 64 {
            "_64"@
        } else {
            ""@
        },
    }
}

/// Instruction-set token of the identifier, gated on the vectorization
/// strategy: unvectorized entry points have no instruction-set variants,
/// so without a strategy the hint is ignored even if set.
pub open spec fn iset_token(b: AlignerBuilder) -> Seq<char> {
    if b.vec_strategy is NoVec {
        ""@
    } else {
        aligner_iset_token(b.instruction_set)
    }
}

/// Width token of the identifier, gated on the vectorization strategy
/// the same way the instruction-set token is.
pub open spec fn width_token(b: AlignerBuilder) -> Seq<char> {
    if b.vec_strategy is NoVec {
        ""@
    } else {
        aligner_width_token(b.solution_width)
    }
}

/// Whether the configured width resolves: either no vectorization
/// strategy is set, in which case the width is ignored, or the width is
/// one the backend compiles kernels for.
pub open spec fn width_ok(b: AlignerBuilder) -> bool {
    b.vec_strategy is NoVec || valid_solution_width(b.solution_width)
}

/// The canonical backend entry-point identifier of a configuration, in
/// the fixed token order.
pub open spec fn spec_fn_name(b: AlignerBuilder) -> Seq<char> {
    "parasail_"@ + mode_token(b.mode) + query_gaps_token(b) + ref_gaps_token(b) + stats_token(b)
        + table_token(b.table_mode) + trace_token(b.use_trace) + vec_token(b.vec_strategy)
        + profile_token(b) + iset_token(b) + width_token(b)
}

/// Requesting statistics marks the configuration for statistics and
/// clears traceback, the mutually exclusive option.
pub open spec fn spec_return_stats(b: AlignerBuilder) -> AlignerBuilder {
    AlignerBuilder { use_stats: true, use_trace: false, ..b }
}

/// Enabling traceback marks the configuration for traceback and clears
/// both statistics and any table request, the mutually exclusive
/// options.
pub open spec fn spec_enable_traceback(b: AlignerBuilder) -> AlignerBuilder {
    AlignerBuilder { use_trace: true, use_stats: false, table_mode: TableMode::NoTable, ..b }
}

/// Requesting the full table is honoured only while the last row and
/// column have not been requested: once they have, that choice stands.
pub open spec fn spec_return_table(b: AlignerBuilder) -> AlignerBuilder {
    if b.table_mode is LastRowCol {
        b
    } else {
        AlignerBuilder { table_mode: TableMode::FullTable, ..b }
    }
}

/// Requesting the last row and column always wins, whatever was
/// requested before.
pub open spec fn spec_return_last_rowcol(b: AlignerBuilder) -> AlignerBuilder {
    AlignerBuilder { table_mode: TableMode::LastRowCol, ..b }
}

/// Accumulating a gap-allowance choice into a prefix/suffix flag pair.
pub open spec fn spec_allow_gaps(prefix: bool, suffix: bool, gap: Gap) -> (bool, bool) {
    match gap {
        Gap::Prefix => (true, suffix),
        Gap::Suffix => (prefix, true),
        Gap::All => (true, true),
    }
}

/// Binding a profile stores it and adopts its statistics flag into the
/// configuration, overriding any independently set statistics option.
/// Adopting an active statistics flag clears traceback, the mutually
/// exclusive option, just as requesting statistics directly would.
pub open spec fn spec_profile(b: AlignerBuilder, p: Profile) -> AlignerBuilder {
    AlignerBuilder {
        use_stats: p.use_stats,
        use_trace: !p.use_stats && b.use_trace,
        profile: Some(p),
        ..b
    }
}

impl AlignerBuilder {
    /// Use global (Needleman-Wunsch) alignment mode.
    pub fn global(self) -> (r: Self)
        ensures
            r == (AlignerBuilder { mode: Mode::Global, ..self }),
    {
        AlignerBuilder { mode: Mode::Global, ..self }
    }

    /// Use semi-global alignment mode.
    pub fn semi_global(self) -> (r: Self)
        ensures
            r == (AlignerBuilder { mode: Mode::SemiGlobal, ..self }),
    {
        AlignerBuilder { mode: Mode::SemiGlobal, ..self }
    }

    /// Use local (Smith-Waterman) alignment mode.
    pub fn local(self) -> (r: Self)
        ensures
            r == (AlignerBuilder { mode: Mode::Local, ..self }),
    {
        AlignerBuilder { mode: Mode::Local, ..self }
    }

    /// Set the scoring matrix used for alignment.
    pub fn matrix(self, matrix: Matrix) -> (r: Self)
        ensures
            r == (AlignerBuilder { matrix, ..self }),
    {
        AlignerBuilder { matrix, ..self }
    }

    /// Set the gap-opening penalty. Gap openings are not penalized by
    /// default.
    pub fn gap_open_penalty(self, penalty: u32) -> (r: Self)
        ensures
            r == (AlignerBuilder { gap_open_penalty: penalty, ..self }),
    {
        AlignerBuilder { gap_open_penalty: penalty, ..self }
    }

    /// Set the gap-extension penalty. Gap extensions are not penalized by
    /// default.
    pub fn gap_extend_penalty(self, penalty: u32) -> (r: Self)
        ensures
            r == (AlignerBuilder { gap_extend_penalty: penalty, ..self }),
    {
        AlignerBuilder { gap_extend_penalty: penalty, ..self }
    }

    /// Allow unpenalized gaps on the query in semi-global alignment. The
    /// choices accumulate: allowing the prefix and then the suffix equals
    /// allowing all.
    pub fn allow_query_gaps(self, gap: Gap) -> (r: Self)
        ensures
            ({
                let (prefix, suffix) = spec_allow_gaps(
                    self.query_gap_prefix, self.query_gap_suffix, gap);
                r == (AlignerBuilder {
                    query_gap_prefix: prefix,
                    query_gap_suffix: suffix,
                    ..self
                })
            }),
    {
        match gap {
            Gap::Prefix => AlignerBuilder { query_gap_prefix: true, ..self },
            Gap::Suffix => AlignerBuilder { query_gap_suffix: true, ..self },
            Gap::All => AlignerBuilder { query_gap_prefix: true, query_gap_suffix: true, ..self },
        }
    }

    /// Allow unpenalized gaps on the reference in semi-global alignment,
    /// as `allow_query_gaps` does for the query.
    pub fn allow_ref_gaps(self, gap: Gap) -> (r: Self)
        ensures
            ({
                let (prefix, suffix) = spec_allow_gaps(
                    self.ref_gap_prefix, self.ref_gap_suffix, gap);
                r == (AlignerBuilder {
                    ref_gap_prefix: prefix,
                    ref_gap_suffix: suffix,
                    ..self
                })
            }),
    {
        match gap {
            Gap::Prefix => AlignerBuilder { ref_gap_prefix: true, ..self },
            Gap::Suffix => AlignerBuilder { ref_gap_suffix: true, ..self },
            Gap::All => AlignerBuilder { ref_gap_prefix: true, ref_gap_suffix: true, ..self },
        }
    }

    /// Return alignment statistics. Statistics and traceback are mutually
    /// exclusive: this clears traceback if it was enabled.
    pub fn return_stats(self) -> (r: Self)
        ensures
            r == spec_return_stats(self),
    {
        AlignerBuilder { use_stats: true, use_trace: false, ..self }
    }

    /// Enable traceback-capable alignment. Traceback is mutually
    /// exclusive with statistics and with table requests: this clears
    /// both if they were set.
    pub fn enable_traceback(self) -> (r: Self)
        ensures
            r == spec_enable_traceback(self),
    {
        AlignerBuilder { use_trace: true, use_stats: false, table_mode: TableMode::NoTable, ..self }
    }

    /// Return the full dynamic-programming table — unless the last row
    /// and column were requested before, which always wins.
    pub fn return_table(self) -> (r: Self)
        ensures
            r == spec_return_table(self),
    {
        if matches!(self.table_mode, TableMode::LastRowCol) {
            self
        } else {
            AlignerBuilder { table_mode: TableMode::FullTable, ..self }
        }
    }

    /// Return the last row and column of the dynamic-programming table.
    /// This choice wins over a full-table request in either order.
    pub fn return_last_rowcol(self) -> (r: Self)
        ensures
            r == spec_return_last_rowcol(self),
    {
        AlignerBuilder { table_mode: TableMode::LastRowCol, ..self }
    }

    /// Use the scan vectorization strategy.
    pub fn scan(self) -> (r: Self)
        ensures
            r == (AlignerBuilder { vec_strategy: VecStrategy::Scan, ..self }),
    {
        AlignerBuilder { vec_strategy: VecStrategy::Scan, ..self }
    }

    /// Use the striped vectorization strategy.
    pub fn striped(self) -> (r: Self)
        ensures
            r == (AlignerBuilder { vec_strategy: VecStrategy::Striped, ..self }),
    {
        AlignerBuilder { vec_strategy: VecStrategy::Striped, ..self }
    }

    /// Use the diagonal vectorization strategy.
    pub fn diag(self) -> (r: Self)
        ensures
            r == (AlignerBuilder { vec_strategy: VecStrategy::Diag, ..self }),
    {
        AlignerBuilder { vec_strategy: VecStrategy::Diag, ..self }
    }

    /// Set the solution width: 8, 16, 32 or 64 bits. An unsupported value
    /// is reported at build time, and only if a vectorization strategy
    /// makes the width matter.
    pub fn solution_width(self, width: u8) -> (r: Self)
        ensures
            r == (AlignerBuilder { solution_width: Some(width), ..self }),
    {
        AlignerBuilder { solution_width: Some(width), ..self }
    }

    /// Pin the SIMD instruction set instead of letting the backend
    /// choose. Ignored while no vectorization strategy is set.
    pub fn instruction_set(self, instruction_set: InstructionSet) -> (r: Self)
        ensures
            r == (AlignerBuilder { instruction_set: Some(instruction_set), ..self }),
    {
        AlignerBuilder { instruction_set: Some(instruction_set), ..self }
    }

    /// Bind a query profile. The configuration adopts the profile's own
    /// statistics flag, fixed when the profile was built; an
    /// independently set statistics option no longer matters, and an
    /// adopted statistics flag clears traceback, its mutually exclusive
    /// option.
    pub fn profile(self, profile: Profile) -> (r: Self)
        ensures
            r == spec_profile(self, profile),
    {
        let use_stats = profile.use_stats;
        let use_trace = !use_stats && self.use_trace;
        AlignerBuilder { use_stats, use_trace, profile: Some(profile), ..self }
    }

    /// Encode the accumulated configuration into the canonical backend
    /// entry-point identifier, in the fixed token order. A solution width
    /// the backend has no kernels for is reported here — but only once a
    /// vectorization strategy is set, since unvectorized entry points
    /// carry no width.
    pub fn get_parasail_fn_name(&self) -> (r: Result<String, Error>)
        ensures
            match r {
                Ok(s) => width_ok(*self) && s@ == spec_fn_name(*self),
                Err(e) => {
                    &&& !width_ok(*self)
                    &&& self.solution_width matches Some(w)
                        && e == (Error::InvalidSolutionWidth { solution_width: w })
                },
            },
    {
        let width_str: &'static str = if matches!(self.vec_strategy, VecStrategy::NoVec) {
            ""
        } else {
            match self.solution_width {
                None => "_sat",
                Some(w) => {
                    if w == 8 {
                        "_8"
                    } else if w == 16 {
                        "_16"
                    } else if w == 32 {
                        "_32"
                    } else if w == 64 {
                        "_64"
                    } else {
                        return Err(Error::InvalidSolutionWidth { solution_width: w });
                    }
                },
            }
        };
        let iset_str: &'static str = if matches!(self.vec_strategy, VecStrategy::NoVec) {
            ""
        } else {
            match self.instruction_set {
                None => "",
                Some(InstructionSet::SSE2) => "_sse2_128",
                Some(InstructionSet::SSE41) => "_sse41_128",
                Some(InstructionSet::AVX2) => "_avx2_256",
                Some(InstructionSet::AltiVec) => "_altivec_128",
                Some(InstructionSet::Neon) => "_neon_128",
            }
        };
        let semi = matches!(self.mode, Mode::SemiGlobal);
        let all_gaps = self.query_gap_prefix && self.query_gap_suffix && self.ref_gap_prefix
            && self.ref_gap_suffix;
        let query_gaps_str: &'static str = if semi && !all_gaps {
            if self.query_gap_prefix && self.query_gap_suffix {
                "_qx"
            } else if self.query_gap_prefix {
                "_qb"
            } else if self.query_gap_suffix {
                "_qe"
            } else {
                ""
            }
        } else {
            ""
        };
        let ref_gaps_str: &'static str = if semi && !all_gaps {
            if self.ref_gap_prefix && self.ref_gap_suffix {
                "_dx"
            } else if self.ref_gap_prefix {
                "_db"
            } else if self.ref_gap_suffix {
                "_de"
            } else {
                ""
            }
        } else {
            ""
        };
        let stats_on = match &self.profile {
            Some(p) => p.use_stats,
            None => self.use_stats,
        };
        let mut name = "parasail_".to_owned();
        name.append(match self.mode {
            Mode::Global => "nw",
            Mode::SemiGlobal => "sg",
            Mode::Local => "sw",
        });
        name.append(query_gaps_str);
        name.append(ref_gaps_str);
        name.append(if stats_on { "_stats" } else { "" });
        name.append(match self.table_mode {
            TableMode::NoTable => "",
            TableMode::FullTable => "_table",
            TableMode::LastRowCol => "_rowcol",
        });
        name.append(if self.use_trace { "_trace" } else { "" });
        name.append(match self.vec_strategy {
            VecStrategy::NoVec => "",
            VecStrategy::Scan => "_scan",
            VecStrategy::Striped => "_striped",
            VecStrategy::Diag => "_diag",
        });
        name.append(if self.profile.is_some() { "_profile" } else { "" });
        name.append(iset_str);
        name.append(width_str);
        Ok(name)
    }

    /// Build the aligner: resolve the identifier of the accumulated
    /// configuration and validate it. A bound profile demands the scan or
    /// striped strategy — the only ones the backend compiles profile
    /// entry points for — and that violation is a build-time error, never
    /// a failure of a later alignment call.
    pub fn build(self) -> (r: Result<Aligner, Error>)
        ensures
            match r {
                Ok(a) => {
                    &&& width_ok(self)
                    &&& (self.profile is Some ==> (self.vec_strategy is Scan
                        || self.vec_strategy is Striped))
                    &&& a.fn_name@ == spec_fn_name(self)
                    &&& a.matrix == self.matrix
                    &&& a.profile == self.profile
                    &&& a.gap_open_penalty == self.gap_open_penalty
                    &&& a.gap_extend_penalty == self.gap_extend_penalty
                },
                Err(e) => match e {
                    Error::InvalidSolutionWidth { solution_width } => {
                        &&& !width_ok(self)
                        &&& self.solution_width == Some(solution_width)
                    },
                    Error::IncompatibleProfileConfig { vec_strategy } => {
                        &&& width_ok(self)
                        &&& self.profile is Some
                        &&& !(self.vec_strategy is Scan || self.vec_strategy is Striped)
                        &&& vec_strategy@ == vec_token(self.vec_strategy)
                    },
                    _ => false,
                },
            },
    {
        let fn_name = match self.get_parasail_fn_name() {
            Ok(n) => n,
            Err(e) => return Err(e),
        };
        if self.profile.is_some()
            && !matches!(self.vec_strategy, VecStrategy::Scan | VecStrategy::Striped) {
            let tok: &'static str = match self.vec_strategy {
                VecStrategy::NoVec => "",
                VecStrategy::Scan => "_scan",
                VecStrategy::Striped => "_striped",
                VecStrategy::Diag => "_diag",
            };
            return Err(Error::IncompatibleProfileConfig { vec_strategy: tok.to_owned() });
        }
        Ok(Aligner {
            fn_name,
            matrix: self.matrix,
            profile: self.profile,
            gap_open_penalty: self.gap_open_penalty,
            gap_extend_penalty: self.gap_extend_penalty,
        })
    }
}

impl Default for AlignerBuilder {
    /// An unvectorized global aligner over the DNA identity matrix, with
    /// no gap penalties and no optional data requested.
    fn default() -> (r: Self)
        ensures
            r.mode is Global,
            r.solution_width is None,
            r.matrix.wf(),
            !r.matrix@.builtin,
            r.matrix@.size == 5,
            r.matrix@.length == 5,
            forall|i: int, j: int|
                0 <= i < 5 && 0 <= j < 5
                    ==> #[trigger] r.matrix@.cell(i, j) == crate::matrix::square_cell(
                        4, 1i32, -1i32, i, j),
            r.gap_open_penalty == 0,
            r.gap_extend_penalty == 0,
            r.profile is None,
            !r.query_gap_prefix,
            !r.query_gap_suffix,
            !r.ref_gap_prefix,
            !r.ref_gap_suffix,
            r.vec_strategy is NoVec,
            !r.use_stats,
            r.table_mode is NoTable,
            !r.use_trace,
            r.instruction_set is None,
    {
        AlignerBuilder {
            mode: Mode::Global,
            solution_width: None,
            matrix: Matrix::default(),
            gap_open_penalty: 0,
            gap_extend_penalty: 0,
            profile: None,
            query_gap_prefix: false,
            query_gap_suffix: false,
            ref_gap_prefix: false,
            ref_gap_suffix: false,
            vec_strategy: VecStrategy::NoVec,
            use_stats: false,
            table_mode: TableMode::NoTable,
            use_trace: false,
            instruction_set: None,
        }
    }
}

/// A built pairwise-sequence aligner: the resolved entry-point
/// identifier together with the configuration it was resolved from. The
/// identifier is what the backend's function table is keyed by; the call
/// shape is decided by whether a profile is bound.
#[derive(Debug, Clone)]
pub struct Aligner {
    /// The resolved backend entry-point identifier.
    pub fn_name: String,
    /// The substitution matrix alignments are scored by.
    pub matrix: Matrix,
    /// The bound query profile, if the profile call shape was resolved.
    pub profile: Option<Profile>,
    /// Gap-opening penalty.
    pub gap_open_penalty: u32,
    /// Gap-extension penalty.
    pub gap_extend_penalty: u32,
}

impl Aligner {
    /// Start building an aligner from the default configuration.
    pub fn new() -> (r: AlignerBuilder)
        ensures
            r.mode is Global,
            r.solution_width is None,
            r.matrix.wf(),
            r.gap_open_penalty == 0,
            r.gap_extend_penalty == 0,
            r.profile is None,
            !r.query_gap_prefix,
            !r.query_gap_suffix,
            !r.ref_gap_prefix,
            !r.ref_gap_suffix,
            r.vec_strategy is NoVec,
            !r.use_stats,
            r.table_mode is NoTable,
            !r.use_trace,
            r.instruction_set is None,
    {
        AlignerBuilder::default()
    }

    /// Which call shape the aligner was built for: the profile shape
    /// exactly when a profile is bound. `build` validates the pair, so
    /// the stored identifier and this shape always match.
    pub fn uses_profile_shape(&self) -> (b: bool)
        ensures
            b == (self.profile is Some),
    {
        self.profile.is_some()
    }
}

/// Law: once the last row and column of the table are requested, the
/// resolved table mode is `LastRowCol`, whether the full table was
/// requested before or after.
pub proof fn lemma_last_rowcol_always_wins(b: AlignerBuilder)
    ensures
        spec_return_last_rowcol(spec_return_table(b)).table_mode is LastRowCol,
        spec_return_table(spec_return_last_rowcol(b)).table_mode is LastRowCol,
{
}

/// Law: with a profile bound, the statistics token of the resolved
/// identifier is the profile's own flag, and changing the independently
/// set statistics option does not change the token.
pub proof fn lemma_profile_owns_stats_token(b: AlignerBuilder, p: Profile, flag: bool)
    requires
        b.profile == Some(p),
    ensures
        stats_token(b) == stats_part(p.use_stats),
        stats_token((AlignerBuilder { use_stats: flag, ..b })) == stats_token(b),
{
}

/// Law: in semi-global mode with no gap-allowance flag set, explicitly
/// allowing gaps on prefix and suffix of both sequences resolves to the
/// same identifier: the allow-all form collapses to the default.
pub proof fn lemma_allow_all_gaps_collapses(b: AlignerBuilder)
    requires
        b.mode is SemiGlobal,
        !b.query_gap_prefix,
        !b.query_gap_suffix,
        !b.ref_gap_prefix,
        !b.ref_gap_suffix,
    ensures
        ({
            let all = AlignerBuilder {
                query_gap_prefix: true,
                query_gap_suffix: true,
                ref_gap_prefix: true,
                ref_gap_suffix: true,
                ..b
            };
            spec_fn_name(all) == spec_fn_name(b)
        }),
{
}

/// Law: without a vectorization strategy, the instruction-set and
/// solution-width settings do not change the resolved identifier:
/// unvectorized entry points carry no width specialization.
pub proof fn lemma_strategy_gates_width_and_iset(
    b: AlignerBuilder,
    w: Option<u8>,
    i: Option<InstructionSet>,
)
    requires
        b.vec_strategy is NoVec,
    ensures
        spec_fn_name((AlignerBuilder { solution_width: w, instruction_set: i, ..b }))
            == spec_fn_name(b),
{
}

/// Law: requesting statistics and then enabling traceback leaves
/// traceback active and statistics inactive.
pub proof fn lemma_traceback_clears_stats(b: AlignerBuilder)
    ensures
        spec_enable_traceback(spec_return_stats(b)).use_trace,
        !spec_enable_traceback(spec_return_stats(b)).use_stats,
{
}

/// Law: statistics and traceback are never both active after any setter
/// that touches the pair — requesting either clears the other, and
/// binding a profile that adopts an active statistics flag clears
/// traceback too. No other setter touches either flag, so the exclusion
/// holds of every builder state reachable from the default.
pub proof fn lemma_stats_trace_mutually_exclusive(b: AlignerBuilder, p: Profile)
    ensures
        !(spec_return_stats(b).use_stats && spec_return_stats(b).use_trace),
        !(spec_enable_traceback(b).use_stats && spec_enable_traceback(b).use_trace),
        !(spec_profile(b, p).use_stats && spec_profile(b, p).use_trace),
{
}

} // verus!
