//! Alignment results with capability-gated accessors.
//!
//! An [`Alignment`] wraps the plain values one alignment invocation
//! produced. The score and the end positions are always present; every
//! other accessor first consults the capability the producing
//! configuration actually requested — statistics, table, last row and
//! column, traceback — and refuses with a typed error when the result
//! was produced without it, never returning a garbage read. A result
//! records which code path produced it; here that record is the presence
//! of the optional payloads themselves, filled in by whoever ran the
//! invocation.

use crate::aligner::{Error, Mode};
use vstd::prelude::*;

verus! {

/// The statistics a statistics-enabled invocation attaches to a result.
#[derive(Debug, Clone, Copy, PartialEq, Eq, Structural)]
pub struct AlignStats {
    /// Number of exactly matching positions.
    pub matches: i32,
    /// Number of similar (positively scoring) positions.
    pub similar: i32,
    /// Length of the alignment.
    pub length: i32,
}

/// The last row and last column of the dynamic-programming score table.
#[derive(Debug, Clone)]
pub struct RowCol {
    /// The last row of the score table.
    pub score_row: Vec<i32>,
    /// The last column of the score table.
    pub score_col: Vec<i32>,
}

/// Result of one alignment invocation.
#[derive(Debug, Clone)]
pub struct Alignment {
    /// The alignment score.
    pub score: i32,
    /// Zero-indexed end position of the match on the query.
    pub end_query: i32,
    /// Zero-indexed end position of the match on the reference.
    pub end_ref: i32,
    /// The mode the producing entry point aligned in.
    pub mode: Mode,
    /// Whether a saturating-width kernel overflowed 8 bits and escalated.
    pub saturated: bool,
    /// Whether a banded kernel produced the result.
    pub banded: bool,
    /// Whether a scan-vectorized kernel produced the result.
    pub scan: bool,
    /// Whether a striped-vectorized kernel produced the result.
    pub striped: bool,
    /// Whether a diagonal-vectorized kernel produced the result.
    pub diag: bool,
    /// Whether a blocked kernel produced the result.
    pub blocked: bool,
    /// Statistics, present exactly when the invocation was
    /// statistics-enabled.
    pub stats: Option<AlignStats>,
    /// The full score table, row by row, present exactly when the
    /// invocation returned the table.
    pub score_table: Option<Vec<i32>>,
    /// The last row and column of the score table, present exactly when
    /// the invocation returned them.
    pub rowcol: Option<RowCol>,
    /// Whether the invocation was traceback-enabled.
    pub trace: bool,
}

impl Alignment {
    /// Wrap the always-present fields of a result: score, end positions
    /// and mode. Every capability starts absent; the `with_` methods
    /// attach what the invocation actually produced.
    pub fn new(score: i32, end_query: i32, end_ref: i32, mode: Mode) -> (r: Alignment)
        ensures
            r.score == score,
            r.end_query == end_query,
            r.end_ref == end_ref,
            r.mode == mode,
            !r.saturated && !r.banded && !r.scan && !r.striped && !r.diag && !r.blocked,
            r.stats is None,
            r.score_table is None,
            r.rowcol is None,
            !r.trace,
    {
        Alignment {
            score,
            end_query,
            end_ref,
            mode,
            saturated: false,
            banded: false,
            scan: false,
            striped: false,
            diag: false,
            blocked: false,
            stats: None,
            score_table: None,
            rowcol: None,
            trace: false,
        }
    }

    /// Record which kind of kernel produced the result.
    pub fn with_flags(
        self,
        saturated: bool,
        banded: bool,
        scan: bool,
        striped: bool,
        diag: bool,
        blocked: bool,
    ) -> (r: Self)
        ensures
            r == (Alignment { saturated, banded, scan, striped, diag, blocked, ..self }),
    {
        Alignment { saturated, banded, scan, striped, diag, blocked, ..self }
    }

    /// Attach the statistics of a statistics-enabled invocation.
    pub fn with_stats(self, matches: i32, similar: i32, length: i32) -> (r: Self)
        ensures
            r == (Alignment { stats: Some(AlignStats { matches, similar, length }), ..self }),
    {
        Alignment { stats: Some(AlignStats { matches, similar, length }), ..self }
    }

    /// Attach the full score table of a table-enabled invocation.
    pub fn with_score_table(self, score_table: Vec<i32>) -> (r: Self)
        ensures
            r == (Alignment { score_table: Some(score_table), ..self }),
    {
        Alignment { score_table: Some(score_table), ..self }
    }

    /// Attach the last row and column of a row/column-enabled invocation.
    pub fn with_rowcol(self, score_row: Vec<i32>, score_col: Vec<i32>) -> (r: Self)
        ensures
            r == (Alignment { rowcol: Some(RowCol { score_row, score_col }), ..self }),
    {
        Alignment { rowcol: Some(RowCol { score_row, score_col }), ..self }
    }

    /// Mark the result as produced by a traceback-enabled invocation.
    pub fn with_trace(self) -> (r: Self)
        ensures
            r == (Alignment { trace: true, ..self }),
    {
        Alignment { trace: true, ..self }
    }

    /// The alignment score. Always available.
    pub fn get_score(&self) -> (s: i32)
        ensures
            s == self.score,
    {
        self.score
    }

    /// Zero-indexed end position of the match on the query. Always
    /// available.
    pub fn get_end_query(&self) -> (p: i32)
        ensures
            p == self.end_query,
    {
        self.end_query
    }

    /// Zero-indexed end position of the match on the reference. Always
    /// available.
    pub fn get_end_ref(&self) -> (p: i32)
        ensures
            p == self.end_ref,
    {
        self.end_ref
    }

    /// Number of matching positions. Refused when the result was
    /// produced without statistics.
    pub fn get_matches(&self) -> (r: Result<i32, Error>)
        ensures
            match r {
                Ok(v) => self.stats matches Some(s) && v == s.matches,
                Err(e) => self.stats is None && e == Error::NoStatsReturned,
            },
    {
        match &self.stats {
            Some(s) => Ok(s.matches),
            None => Err(Error::NoStatsReturned),
        }
    }

    /// Number of similar positions. Refused when the result was produced
    /// without statistics.
    pub fn get_similar(&self) -> (r: Result<i32, Error>)
        ensures
            match r {
                Ok(v) => self.stats matches Some(s) && v == s.similar,
                Err(e) => self.stats is None && e == Error::NoStatsReturned,
            },
    {
        match &self.stats {
            Some(s) => Ok(s.similar),
            None => Err(Error::NoStatsReturned),
        }
    }

    /// Length of the alignment. Refused when the result was produced
    /// without statistics.
    pub fn get_length(&self) -> (r: Result<i32, Error>)
        ensures
            match r {
                Ok(v) => self.stats matches Some(s) && v == s.length,
                Err(e) => self.stats is None && e == Error::NoStatsReturned,
            },
    {
        match &self.stats {
            Some(s) => Ok(s.length),
            None => Err(Error::NoStatsReturned),
        }
    }

    /// The full score table. Refused when the result was produced
    /// without a table.
    pub fn get_score_table(&self) -> (r: Result<&Vec<i32>, Error>)
        ensures
            match r {
                Ok(t) => self.score_table matches Some(table) && table == *t,
                Err(e) => self.score_table is None && e == Error::NoTableReturned,
            },
    {
        match &self.score_table {
            Some(t) => Ok(t),
            None => Err(Error::NoTableReturned),
        }
    }

    /// The last row of the score table. Refused when the result was
    /// produced without the last row and column.
    pub fn get_score_row(&self) -> (r: Result<&Vec<i32>, Error>)
        ensures
            match r {
                Ok(row) => self.rowcol matches Some(rc) && rc.score_row == *row,
                Err(e) => self.rowcol is None && e == Error::NoRowColReturned,
            },
    {
        match &self.rowcol {
            Some(rc) => Ok(&rc.score_row),
            None => Err(Error::NoRowColReturned),
        }
    }

    /// The last column of the score table. Refused when the result was
    /// produced without the last row and column.
    pub fn get_score_col(&self) -> (r: Result<&Vec<i32>, Error>)
        ensures
            match r {
                Ok(col) => self.rowcol matches Some(rc) && rc.score_col == *col,
                Err(e) => self.rowcol is None && e == Error::NoRowColReturned,
            },
    {
        match &self.rowcol {
            Some(rc) => Ok(&rc.score_col),
            None => Err(Error::NoRowColReturned),
        }
    }

    /// Whether the alignment mode was global.
    pub fn is_global(&self) -> (b: bool)
        ensures
            b == (self.mode is Global),
    {
        matches!(self.mode, Mode::Global)
    }

    /// Whether the alignment mode was semi-global.
    pub fn is_semi_global(&self) -> (b: bool)
        ensures
            b == (self.mode is SemiGlobal),
    {
        matches!(self.mode, Mode::SemiGlobal)
    }

    /// Whether the alignment mode was local.
    pub fn is_local(&self) -> (b: bool)
        ensures
            b == (self.mode is Local),
    {
        matches!(self.mode, Mode::Local)
    }

    /// Whether a saturating-width kernel escalated past 8 bits.
    pub fn is_saturated(&self) -> (b: bool)
        ensures
            b == self.saturated,
    {
        self.saturated
    }

    /// Whether a banded kernel produced the result.
    pub fn is_banded(&self) -> (b: bool)
        ensures
            b == self.banded,
    {
        self.banded
    }

    /// Whether a scan-vectorized kernel produced the result.
    pub fn is_scan(&self) -> (b: bool)
        ensures
            b == self.scan,
    {
        self.scan
    }

    /// Whether a striped-vectorized kernel produced the result.
    pub fn is_striped(&self) -> (b: bool)
        ensures
            b == self.striped,
    {
        self.striped
    }

    /// Whether a diagonal-vectorized kernel produced the result.
    pub fn is_diag(&self) -> (b: bool)
        ensures
            b == self.diag,
    {
        self.diag
    }

    /// Whether a blocked kernel produced the result.
    pub fn is_blocked(&self) -> (b: bool)
        ensures
            b == self.blocked,
    {
        self.blocked
    }

    /// Whether the result carries statistics.
    pub fn is_stats(&self) -> (b: bool)
        ensures
            b == (self.stats is Some),
    {
        self.stats.is_some()
    }

    /// Whether the result carries both statistics and the full table.
    pub fn is_stats_table(&self) -> (b: bool)
        ensures
            b == (self.stats is Some && self.score_table is Some),
    {
        self.stats.is_some() && self.score_table.is_some()
    }

    /// Whether the result carries the full table.
    pub fn is_table(&self) -> (b: bool)
        ensures
            b == (self.score_table is Some),
    {
        self.score_table.is_some()
    }

    /// Whether the result carries the last row and column of the table.
    pub fn is_rowcol(&self) -> (b: bool)
        ensures
            b == (self.rowcol is Some),
    {
        self.rowcol.is_some()
    }

    /// Whether the result carries both statistics and the last row and
    /// column.
    pub fn is_stats_rowcol(&self) -> (b: bool)
        ensures
            b == (self.stats is Some && self.rowcol is Some),
    {
        self.stats.is_some() && self.rowcol.is_some()
    }

    /// Whether the result was produced traceback-enabled.
    pub fn is_trace(&self) -> (b: bool)
        ensures
            b == self.trace,
    {
        self.trace
    }
}

/// Law: a capability-gated accessor answers exactly when its capability
/// predicate holds. A result produced without statistics — a
/// traceback-enabled result among them — refuses the match count with
/// the statistics-required error.
pub proof fn lemma_accessors_gated_on_capabilities(a: Alignment)
    ensures
        (a.stats is None) ==> (forall|v: i32| !call_ensures(Alignment::get_matches, (&a,), Ok(v))),
        (a.stats is Some) ==> (forall|e: Error| !call_ensures(Alignment::get_matches, (&a,), Err(e))),
{
}

} // verus!
