//! Query profiles.
//!
//! A [`Profile`] stands for a backend-precomputed encoding of one query
//! sequence, bound at construction time to a statistics flag and to the
//! backend entry point that creates it. The entry point is picked from
//! the cross product of the statistics flag, an optional SIMD
//! instruction-set hint and an optional solution bit-width; an
//! unsupported combination is reported as a lookup failure, never a
//! panic. The profile carries its `use_stats` flag forever: an aligner
//! bound to a profile adopts that flag instead of any independently set
//! statistics option.

use crate::matrix::{find_nul, has_nul, Matrix};
use crate::InstructionSet;
use vstd::prelude::*;
use vstd::string::StringExecFns;

verus! {

/// Errors of profile construction.
#[derive(Debug, Clone, PartialEq)]
pub enum Error {
    /// A solution width outside 8, 16, 32 and 64 bits.
    InvalidSolutionWidth { solution_width: u8 },
    /// The query holds an interior `0` byte, which the backend's C
    /// strings cannot carry.
    InteriorNul { pos: usize },
    /// No profile-construction entry point exists for this combination of
    /// options.
    FunctionLookupFailed {
        use_stats: bool,
        instruction_set: Option<InstructionSet>,
        solution_width: Option<u8>,
    },
    /// The backend returned no profile handle.
    NullProfile { msg: String },
}

/// Whether `w` names a width the backend compiles profile creators for:
/// unset (saturating) or one of 8, 16, 32 and 64 bits.
pub open spec fn valid_solution_width(w: Option<u8>) -> bool {
    match w {
        None => true,
        Some(v) => v == 8 || v == 16 || v == 32 || v == 64,
    }
}

/// Token the statistics flag contributes to an entry-point name.
pub open spec fn stats_part(use_stats: bool) -> Seq<char> {
    if use_stats {
        "_stats"@
    } else {
        ""@
    }
}

/// Token an instruction-set hint contributes to a profile-creator name.
/// The backend has one creator family per vector width, so both SSE
/// generations share the `sse_128` creators.
pub open spec fn creator_iset_part(iset: Option<InstructionSet>) -> Seq<char> {
    match iset {
        None => ""@,
        Some(InstructionSet::SSE2) => "_sse_128"@,
        Some(InstructionSet::SSE41) => "_sse_128"@,
        Some(InstructionSet::AVX2) => "_avx_256"@,
        Some(InstructionSet::AltiVec) => "_altivec_128"@,
        Some(InstructionSet::Neon) => "_neon_128"@,
    }
}

/// Token a solution width contributes to an entry-point name; an unset
/// width selects the saturating creators. Only meaningful for widths
/// `valid_solution_width` accepts.
pub open spec fn width_part(w: Option<u8>) -> Seq<char> {
    match w {
        None => "_sat"@,
        Some(v) => if v == 8 {
            "_8"@
        } else if v == 16 {
            "_16"@
        } else if v == 32 {
            "_32"@
        } else if v == 64 {
            "_64"@
        } else {
            ""@
        },
    }
}

/// The canonical name of the backend profile-construction entry point for
/// this combination of options.
pub open spec fn creator_name(
    use_stats: bool,
    iset: Option<InstructionSet>,
    w: Option<u8>,
) -> Seq<char> {
    "parasail_profile_create"@ + stats_part(use_stats) + creator_iset_part(iset) + width_part(w)
}

/// Resolve the backend profile-construction entry point for the given
/// statistics flag, instruction-set hint and solution width. Every
/// combination with a width of 8, 16, 32 or 64 bits — or none, which
/// selects the saturating creators — exists; any other width has no
/// entry point and is reported as a lookup failure.
pub fn profile_creator_lookup(
    use_stats: bool,
    instruction_set: Option<InstructionSet>,
    solution_width: Option<u8>,
) -> (r: Result<String, Error>)
    ensures
        match r {
            Ok(name) => {
                &&& valid_solution_width(solution_width)
                &&& name@ == creator_name(use_stats, instruction_set, solution_width)
            },
            Err(e) => {
                &&& !valid_solution_width(solution_width)
                &&& e == (Error::FunctionLookupFailed {
                    use_stats,
                    instruction_set,
                    solution_width,
                })
            },
        },
{
    let width_str: &'static str = match solution_width {
        None => "_sat",
        Some(w) => {
            if w == 8 {
                "_8"
            } else if w == 16 {
                "_16"
            } else if w == 32 {
                "_32"
            } else if w == 64 {
                "_64"
            } else {
                return Err(Error::FunctionLookupFailed {
                    use_stats,
                    instruction_set,
                    solution_width,
                });
            }
        },
    };
    let mut name = "parasail_profile_create".to_owned();
    name.append(if use_stats { "_stats" } else { "" });
    name.append(match instruction_set {
        None => "",
        Some(InstructionSet::SSE2) => "_sse_128",
        Some(InstructionSet::SSE41) => "_sse_128",
        Some(InstructionSet::AVX2) => "_avx_256",
        Some(InstructionSet::AltiVec) => "_altivec_128",
        Some(InstructionSet::Neon) => "_neon_128",
    });
    name.append(width_str);
    Ok(name)
}

/// Accumulates the options of one profile before it is built.
#[derive(Debug, Clone)]
pub struct ProfileBuilder {
    /// The query sequence the profile will be bound to.
    pub query: Vec<u8>,
    /// The substitution matrix the profile will be bound to.
    pub matrix: Matrix,
    /// Whether the backend should allocate statistics buffers.
    pub use_stats: bool,
    /// Solution width in bits; unset means saturating.
    pub solution_width: Option<u8>,
    /// Explicit SIMD instruction-set hint; unset lets the backend choose.
    pub instruction_set: Option<InstructionSet>,
}

/// A query profile: the statistics flag fixed at creation and the name of
/// the backend entry point that creates it. The opaque backend handle
/// itself lives outside the verified core and is keyed by this value.
#[derive(Debug, Clone)]
pub struct Profile {
    /// Whether the backend allocates statistics buffers for this profile.
    /// Fixed at creation; an aligner bound to this profile adopts it.
    pub use_stats: bool,
    /// Name of the backend entry point that creates this profile.
    pub creator: String,
}

impl Profile {
    /// Start building a profile for `query` scored by `matrix`.
    pub fn new(query: &[u8], matrix: &Matrix) -> (r: ProfileBuilder)
        ensures
            r.query@ == query@,
            r.use_stats == false,
            r.solution_width is None,
            r.instruction_set is None,
    {
        ProfileBuilder {
            query: vstd::slice::slice_to_vec(query),
            matrix: matrix.clone(),
            use_stats: false,
            solution_width: None,
            instruction_set: None,
        }
    }
}

impl ProfileBuilder {
    /// Prepare the profile for alignment functions that return statistics.
    pub fn use_stats(self) -> (r: Self)
        ensures
            r == (ProfileBuilder { use_stats: true, ..self }),
    {
        ProfileBuilder { use_stats: true, ..self }
    }

    /// Set the solution width: 8, 16, 32 or 64 bits. Left unset, the
    /// saturating creators are used. An unsupported value is reported at
    /// build time.
    pub fn solution_width(self, width: u8) -> (r: Self)
        ensures
            r == (ProfileBuilder { solution_width: Some(width), ..self }),
    {
        ProfileBuilder { solution_width: Some(width), ..self }
    }

    /// Pin the SIMD instruction set instead of letting the backend choose.
    pub fn instruction_set(self, instruction_set: InstructionSet) -> (r: Self)
        ensures
            r == (ProfileBuilder { instruction_set: Some(instruction_set), ..self }),
    {
        ProfileBuilder { instruction_set: Some(instruction_set), ..self }
    }

    /// Build the profile: resolve the backend creator for the accumulated
    /// options, refuse a query the backend's C strings cannot carry, and
    /// bind the statistics flag for good. An unsupported option
    /// combination fails the lookup; a query with an interior `0` byte is
    /// refused after the lookup, as the backend call would be.
    pub fn build(&self) -> (r: Result<Profile, Error>)
        ensures
            match r {
                Ok(p) => {
                    &&& valid_solution_width(self.solution_width)
                    &&& !has_nul(self.query@)
                    &&& p.use_stats == self.use_stats
                    &&& p.creator@ == creator_name(
                        self.use_stats, self.instruction_set, self.solution_width)
                },
                Err(e) => match e {
                    Error::FunctionLookupFailed { use_stats, instruction_set, solution_width } => {
                        &&& !valid_solution_width(self.solution_width)
                        &&& use_stats == self.use_stats
                        &&& instruction_set == self.instruction_set
                        &&& solution_width == self.solution_width
                    },
                    Error::InteriorNul { pos } => {
                        &&& valid_solution_width(self.solution_width)
                        &&& pos < self.query@.len()
                        &&& self.query@[pos as int] == 0
                        &&& forall|q: int| 0 <= q < pos ==> self.query@[q] != 0
                    },
                    _ => false,
                },
            },
    {
        let creator = match profile_creator_lookup(
            self.use_stats,
            self.instruction_set,
            self.solution_width,
        ) {
            Ok(name) => name,
            Err(e) => return Err(e),
        };
        if let Some(pos) = find_nul(self.query.as_slice()) {
            return Err(Error::InteriorNul { pos });
        }
        Ok(Profile { use_stats: self.use_stats, creator })
    }
}

} // verus!
