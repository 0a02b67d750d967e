//! The staleness decision for one pipeline stage.
//!
//! A stage transforms a set of input files into one output file. The stage
//! may be skipped ("is cached") exactly when the output already exists and
//! its modification time is strictly newer than the modification time of
//! every input. Querying the file system is the caller's business; this
//! module takes the modification times as plain values (`None` meaning the
//! file does not exist) and makes the decision.

use vstd::prelude::*;

verus! {

/// Whether every input has a modification time (exists).
pub open spec fn all_inputs_present(inputs: Seq<Option<u64>>) -> bool {
    forall|j: int| 0 <= j < inputs.len() ==> inputs[j] is Some
}

/// Whether the output at time `out` is strictly newer than every input.
pub open spec fn output_fresh(out: u64, inputs: Seq<Option<u64>>) -> bool {
    forall|j: int| 0 <= j < inputs.len() ==> inputs[j]->0 < out
}

/// Decides whether a stage's output is up to date and the stage can be
/// skipped.
///
/// `output_mtime` is the output file's modification time, `None` if the
/// output does not exist; `input_mtimes` likewise for each input, in the
/// stage's declared input order.
///
/// A missing output simply means "not cached", never an error, whatever
/// the inputs look like. A missing input, with the output present, is a
/// configuration error reported as `Err` carrying the index of the first
/// input without a modification time. Otherwise the stage is cached
/// exactly when the output is strictly newer than every input; an input
/// at the same instant as the output forces a rebuild.
pub fn is_cached(output_mtime: Option<u64>, input_mtimes: &Vec<Option<u64>>) -> (r: Result<
    bool,
    usize,
>)
    ensures
        output_mtime is None ==> r == Ok::<bool, usize>(false),
        r is Ok && output_mtime is Some ==> all_inputs_present(input_mtimes@),
        output_mtime is Some && all_inputs_present(input_mtimes@) ==> r == Ok::<bool, usize>(
            output_fresh(output_mtime->0, input_mtimes@),
        ),
        r matches Err(i) ==> output_mtime is Some && i < input_mtimes@.len()
            && input_mtimes@[i as int] is None && (forall|j: int|
            0 <= j < i ==> input_mtimes@[j] is Some),
{
    let out: u64 = match output_mtime {
        None => {
            return Ok(false);
        },
        Some(t) => t,
    };
    let mut cached = true;
    let mut i: usize = 0;
    while i < input_mtimes.len()
        invariant
            i <= input_mtimes@.len(),
            forall|j: int| 0 <= j < i ==> input_mtimes@[j] is Some,
            cached <==> (forall|j: int| 0 <= j < i ==> input_mtimes@[j]->0 < out),
            output_mtime == Some(out),
        decreases input_mtimes@.len() - i,
    {
        match input_mtimes[i] {
            None => {
                return Err(i);
            },
            Some(t) => {
                if t >= out {
                    cached = false;
                }
            },
        }
        i += 1;
    }
    Ok(cached)
}

} // verus!
