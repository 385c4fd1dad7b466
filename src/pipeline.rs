//! The outcome of graphics-pipeline creation.
use vstd::prelude::*;

use crate::error::SetupError;

verus! {

/// Exactly one pipeline must come out of pipeline creation; returns its raw
/// handle, or a pipeline creation error for any other count.
pub fn single_pipeline(created: &Vec<u64>) -> (r: Result<u64, SetupError>)
    ensures
        r is Ok <==> created@.len() == 1,
        r matches Ok(p) ==> p == created@[0],
        r matches Err(e) ==> e is PipelineCreation,
{
    if created.len() == 1 {
        Ok(created[0])
    } else {
        Err(SetupError::PipelineCreation)
    }
}

} // verus!
