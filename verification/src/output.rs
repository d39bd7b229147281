//! The tensors that the engine hands back, by name.

use vstd::prelude::*;
use vstd::string::StringExecFns;

use crate::codec::{decode_tensor, decoded};
use crate::error::PipelineError;
use crate::scan::{first_position, lemma_first_position_is};

verus! {

/// The name under which the engine takes the input tensor.
pub const INPUT_NAME: &'static str = "data";

/// A tensor's bytes under the name the engine gives it.
#[derive(Debug)]
pub struct NamedTensor {
    pub name: String,
    pub data: Vec<u8>,
}

/// Position of the first of `outputs` that is called `name`, or their number
/// where none is.
pub open spec fn first_named(outputs: Seq<NamedTensor>, name: Seq<char>) -> int {
    first_position(outputs, |output: NamedTensor| output.name@ == name)
}

/// Finds the first output that is called `name`.
///
/// Fails with `OutputNotFound` exactly when no output has that name.
pub fn locate_output(outputs: &Vec<NamedTensor>, name: &str) -> (out: Result<usize, PipelineError>)
    ensures
        match out {
            Ok(at) => at < outputs.len() && at == first_named(outputs@, name@),
            Err(e) => first_named(outputs@, name@) == outputs.len() && e == PipelineError::OutputNotFound,
        },
{
    let wanted: String = String::from_str(name);
    let count: usize = outputs.len();
    let mut at: usize = 0;
    while at < count
        invariant
            count == outputs.len(),
            at <= count,
            wanted@ == name@,
            forall|i: int| 0 <= i < at ==> outputs[i].name@ != name@,
        decreases count - at,
    {
        if outputs[at].name == wanted {
            proof {
                lemma_first_position_is(
                    outputs@,
                    |output: NamedTensor| output.name@ == name@,
                    at as int,
                );
            }
            return Ok(at);
        }
        at += 1;
    }
    proof {
        lemma_first_position_is(outputs@, |output: NamedTensor| output.name@ == name@, count as int);
    }
    Err(PipelineError::OutputNotFound)
}

/// The logits that the output called `name` holds, one per class.
///
/// Fails with `OutputNotFound` when no output has that name, and with `Codec`
/// when the first that has it is not a whole number of 4-byte groups.
pub fn output_logits(outputs: &Vec<NamedTensor>, name: &str) -> (out: Result<Vec<u32>, PipelineError>)
    ensures
        match out {
            Ok(logits) => {
                let at = first_named(outputs@, name@);
                0 <= at < outputs.len() && decoded(outputs[at].data@) == Some(logits@)
            },
            Err(e) => {
                let at = first_named(outputs@, name@);
                if at == outputs.len() {
                    e == PipelineError::OutputNotFound
                } else {
                    0 <= at < outputs.len() && decoded(outputs[at].data@).is_none() && e == (
                    PipelineError::Codec { length: outputs[at].data.len() })
                }
            },
        },
{
    match locate_output(outputs, name) {
        Ok(at) => decode_tensor(outputs[at].data.as_slice()),
        Err(e) => Err(e),
    }
}

} // verus!
