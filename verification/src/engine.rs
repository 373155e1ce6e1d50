//! The transformation engine: one invocation collects a batch from the
//! raw structured input, derives the name mapping, and emits the
//! originals followed by their slim companions — or fails with the first
//! diagnostic and emits nothing.

use vstd::prelude::*;
use crate::collector::{collect, collect_view};
use crate::emitter::{emit, emit_view};
use crate::model::{EngineError, RawItem, RawItemView, RecordDef, RecordView};

verus! {

/// The whole transform of one raw input: collect the batch, then emit.
pub open spec fn transform_view(input: Seq<RawItemView>) -> Result<Seq<RecordView>, EngineError> {
    match collect_view(input) {
        Err(e) => Err(e),
        Ok(b) => emit_view(b),
    }
}

/// Runs the engine on one raw input: on success the output holds every
/// original record unchanged, in declaration order, followed by exactly
/// one slim companion per record, in the same order; on failure nothing
/// is produced and the first diagnostic is reported.
pub fn transform(input: Vec<RawItem>) -> (r: Result<Vec<RecordDef>, EngineError>)
    ensures
        match transform_view(input.deep_view()) {
            Ok(out) => r matches Ok(v) && v.deep_view() == out,
            Err(e) => r matches Err(x) && x == e,
        },
{
    let batch = match collect(input) {
        Ok(b) => b,
        Err(e) => {
            return Err(e);
        },
    };
    emit(batch)
}

} // verus!
