//! Emitter: assembles the output of a batch. Every original record is
//! emitted unchanged, in declaration order, followed by exactly one slim
//! companion per record, in the same order. The companion keeps the
//! declared shape, keeps only the fields the filter retains, rewrites
//! each surviving field's type, and carries the mapped slim name.

use vstd::prelude::*;
use crate::filter::{field_fate, keep_field, FieldFate};
use crate::mapper::{lookup, mapping_pairs, names_of, NameMapping};
use crate::model::{Batch, BatchView, EngineError, FieldDef, FieldView, RecordDef, RecordView};
use crate::rewriter::{rewrite_type, rewrite_view};

verus! {

/// A surviving field after rewriting: same name and annotations, the
/// declared type rewritten under the mapping.
pub open spec fn slim_field_view(f: FieldView, pairs: Seq<(Seq<char>, Seq<char>)>) -> Result<
    FieldView,
    EngineError,
> {
    match rewrite_view(f.ty, pairs) {
        Ok(t) => Ok(FieldView { name: f.name, ty: t, anns: f.anns }),
        Err(e) => Err(e),
    }
}

/// The slim field list of a record: the kept fields only, in their
/// original relative order, each type rewritten. The first failure in
/// field order wins.
pub open spec fn slim_fields_view(
    fields: Seq<FieldView>,
    pairs: Seq<(Seq<char>, Seq<char>)>,
) -> Result<Seq<FieldView>, EngineError>
    decreases fields.len(),
{
    if fields.len() == 0 {
        Ok(Seq::empty())
    } else {
        match slim_fields_view(fields.drop_last(), pairs) {
            Err(e) => Err(e),
            Ok(rest) => match field_fate(fields.last()) {
                FieldFate::Invalid => Err(EngineError::InvariantViolation),
                FieldFate::Dropped => Ok(rest),
                FieldFate::Kept => match slim_field_view(fields.last(), pairs) {
                    Ok(sf) => Ok(rest.push(sf)),
                    Err(e) => Err(e),
                },
            },
        }
    }
}

/// The slim companion of one record: the mapped name (the record's own
/// name where the mapping does not know it), the same declared shape,
/// and the slim field list.
pub open spec fn slim_record_view(r: RecordView, pairs: Seq<(Seq<char>, Seq<char>)>) -> Result<
    RecordView,
    EngineError,
> {
    match slim_fields_view(r.fields, pairs) {
        Err(e) => Err(e),
        Ok(fs) => Ok(
            RecordView {
                name: match lookup(pairs, r.name) {
                    Some(s) => s,
                    None => r.name,
                },
                shape: r.shape,
                fields: fs,
            },
        ),
    }
}

/// The slim companions of all records, in declaration order; the first
/// failure in declaration order wins.
pub open spec fn slim_records_view(
    records: Seq<RecordView>,
    pairs: Seq<(Seq<char>, Seq<char>)>,
) -> Result<Seq<RecordView>, EngineError>
    decreases records.len(),
{
    if records.len() == 0 {
        Ok(Seq::empty())
    } else {
        match slim_records_view(records.drop_last(), pairs) {
            Err(e) => Err(e),
            Ok(rest) => match slim_record_view(records.last(), pairs) {
                Ok(s) => Ok(rest.push(s)),
                Err(e) => Err(e),
            },
        }
    }
}

/// The emitted output of a batch: every original unchanged, then every
/// slim companion, both in declaration order, under the mapping the
/// batch gives rise to; or the first failure, and then no output at all.
pub open spec fn emit_view(b: BatchView) -> Result<Seq<RecordView>, EngineError> {
    match slim_records_view(b.records, mapping_pairs(b.prefix, names_of(b.records))) {
        Err(e) => Err(e),
        Ok(slims) => Ok(b.records + slims),
    }
}

/// If a prefix of the fields already fails, the whole field list fails
/// with the same error.
pub proof fn lemma_fields_error_prefix(
    fields: Seq<FieldView>,
    pairs: Seq<(Seq<char>, Seq<char>)>,
    j: int,
)
    requires
        0 <= j <= fields.len(),
        slim_fields_view(fields.take(j), pairs) is Err,
    ensures
        slim_fields_view(fields, pairs) == slim_fields_view(fields.take(j), pairs),
    decreases fields.len(),
{
    if j == fields.len() {
        assert(fields.take(j) =~= fields);
    } else {
        assert(fields.drop_last().take(j) =~= fields.take(j));
        lemma_fields_error_prefix(fields.drop_last(), pairs, j);
    }
}

/// If a prefix of the records already fails, the whole batch fails with
/// the same error.
pub proof fn lemma_records_error_prefix(
    records: Seq<RecordView>,
    pairs: Seq<(Seq<char>, Seq<char>)>,
    j: int,
)
    requires
        0 <= j <= records.len(),
        slim_records_view(records.take(j), pairs) is Err,
    ensures
        slim_records_view(records, pairs) == slim_records_view(records.take(j), pairs),
    decreases records.len(),
{
    if j == records.len() {
        assert(records.take(j) =~= records);
    } else {
        assert(records.drop_last().take(j) =~= records.take(j));
        lemma_records_error_prefix(records.drop_last(), pairs, j);
    }
}

/// One surviving field, its type rewritten under the mapping.
pub fn slim_field(f: &FieldDef, mapping: &NameMapping) -> (r: Result<FieldDef, EngineError>)
    ensures
        match slim_field_view(f.deep_view(), mapping@) {
            Ok(sf) => r matches Ok(x) && x.deep_view() == sf,
            Err(e) => r matches Err(x) && x == e,
        },
{
    let t = match rewrite_type(&f.ty, mapping) {
        Ok(t) => t,
        Err(e) => {
            return Err(e);
        },
    };
    let mut sf = f.clone();
    sf.ty = t;
    Ok(sf)
}

/// The filter and the rewriter run together, once per field: an excluded
/// field is dropped, a kept field has its type rewritten, and an invalid
/// annotation shape aborts.
pub fn process_field(f: &FieldDef, mapping: &NameMapping) -> (r: Result<
    Option<FieldDef>,
    EngineError,
>)
    ensures
        match field_fate(f.deep_view()) {
            FieldFate::Dropped => r == Ok::<Option<FieldDef>, EngineError>(None),
            FieldFate::Invalid => r == Err::<Option<FieldDef>, EngineError>(
                EngineError::InvariantViolation,
            ),
            FieldFate::Kept => match slim_field_view(f.deep_view(), mapping@) {
                Ok(sf) => r matches Ok(x) && x matches Some(d) && d.deep_view() == sf,
                Err(e) => r matches Err(x) && x == e,
            },
        },
{
    match keep_field(f) {
        Err(e) => Err(e),
        Ok(false) => Ok(None),
        Ok(true) => match slim_field(f, mapping) {
            Ok(d) => Ok(Some(d)),
            Err(e) => Err(e),
        },
    }
}

/// The slim companion of one record under the mapping.
pub fn slim_record(r: &RecordDef, mapping: &NameMapping) -> (res: Result<RecordDef, EngineError>)
    ensures
        match slim_record_view(r.deep_view(), mapping@) {
            Ok(s) => res matches Ok(x) && x.deep_view() == s,
            Err(e) => res matches Err(x) && x == e,
        },
{
    let ghost fv = r.fields.deep_view();
    let ghost pairs = mapping@;
    let mut out_fields: Vec<FieldDef> = Vec::new();
    let n = r.fields.len();
    let mut i: usize = 0;
    proof {
        assert(fv.take(0) =~= Seq::<FieldView>::empty());
        assert(out_fields.deep_view() =~= Seq::<FieldView>::empty());
    }
    while i < n
        invariant
            n == r.fields.len(),
            i <= n,
            fv == r.fields.deep_view(),
            pairs == mapping@,
            slim_fields_view(fv.take(i as int), pairs) == Ok::<Seq<FieldView>, EngineError>(
                out_fields.deep_view(),
            ),
        decreases n - i,
    {
        proof {
            assert(fv.take(i + 1).drop_last() =~= fv.take(i as int));
            assert(fv[i as int] == r.fields@[i as int].deep_view());
            assert(fv.take(i + 1).last() == fv[i as int]);
        }
        match process_field(&r.fields[i], mapping) {
            Err(e) => {
                proof {
                    lemma_fields_error_prefix(fv, pairs, i + 1);
                }
                return Err(e);
            },
            Ok(None) => {},
            Ok(Some(sf)) => {
                let ghost old_dv = out_fields.deep_view();
                out_fields.push(sf);
                proof {
                    assert(out_fields.deep_view() =~= old_dv.push(sf.deep_view()));
                }
            },
        }
        i += 1;
    }
    proof {
        assert(fv.take(n as int) =~= fv);
    }
    let name = match mapping.slim_of(&r.name) {
        Some(s) => s,
        None => r.name.clone(),
    };
    Ok(RecordDef { name, shape: r.shape, fields: out_fields })
}

/// Emitter: consumes the batch and produces the originals unchanged,
/// then the slim companions, both in declaration order; or the first
/// failure, and then nothing.
pub fn emit(batch: Batch) -> (r: Result<Vec<RecordDef>, EngineError>)
    ensures
        match emit_view(batch.deep_view()) {
            Ok(out) => r matches Ok(v) && v.deep_view() == out,
            Err(e) => r matches Err(x) && x == e,
        },
{
    let mapping = NameMapping::build(&batch);
    let ghost pairs = mapping@;
    let ghost rv = batch.records.deep_view();
    let mut slims: Vec<RecordDef> = Vec::new();
    let n = batch.records.len();
    let mut i: usize = 0;
    proof {
        assert(rv.take(0) =~= Seq::<RecordView>::empty());
        assert(slims.deep_view() =~= Seq::<RecordView>::empty());
    }
    while i < n
        invariant
            n == batch.records.len(),
            i <= n,
            rv == batch.records.deep_view(),
            pairs == mapping@,
            pairs == mapping_pairs(batch.prefix@, names_of(rv)),
            slim_records_view(rv.take(i as int), pairs) == Ok::<Seq<RecordView>, EngineError>(
                slims.deep_view(),
            ),
        decreases n - i,
    {
        proof {
            assert(rv.take(i + 1).drop_last() =~= rv.take(i as int));
            assert(rv[i as int] == batch.records@[i as int].deep_view());
            assert(rv.take(i + 1).last() == rv[i as int]);
        }
        match slim_record(&batch.records[i], &mapping) {
            Err(e) => {
                proof {
                    lemma_records_error_prefix(rv, pairs, i + 1);
                }
                return Err(e);
            },
            Ok(s) => {
                let ghost old_dv = slims.deep_view();
                slims.push(s);
                proof {
                    assert(slims.deep_view() =~= old_dv.push(s.deep_view()));
                }
            },
        }
        i += 1;
    }
    proof {
        assert(rv.take(n as int) =~= rv);
    }
    let ghost slims_dv = slims.deep_view();
    let mut out = batch.records;
    out.append(&mut slims);
    proof {
        assert(out.deep_view() =~= rv + slims_dv);
    }
    Ok(out)
}

} // verus!
