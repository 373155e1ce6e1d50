//! The engine's general guarantees, stated over the spec model that the
//! executable contracts are written against, and proved once and for all.

use vstd::prelude::*;
use crate::emitter::{
    emit_view, slim_field_view, slim_fields_view, slim_record_view, slim_records_view,
};
use crate::filter::{field_fate, FieldFate};
use crate::mapper::{lemma_lookup_mapping, lookup, mapping_pairs, names_of, slim_name};
use crate::model::{BatchView, EngineError, FieldView, RecordView, TypeView};
use crate::rewriter::rewrite_view;

verus! {

/// The fields of a list that the filter keeps, in their original order.
pub open spec fn kept_fields(fields: Seq<FieldView>) -> Seq<FieldView> {
    fields.filter(|f: FieldView| field_fate(f) is Kept)
}

/// On a successful batch, there is exactly one slim companion per
/// record, in declaration order.
pub proof fn lemma_slims_pointwise(records: Seq<RecordView>, pairs: Seq<(Seq<char>, Seq<char>)>)
    requires
        slim_records_view(records, pairs) is Ok,
    ensures
        slim_records_view(records, pairs)->Ok_0.len() == records.len(),
        forall|i: int|
            0 <= i < records.len() ==> #[trigger] slim_record_view(records[i], pairs) is Ok
                && slim_records_view(records, pairs)->Ok_0[i] == slim_record_view(
                records[i],
                pairs,
            )->Ok_0,
    decreases records.len(),
{
    if records.len() > 0 {
        let rest = records.drop_last();
        lemma_slims_pointwise(rest, pairs);
        let out = slim_records_view(records, pairs)->Ok_0;
        let out_rest = slim_records_view(rest, pairs)->Ok_0;
        assert forall|i: int|
            0 <= i < records.len() implies #[trigger] slim_record_view(records[i], pairs) is Ok
            && out[i] == slim_record_view(records[i], pairs)->Ok_0 by {
            if i < records.len() - 1 {
                assert(rest[i] == records[i]);
                assert(out[i] == out_rest[i]);
            } else {
                assert(records[i] == records.last());
            }
        }
    }
}

/// Law: a successful transform emits, after the originals, exactly one
/// slim record per original record, named prefix + original name.
pub proof fn lemma_one_slim_per_record(b: BatchView)
    requires
        emit_view(b) is Ok,
    ensures
        emit_view(b)->Ok_0.len() == 2 * b.records.len(),
        forall|i: int|
            0 <= i < b.records.len() ==> emit_view(b)->Ok_0[b.records.len() + i].name == slim_name(
                b.prefix,
                (#[trigger] b.records[i]).name,
            ),
{
    let pairs = mapping_pairs(b.prefix, names_of(b.records));
    let slims = slim_records_view(b.records, pairs)->Ok_0;
    lemma_slims_pointwise(b.records, pairs);
    assert forall|i: int|
        0 <= i < b.records.len() implies emit_view(b)->Ok_0[b.records.len() + i].name == slim_name(
        b.prefix,
        (#[trigger] b.records[i]).name,
    ) by {
        assert(emit_view(b)->Ok_0[b.records.len() + i] == slims[i]);
        assert(names_of(b.records)[i] == b.records[i].name);
        assert(names_of(b.records).contains(b.records[i].name));
        lemma_lookup_mapping(b.prefix, names_of(b.records), b.records[i].name);
        assert(lookup(pairs, b.records[i].name) == Some(slim_name(b.prefix, b.records[i].name)));
        assert(slim_record_view(b.records[i], pairs) is Ok);
        assert(slims[i] == slim_record_view(b.records[i], pairs)->Ok_0);
    }
}

/// Law: the original record definitions stand unchanged at the head of
/// the output, in declaration order, whatever filtering and rewriting
/// did to the slim companions.
pub proof fn lemma_originals_unchanged(b: BatchView)
    requires
        emit_view(b) is Ok,
    ensures
        emit_view(b)->Ok_0.len() == 2 * b.records.len(),
        forall|i: int| 0 <= i < b.records.len() ==> #[trigger] emit_view(b)->Ok_0[i]
            == b.records[i],
{
    let pairs = mapping_pairs(b.prefix, names_of(b.records));
    lemma_slims_pointwise(b.records, pairs);
}

/// Law: the slim field list is exactly the kept fields, in their
/// original relative order, each with its name and annotations
/// unchanged and its type put through the rewriter.
pub proof fn lemma_kept_fields_retained(fields: Seq<FieldView>, pairs: Seq<(Seq<char>, Seq<char>)>)
    requires
        slim_fields_view(fields, pairs) is Ok,
    ensures
        slim_fields_view(fields, pairs)->Ok_0.len() == kept_fields(fields).len(),
        forall|i: int|
            0 <= i < kept_fields(fields).len() ==> {
                &&& slim_field_view(#[trigger] kept_fields(fields)[i], pairs) is Ok
                &&& slim_fields_view(fields, pairs)->Ok_0[i] == slim_field_view(
                    kept_fields(fields)[i],
                    pairs,
                )->Ok_0
                &&& slim_fields_view(fields, pairs)->Ok_0[i].name == kept_fields(fields)[i].name
                &&& slim_fields_view(fields, pairs)->Ok_0[i].anns == kept_fields(fields)[i].anns
            },
    decreases fields.len(),
{
    reveal(Seq::filter);
    if fields.len() == 0 {
    } else {
        let rest = fields.drop_last();
        let last = fields.last();
        lemma_kept_fields_retained(rest, pairs);
        let out = slim_fields_view(fields, pairs)->Ok_0;
        let out_rest = slim_fields_view(rest, pairs)->Ok_0;
        match field_fate(last) {
            FieldFate::Invalid => {
                assert(false);
            },
            FieldFate::Dropped => {
                assert(kept_fields(fields) == kept_fields(rest));
                assert(out == out_rest);
                assert forall|i: int|
                    0 <= i < kept_fields(fields).len() implies {
                    &&& slim_field_view(#[trigger] kept_fields(fields)[i], pairs) is Ok
                    &&& out[i] == slim_field_view(kept_fields(fields)[i], pairs)->Ok_0
                    &&& out[i].name == kept_fields(fields)[i].name
                    &&& out[i].anns == kept_fields(fields)[i].anns
                } by {
                    assert(kept_fields(fields)[i] == kept_fields(rest)[i]);
                }
            },
            FieldFate::Kept => {
                assert(kept_fields(fields) == kept_fields(rest).push(last));
                assert(slim_field_view(last, pairs) is Ok);
                assert(out == out_rest.push(slim_field_view(last, pairs)->Ok_0));
                assert forall|i: int|
                    0 <= i < kept_fields(fields).len() implies {
                    &&& slim_field_view(#[trigger] kept_fields(fields)[i], pairs) is Ok
                    &&& out[i] == slim_field_view(kept_fields(fields)[i], pairs)->Ok_0
                    &&& out[i].name == kept_fields(fields)[i].name
                    &&& out[i].anns == kept_fields(fields)[i].anns
                } by {
                    if i < kept_fields(rest).len() {
                        assert(kept_fields(fields)[i] == kept_fields(rest)[i]);
                        assert(out[i] == out_rest[i]);
                    } else {
                        assert(kept_fields(fields)[i] == last);
                        assert(out[i] == slim_field_view(last, pairs)->Ok_0);
                    }
                }
            },
        }
    }
}

/// Law: a field carrying an exclusion marker is absent from the slim
/// field list: every emitted slim field is one the filter keeps, and no
/// dropped field value occurs among them.
pub proof fn lemma_excluded_fields_absent(
    fields: Seq<FieldView>,
    pairs: Seq<(Seq<char>, Seq<char>)>,
)
    requires
        slim_fields_view(fields, pairs) is Ok,
    ensures
        forall|i: int|
            0 <= i < slim_fields_view(fields, pairs)->Ok_0.len() ==> field_fate(
                #[trigger] slim_fields_view(fields, pairs)->Ok_0[i],
            ) is Kept,
        forall|f: FieldView| field_fate(f) is Dropped ==> !slim_fields_view(
            fields,
            pairs,
        )->Ok_0.contains(f),
{
    broadcast use vstd::seq_lib::group_filter_ensures;

    lemma_kept_fields_retained(fields, pairs);
    let out = slim_fields_view(fields, pairs)->Ok_0;
    assert forall|i: int| 0 <= i < out.len() implies field_fate(#[trigger] out[i]) is Kept by {
        assert(field_fate(kept_fields(fields)[i]) is Kept);
        assert(out[i].anns == kept_fields(fields)[i].anns);
    }
    assert forall|f: FieldView| field_fate(f) is Dropped implies !out.contains(f) by {
        if out.contains(f) {
            let i = choose|i: int| 0 <= i < out.len() && out[i] == f;
            assert(field_fate(out[i]) is Kept);
        }
    }
}

/// Law: a field type that names another record of the same batch is
/// rewritten to that record's slim name; a bare type naming no record of
/// the batch passes through unchanged.
pub proof fn lemma_type_rewrite(prefix: Seq<char>, records: Seq<RecordView>, n: Seq<char>)
    ensures
        names_of(records).contains(n) ==> rewrite_view(
            TypeView::Name(n),
            mapping_pairs(prefix, names_of(records)),
        ) == Ok::<TypeView, EngineError>(TypeView::Name(slim_name(prefix, n))),
        !names_of(records).contains(n) ==> rewrite_view(
            TypeView::Name(n),
            mapping_pairs(prefix, names_of(records)),
        ) == Ok::<TypeView, EngineError>(TypeView::Name(n)),
{
    lemma_lookup_mapping(prefix, names_of(records), n);
}

/// Every field of an already filtered list is one the filter keeps.
proof fn lemma_kept_fields_all_kept(s: Seq<FieldView>)
    requires
        forall|i: int| 0 <= i < s.len() ==> field_fate(#[trigger] s[i]) is Kept,
    ensures
        kept_fields(s) == s,
    decreases s.len(),
{
    reveal(Seq::filter);
    if s.len() > 0 {
        assert forall|i: int| 0 <= i < s.drop_last().len() implies field_fate(
            #[trigger] s.drop_last()[i],
        ) is Kept by {
            assert(s.drop_last()[i] == s[i]);
        }
        lemma_kept_fields_all_kept(s.drop_last());
        assert(field_fate(s.last()) is Kept);
        assert(kept_fields(s) =~= s);
    }
}

/// Law: the filter's keep/drop decision is idempotent: filtering an
/// already filtered field list changes nothing.
pub proof fn lemma_filter_idempotent(fields: Seq<FieldView>)
    ensures
        kept_fields(kept_fields(fields)) == kept_fields(fields),
{
    broadcast use vstd::seq_lib::group_filter_ensures;

    assert forall|i: int| 0 <= i < kept_fields(fields).len() implies field_fate(
        #[trigger] kept_fields(fields)[i],
    ) is Kept by {
        Seq::lemma_filter_pred(fields, |f: FieldView| field_fate(f) is Kept, i);
    }
    lemma_kept_fields_all_kept(kept_fields(fields));
}

} // verus!
