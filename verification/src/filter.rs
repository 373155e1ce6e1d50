//! FieldFilter: decides, from a field's annotations alone, whether the
//! field survives into the slim companion record.

use vstd::prelude::*;
use vstd::string::StringExecFns;
use crate::model::{
    AnnBody, AnnBodyView, AnnItem, AnnItemView, AnnStyle, Annotation, AnnotationView, EngineError,
    FieldDef, FieldView,
};

verus! {

/// The namespace keyword of serialization-control annotations.
pub open spec fn control_namespace() -> Seq<char> {
    "serde"@
}

/// The two exclusion markers: a field carrying either one is excluded
/// from the slim companion.
pub open spec fn is_exclusion_word(w: Seq<char>) -> bool {
    w == "skip_serializing"@ || w == "skip_deserializing"@
}

/// The outcome of scanning a field's annotations.
#[derive(Clone, Copy, Debug, PartialEq, Eq)]
pub enum FieldFate {
    /// No exclusion marker applies: the field survives.
    Kept,
    /// An exclusion marker was met first: the field is dropped.
    Dropped,
    /// A structurally impossible nested shape was met first.
    Invalid,
}

/// Scans the items of one recognized annotation list in order. The first
/// exclusion word drops the field; a nested shape met before one is an
/// invariant violation; literals and other words are inert.
pub open spec fn scan_items(items: Seq<AnnItemView>) -> FieldFate
    decreases items.len(),
{
    if items.len() == 0 {
        FieldFate::Kept
    } else {
        match items[0] {
            AnnItemView::Word(w) => if is_exclusion_word(w) {
                FieldFate::Dropped
            } else {
                scan_items(items.drop_first())
            },
            AnnItemView::Literal(_) => scan_items(items.drop_first()),
            AnnItemView::Nested(_) => FieldFate::Invalid,
        }
    }
}

/// The contribution of a single annotation to the field's fate.
/// Inner-style annotations and annotations outside the control namespace
/// never decide anything.
pub open spec fn scan_annotation(a: AnnotationView) -> FieldFate {
    if a.style is Inner {
        FieldFate::Kept
    } else {
        match a.body {
            AnnBodyView::List { namespace, items } => if namespace == control_namespace() {
                scan_items(items)
            } else {
                FieldFate::Kept
            },
            AnnBodyView::Other(_) => FieldFate::Kept,
        }
    }
}

/// Scans a field's annotations in order; the first decisive one wins.
pub open spec fn scan_annotations(anns: Seq<AnnotationView>) -> FieldFate
    decreases anns.len(),
{
    if anns.len() == 0 {
        FieldFate::Kept
    } else {
        match scan_annotation(anns[0]) {
            FieldFate::Kept => scan_annotations(anns.drop_first()),
            FieldFate::Dropped => FieldFate::Dropped,
            FieldFate::Invalid => FieldFate::Invalid,
        }
    }
}

/// The fate of a field under the filter: a pure function of the field's
/// annotations.
pub open spec fn field_fate(f: FieldView) -> FieldFate {
    scan_annotations(f.anns)
}

/// Scans one annotation as [`scan_annotation`] says.
pub fn annotation_fate(a: &Annotation) -> (r: FieldFate)
    ensures
        r == scan_annotation(a.deep_view()),
{
    match a.style {
        AnnStyle::Inner => return FieldFate::Kept,
        AnnStyle::Outer => {},
    }
    match &a.body {
        AnnBody::Other(_) => FieldFate::Kept,
        AnnBody::List { namespace, items } => {
            let ctrl = String::from_str("serde");
            if !(*namespace == ctrl) {
                return FieldFate::Kept;
            }
            proof {
                assert(scan_annotation(a.deep_view()) == scan_items(items.deep_view()));
            }
            let skip_ser = String::from_str("skip_serializing");
            let skip_de = String::from_str("skip_deserializing");
            let ghost items_v = items.deep_view();
            let n = items.len();
            let mut i: usize = 0;
            proof {
                assert(items_v.skip(0) =~= items_v);
            }
            while i < n
                invariant
                    n == items.len(),
                    i <= n,
                    items_v == items.deep_view(),
                    skip_ser@ == "skip_serializing"@,
                    skip_de@ == "skip_deserializing"@,
                    scan_annotation(a.deep_view()) == scan_items(items_v),
                    scan_items(items_v) == scan_items(items_v.skip(i as int)),
                decreases n - i,
            {
                proof {
                    assert(items_v[i as int] == items@[i as int].deep_view());
                    assert(items_v.skip(i as int)[0] == items_v[i as int]);
                }
                match &items[i] {
                    AnnItem::Word(w) => {
                        if *w == skip_ser || *w == skip_de {
                            return FieldFate::Dropped;
                        }
                    },
                    AnnItem::Literal(_) => {},
                    AnnItem::Nested(_) => {
                        return FieldFate::Invalid;
                    },
                }
                proof {
                    assert(items_v.skip(i as int).drop_first() =~= items_v.skip(i + 1));
                }
                i += 1;
            }
            FieldFate::Kept
        },
    }
}

/// FieldFilter: decides whether `f` survives into the slim companion.
/// Returns `Ok(true)` to keep the field, `Ok(false)` to drop it, and an
/// `InvariantViolation` error on an annotation shape the accepted grammar
/// cannot produce.
pub fn keep_field(f: &FieldDef) -> (r: Result<bool, EngineError>)
    ensures
        r == match field_fate(f.deep_view()) {
            FieldFate::Kept => Ok::<bool, EngineError>(true),
            FieldFate::Dropped => Ok::<bool, EngineError>(false),
            FieldFate::Invalid => Err::<bool, EngineError>(EngineError::InvariantViolation),
        },
{
    let ghost anns_v = f.anns.deep_view();
    let n = f.anns.len();
    let mut i: usize = 0;
    proof {
        assert(anns_v.skip(0) =~= anns_v);
    }
    while i < n
        invariant
            n == f.anns.len(),
            i <= n,
            anns_v == f.anns.deep_view(),
            scan_annotations(anns_v) == scan_annotations(anns_v.skip(i as int)),
        decreases n - i,
    {
        let fate = annotation_fate(&f.anns[i]);
        if let FieldFate::Dropped = fate {
            return Ok(false);
        }
        if let FieldFate::Invalid = fate {
            return Err(EngineError::InvariantViolation);
        }
        proof {
            assert(anns_v.skip(i as int).drop_first() =~= anns_v.skip(i + 1));
        }
        i += 1;
    }
    Ok(true)
}

} // verus!
