//! Collector: turns the raw structured input into an ordered batch — the
//! naming prefix plus the record definitions in declaration order — or
//! fails with a syntax error.

use vstd::prelude::*;
use crate::model::{Batch, BatchView, EngineError, RawItem, RawItemView, RecordDef};

verus! {

/// A well-formed raw input: a bare name (the prefix), the separator,
/// then nothing but record definitions — no trailing garbage.
pub open spec fn wf_input(input: Seq<RawItemView>) -> bool {
    &&& input.len() >= 2
    &&& input[0] is Name
    &&& input[1] is Sep
    &&& forall|i: int| 2 <= i < input.len() ==> input[i] is Def
}

/// The batch a well-formed raw input collects to.
pub open spec fn collected(input: Seq<RawItemView>) -> BatchView {
    BatchView {
        prefix: input[0]->Name_0,
        records: Seq::new((input.len() - 2) as nat, |i: int| input[i + 2]->Def_0),
    }
}

/// What collecting does: the batch on a well-formed input, a syntax
/// error on any other.
pub open spec fn collect_view(input: Seq<RawItemView>) -> Result<BatchView, EngineError> {
    if wf_input(input) {
        Ok(collected(input))
    } else {
        Err(EngineError::Syntax)
    }
}

/// Collector: consumes the raw structured input and produces the batch.
/// The first item must be a bare name, the second the separator, and
/// every further item a record definition; anything else is a syntax
/// error, and the whole input is rejected.
pub fn collect(input: Vec<RawItem>) -> (r: Result<Batch, EngineError>)
    ensures
        match collect_view(input.deep_view()) {
            Ok(b) => r matches Ok(x) && x.deep_view() == b,
            Err(e) => r matches Err(x) && x == e,
        },
{
    let ghost iv = input.deep_view();
    let mut rest = input;
    if rest.len() < 2 {
        return Err(EngineError::Syntax);
    }
    let first = rest.remove(0);
    let second = rest.remove(0);
    proof {
        assert(first.deep_view() == iv[0]);
        assert(second.deep_view() == iv[1]);
        assert(rest.deep_view() =~= iv.skip(2));
    }
    let prefix = match first {
        RawItem::Name(p) => p,
        _ => {
            return Err(EngineError::Syntax);
        },
    };
    match second {
        RawItem::Sep => {},
        _ => {
            return Err(EngineError::Syntax);
        },
    }
    let mut records: Vec<RecordDef> = Vec::new();
    proof {
        assert(records.deep_view() =~= Seq::<crate::model::RecordView>::empty());
    }
    while rest.len() > 0
        invariant
            iv == input.deep_view(),
            iv.len() >= 2,
            iv[0] is Name,
            iv[1] is Sep,
            prefix@ == iv[0]->Name_0,
            iv.len() == 2 + records.len() + rest.len(),
            rest.deep_view() == iv.skip(2 + records.len() as int),
            forall|j: int| 2 <= j < 2 + records.len() ==> iv[j] is Def,
            records.deep_view() == Seq::new(records.len() as nat, |j: int| iv[j + 2]->Def_0),
        decreases rest.len(),
    {
        let ghost k = records.len() as int;
        let ghost old_rest = rest.deep_view();
        let ghost old_records = records.deep_view();
        let item = rest.remove(0);
        proof {
            assert(item.deep_view() == old_rest[0]);
            assert(old_rest[0] == iv.skip(2 + k)[0]);
            assert(iv.skip(2 + k)[0] == iv[k + 2]);
            assert(rest.deep_view() =~= old_rest.drop_first());
            assert(old_rest.drop_first() =~= iv.skip(2 + k + 1));
        }
        match item {
            RawItem::Def(d) => {
                records.push(d);
                proof {
                    assert(iv[k + 2] is Def);
                    assert forall|j: int| 2 <= j < 2 + records.len() implies iv[j] is Def by {
                        if j < 2 + k {
                            assert(iv[j] is Def);
                        } else {
                            assert(j == k + 2);
                        }
                    }
                    assert(records.deep_view() =~= old_records.push(d.deep_view()));
                    assert(d.deep_view() == iv[k + 2]->Def_0);
                    assert(records.deep_view() =~= Seq::new(
                        records.len() as nat,
                        |j: int| iv[j + 2]->Def_0,
                    ));
                }
            },
            RawItem::Name(_) => {
                proof {
                    assert(iv[k + 2] is Name);
                    assert(2 <= k + 2 < iv.len());
                    assert(!wf_input(iv));
                }
                return Err(EngineError::Syntax);
            },
            RawItem::Sep => {
                proof {
                    assert(iv[k + 2] is Sep);
                    assert(2 <= k + 2 < iv.len());
                    assert(!wf_input(iv));
                }
                return Err(EngineError::Syntax);
            },
        }
    }
    proof {
        assert(iv.len() == 2 + records.len());
        assert(wf_input(iv));
        assert(records.deep_view() =~= collected(iv).records);
    }
    let batch = Batch { prefix, records };
    proof {
        assert(batch.deep_view() =~= collected(iv));
    }
    Ok(batch)
}

} // verus!
