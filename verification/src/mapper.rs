//! NameMapper: derives from the batch alone the one-to-one mapping from
//! each record's original name to its slim name, the batch prefix
//! concatenated with the original name.

use vstd::prelude::*;
use vstd::string::StringExecFns;
use crate::model::{Batch, RecordView};

verus! {

/// The slim name of a record: the batch prefix concatenated with the
/// record's original name.
pub open spec fn slim_name(prefix: Seq<char>, name: Seq<char>) -> Seq<char> {
    prefix + name
}

/// The original names of a batch's records, in declaration order.
pub open spec fn names_of(records: Seq<RecordView>) -> Seq<Seq<char>> {
    records.map_values(|r: RecordView| r.name)
}

/// The ordered pairs of the mapping a batch gives rise to: one per record,
/// in declaration order, each original name beside its slim name.
pub open spec fn mapping_pairs(prefix: Seq<char>, names: Seq<Seq<char>>) -> Seq<
    (Seq<char>, Seq<char>),
> {
    Seq::new(names.len(), |i: int| (names[i], slim_name(prefix, names[i])))
}

/// First-match lookup among ordered pairs.
pub open spec fn lookup(pairs: Seq<(Seq<char>, Seq<char>)>, name: Seq<char>) -> Option<Seq<char>>
    decreases pairs.len(),
{
    if pairs.len() == 0 {
        None
    } else if pairs[0].0 == name {
        Some(pairs[0].1)
    } else {
        lookup(pairs.drop_first(), name)
    }
}

/// In the mapping a batch gives rise to, lookup succeeds exactly on the
/// batch's own record names, and always yields the slim name.
pub proof fn lemma_lookup_mapping(prefix: Seq<char>, names: Seq<Seq<char>>, name: Seq<char>)
    ensures
        names.contains(name) ==> lookup(mapping_pairs(prefix, names), name) == Some(
            slim_name(prefix, name),
        ),
        !names.contains(name) ==> lookup(mapping_pairs(prefix, names), name) is None,
    decreases names.len(),
{
    let pairs = mapping_pairs(prefix, names);
    if names.len() == 0 {
        assert(!names.contains(name));
    } else if pairs[0].0 == name {
        assert(names[0] == name);
        assert(names.contains(name));
    } else {
        assert(names[0] != name);
        assert(pairs.drop_first() =~= mapping_pairs(prefix, names.drop_first()));
        lemma_lookup_mapping(prefix, names.drop_first(), name);
        if names.contains(name) {
            let i = choose|i: int| 0 <= i < names.len() && names[i] == name;
            assert(names.drop_first()[i - 1] == name);
            assert(names.drop_first().contains(name));
        }
        if names.drop_first().contains(name) {
            let j = choose|j: int| 0 <= j < names.drop_first().len() && names.drop_first()[j]
                == name;
            assert(names[j + 1] == name);
            assert(names.contains(name));
        }
    }
}

/// The mapping is one-to-one: two records with distinct original names
/// get distinct slim names.
pub proof fn lemma_slim_name_injective(prefix: Seq<char>, a: Seq<char>, b: Seq<char>)
    requires
        slim_name(prefix, a) == slim_name(prefix, b),
    ensures
        a == b,
{
    assert(a =~= slim_name(prefix, a).skip(prefix.len() as int));
    assert(b =~= slim_name(prefix, b).skip(prefix.len() as int));
}

/// NameMapper's product: an immutable, batch-scoped, ordered mapping from
/// original record name to slim record name.
pub struct NameMapping {
    /// The pairs, one per record of the batch, in declaration order.
    pub pairs: Vec<(String, String)>,
}

impl View for NameMapping {
    type V = Seq<(Seq<char>, Seq<char>)>;

    open spec fn view(&self) -> Seq<(Seq<char>, Seq<char>)> {
        self.pairs.deep_view()
    }
}

impl NameMapping {
    /// Builds the mapping of a batch, covering every record definition in
    /// it, in declaration order. A pure function of the batch.
    pub fn build(batch: &Batch) -> (m: NameMapping)
        ensures
            m@ == mapping_pairs(batch.prefix@, names_of(batch.records.deep_view())),
    {
        let ghost names = names_of(batch.records.deep_view());
        let ghost ps = mapping_pairs(batch.prefix@, names);
        let mut pairs: Vec<(String, String)> = Vec::new();
        let n = batch.records.len();
        let mut i: usize = 0;
        proof {
            assert(pairs.deep_view() =~= ps.take(0));
        }
        while i < n
            invariant
                n == batch.records.len(),
                i <= n,
                names == names_of(batch.records.deep_view()),
                ps == mapping_pairs(batch.prefix@, names),
                pairs.deep_view() == ps.take(i as int),
            decreases n - i,
        {
            let ghost old_dv = pairs.deep_view();
            let name = batch.records[i].name.clone();
            let slim = batch.prefix.clone().concat(name.as_str());
            pairs.push((name, slim));
            proof {
                assert(batch.records.deep_view()[i as int] == batch.records@[
                    i as int].deep_view());
                assert(names[i as int] == batch.records@[i as int].name@);
                assert(pairs.deep_view() =~= old_dv.push((name@, slim@)));
                assert(ps.take(i + 1) =~= ps.take(i as int).push(ps[i as int]));
            }
            i += 1;
        }
        proof {
            assert(ps.take(n as int) =~= ps);
        }
        NameMapping { pairs }
    }

    /// Looks a name up: the slim name of the first pair whose original
    /// name matches, if any.
    pub fn slim_of(&self, name: &String) -> (r: Option<String>)
        ensures
            r.deep_view() == lookup(self@, name@),
    {
        let n = self.pairs.len();
        let mut i: usize = 0;
        proof {
            assert(self@.skip(0) =~= self@);
        }
        while i < n
            invariant
                n == self.pairs.len(),
                i <= n,
                lookup(self@, name@) == lookup(self@.skip(i as int), name@),
            decreases n - i,
        {
            proof {
                assert(self@[i as int] == self.pairs@[i as int].deep_view());
                assert(self@.skip(i as int)[0] == self@[i as int]);
            }
            if self.pairs[i].0 == *name {
                return Some(self.pairs[i].1.clone());
            }
            proof {
                assert(self@.skip(i as int).drop_first() =~= self@.skip(i + 1));
            }
            i += 1;
        }
        None
    }
}

} // verus!
