//! The configuration the recognizer reads: a leader key and ordered groups of
//! mappings from key-sequence strings to actions.

use vstd::prelude::*;

verus! {

/// One configured action: the key-sequence string that selects it, the kind of
/// action and its payload.
#[derive(Debug, Clone, PartialEq, Eq)]
pub struct Mapping {
    pub keys: String,
    pub kind: String,
    pub command: String,
}

/// A named, ordered collection of mappings.
#[derive(Debug, Clone, PartialEq, Eq)]
pub struct Group {
    pub name: String,
    pub mappings: Vec<Mapping>,
}

/// The leader key's symbol and the groups, in the order in which they are
/// searched.
#[derive(Debug, Clone, PartialEq, Eq)]
pub struct Config {
    pub leader_key: String,
    pub groups: Vec<Group>,
}

/// A mapping as plain values.
pub struct MappingView {
    pub keys: Seq<char>,
    pub kind: Seq<char>,
    pub command: Seq<char>,
}

/// A configuration as the recognizer reads it: the leader key's symbol and
/// every mapping in search order. Groups only organize, so the view leaves
/// their names and boundaries out.
pub struct ConfigView {
    pub leader_key: Seq<char>,
    pub mappings: Seq<MappingView>,
}

impl View for Mapping {
    type V = MappingView;

    open spec fn view(&self) -> MappingView {
        MappingView { keys: self.keys@, kind: self.kind@, command: self.command@ }
    }
}

impl View for Config {
    type V = ConfigView;

    open spec fn view(&self) -> ConfigView {
        ConfigView { leader_key: self.leader_key@, mappings: all_mappings(self.groups@) }
    }
}

/// The views of `mappings`, in order.
pub open spec fn mapping_views(mappings: Seq<Mapping>) -> Seq<MappingView> {
    Seq::new(mappings.len(), |i: int| mappings[i]@)
}

/// The mappings of `groups` laid end to end: group order first, then the order
/// inside each group.
pub open spec fn all_mappings(groups: Seq<Group>) -> Seq<MappingView>
    decreases groups.len(),
{
    if groups.len() == 0 {
        Seq::empty()
    } else {
        all_mappings(groups.drop_last()) + mapping_views(groups.last().mappings@)
    }
}

/// `i` is the position of the first mapping of `ms` whose keys are `keys`.
pub open spec fn is_first_match(ms: Seq<MappingView>, keys: Seq<char>, i: int) -> bool {
    &&& 0 <= i < ms.len()
    &&& ms[i].keys == keys
    &&& forall|j: int| 0 <= j < i ==> (#[trigger] ms[j]).keys != keys
}

/// No mapping of `ms` has the keys `keys`.
pub open spec fn no_match(ms: Seq<MappingView>, keys: Seq<char>) -> bool {
    forall|j: int| 0 <= j < ms.len() ==> (#[trigger] ms[j]).keys != keys
}

/// The first mapping of `ms` whose keys are exactly `keys`, if there is one.
pub open spec fn first_match(ms: Seq<MappingView>, keys: Seq<char>) -> Option<MappingView> {
    if exists|i: int| is_first_match(ms, keys, i) {
        Some(ms[choose|i: int| is_first_match(ms, keys, i)])
    } else {
        None
    }
}

/// The first match is unique: a position that is a first match is the one
/// that `first_match` yields.
pub proof fn lemma_first_match_at(ms: Seq<MappingView>, keys: Seq<char>, i: int)
    requires
        is_first_match(ms, keys, i),
    ensures
        first_match(ms, keys) == Some(ms[i]),
{
    let c = choose|c: int| is_first_match(ms, keys, c);
    if c < i {
        assert(ms[c].keys != keys);
    } else if i < c {
        assert(ms[i].keys != keys);
    }
}

/// Without any mapping for `keys` there is no first match.
pub proof fn lemma_first_match_none(ms: Seq<MappingView>, keys: Seq<char>)
    requires
        no_match(ms, keys),
    ensures
        first_match(ms, keys) is None,
{
    if exists|i: int| is_first_match(ms, keys, i) {
        let c = choose|c: int| is_first_match(ms, keys, c);
        assert(ms[c].keys != keys);
    }
}

/// Where some mapping has the keys, one of them is the first: it stands at or
/// before any other, and it is the one that `first_match` yields.
pub proof fn lemma_match_has_first(ms: Seq<MappingView>, keys: Seq<char>, j: int) -> (i: int)
    requires
        0 <= j < ms.len(),
        ms[j].keys == keys,
    ensures
        0 <= i <= j,
        is_first_match(ms, keys, i),
        first_match(ms, keys) == Some(ms[i]),
    decreases j,
{
    if exists|k: int| 0 <= k < j && (#[trigger] ms[k]).keys == keys {
        let k = choose|k: int| 0 <= k < j && (#[trigger] ms[k]).keys == keys;
        lemma_match_has_first(ms, keys, k)
    } else {
        lemma_first_match_at(ms, keys, j);
        j
    }
}

/// The mappings of the first `k` groups are a prefix of the mappings of all
/// groups.
pub proof fn lemma_all_mappings_prefix(groups: Seq<Group>, k: int)
    requires
        0 <= k <= groups.len(),
    ensures
        all_mappings(groups.take(k)).len() <= all_mappings(groups).len(),
        all_mappings(groups.take(k)) == all_mappings(groups).take(
            all_mappings(groups.take(k)).len() as int,
        ),
    decreases groups.len(),
{
    if k == groups.len() {
        assert(groups.take(k) =~= groups);
        assert(all_mappings(groups) =~= all_mappings(groups).take(
            all_mappings(groups).len() as int,
        ));
    } else {
        let front = groups.drop_last();
        assert(front.take(k) =~= groups.take(k));
        lemma_all_mappings_prefix(front, k);
        let n = all_mappings(groups.take(k)).len() as int;
        assert(all_mappings(groups).take(n) =~= all_mappings(front).take(n));
    }
}

impl Config {
    /// Looks `keys` up: group by group, mapping by mapping, the first mapping
    /// whose keys are exactly `keys`.
    pub fn lookup(&self, keys: &String) -> (found: Option<&Mapping>)
        ensures
            match found {
                Some(mapping) => first_match(self@.mappings, keys@) == Some(mapping@),
                None => first_match(self@.mappings, keys@) is None,
            },
    {
        let mut g: usize = 0;
        while g < self.groups.len()
            invariant
                g <= self.groups.len(),
                no_match(all_mappings(self.groups@.take(g as int)), keys@),
            decreases self.groups.len() - g,
        {
            let group = &self.groups[g];
            let ghost before = all_mappings(self.groups@.take(g as int));
            let ghost views = mapping_views(group.mappings@);
            let mut i: usize = 0;
            while i < group.mappings.len()
                invariant
                    g < self.groups.len(),
                    group == &self.groups[g as int],
                    i <= group.mappings.len(),
                    before == all_mappings(self.groups@.take(g as int)),
                    views == mapping_views(group.mappings@),
                    no_match(before + views.take(i as int), keys@),
                decreases group.mappings.len() - i,
            {
                let mapping = &group.mappings[i];
                if mapping.keys == *keys {
                    proof {
                        let upto = self.groups@.take(g + 1);
                        assert(upto.drop_last() =~= self.groups@.take(g as int));
                        assert(upto.last() == self.groups@[g as int]);
                        lemma_all_mappings_prefix(self.groups@, g + 1);
                        let at = before.len() + i;
                        let ms = self@.mappings;
                        assert(all_mappings(upto) == before + views);
                        assert(ms[at] == all_mappings(upto)[at]);
                        assert(ms[at] == mapping@);
                        assert forall|j: int| 0 <= j < at implies (#[trigger] ms[j]).keys
                            != keys@ by {
                            assert(ms[j] == all_mappings(upto)[j]);
                            assert(ms[j] == (before + views.take(i as int))[j]);
                        }
                        assert(is_first_match(ms, keys@, at));
                        lemma_first_match_at(ms, keys@, at);
                    }
                    return Some(mapping);
                }
                proof {
                    let seen = before + views.take(i as int);
                    let next = before + views.take(i + 1);
                    assert forall|j: int| 0 <= j < next.len() implies (#[trigger] next[j]).keys
                        != keys@ by {
                        if j < seen.len() {
                            assert(next[j] == seen[j]);
                        } else {
                            assert(next[j] == group.mappings@[i as int]@);
                        }
                    }
                }
                i += 1;
            }
            proof {
                let upto = self.groups@.take(g + 1);
                assert(upto.drop_last() =~= self.groups@.take(g as int));
                assert(upto.last() == self.groups@[g as int]);
                assert(views.take(i as int) =~= views);
            }
            g += 1;
        }
        proof {
            assert(self.groups@.take(g as int) =~= self.groups@);
            lemma_first_match_none(self@.mappings, keys@);
        }
        None
    }
}

} // verus!
