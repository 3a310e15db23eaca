use vstd::prelude::*;
use vstd::multiset::Multiset;
use vstd::string::StrSliceExecFns;

use crate::model::Group;

verus! {

/// `a` comes no later than `b` in lexicographic order of characters, which is
/// the order of `str` (UTF-8 keeps the order of code points).
pub open spec fn name_le(a: Seq<char>, b: Seq<char>) -> bool
    decreases a.len(),
{
    if a.len() == 0 {
        true
    } else if b.len() == 0 {
        false
    } else if a[0] != b[0] {
        a[0] < b[0]
    } else {
        name_le(a.drop_first(), b.drop_first())
    }
}

pub proof fn lemma_name_le_total(a: Seq<char>, b: Seq<char>)
    ensures
        name_le(a, b) || name_le(b, a),
    decreases a.len(),
{
    if a.len() > 0 && b.len() > 0 && a[0] == b[0] {
        lemma_name_le_total(a.drop_first(), b.drop_first());
    }
}

pub proof fn lemma_name_le_transitive(a: Seq<char>, b: Seq<char>, c: Seq<char>)
    requires
        name_le(a, b),
        name_le(b, c),
    ensures
        name_le(a, c),
    decreases a.len(),
{
    if a.len() > 0 && b.len() > 0 && c.len() > 0 && a[0] == b[0] && b[0] == c[0] {
        lemma_name_le_transitive(a.drop_first(), b.drop_first(), c.drop_first());
    }
}

/// The groups are in order of their names.
pub open spec fn sorted_by_name(groups: Seq<Group>) -> bool {
    forall|i: int, j: int|
        0 <= i < j < groups.len() ==> name_le(#[trigger] groups[i].name@, #[trigger] groups[j].name@)
}

/// Whether `a` comes no later than `b` in the order of names.
pub fn name_le_exec(a: &str, b: &str) -> (r: bool)
    ensures
        r == name_le(a@, b@),
{
    let la = a.unicode_len();
    let lb = b.unicode_len();
    let mut i: usize = 0;
    assert(a@.skip(0) =~= a@);
    assert(b@.skip(0) =~= b@);
    while i < la && i < lb
        invariant
            la == a@.len(),
            lb == b@.len(),
            i <= la,
            i <= lb,
            name_le(a@, b@) == name_le(a@.skip(i as int), b@.skip(i as int)),
        decreases la - i,
    {
        let ca = a.get_char(i);
        let cb = b.get_char(i);
        if ca != cb {
            return ca < cb;
        }
        assert(a@.skip(i as int).drop_first() =~= a@.skip(i + 1));
        assert(b@.skip(i as int).drop_first() =~= b@.skip(i + 1));
        i = i + 1;
    }
    i == la
}

/// Sort `groups` by name, so that repeated runs list a stable set of groups
/// under stable indices.
pub fn sort_groups(groups: Vec<Group>) -> (r: Vec<Group>)
    ensures
        sorted_by_name(r@),
        r@.to_multiset() == groups@.to_multiset(),
{
    broadcast use vstd::multiset::group_multiset_axioms;

    let mut rest = groups;
    let mut result: Vec<Group> = Vec::new();
    proof {
        assert(result@.to_multiset() =~= Multiset::empty()) by {
            vstd::seq_lib::to_multiset_len(result@);
        }
    }
    while rest.len() > 0
        invariant
            sorted_by_name(result@),
            rest@.to_multiset().add(result@.to_multiset()) == groups@.to_multiset(),
        decreases rest.len(),
    {
        let ghost old_rest = rest@;
        let g = rest.remove(0);
        proof {
            vstd::seq_lib::to_multiset_remove(old_rest, 0);
            assert(rest@ == old_rest.remove(0));
            vstd::seq_lib::to_multiset_contains(old_rest, g);
        }
        let mut k: usize = 0;
        while k < result.len() && name_le_exec(result[k].name.as_str(), g.name.as_str())
            invariant
                k <= result@.len(),
                forall|j: int| 0 <= j < k ==> name_le(#[trigger] result@[j].name@, g.name@),
            decreases result@.len() - k,
        {
            k = k + 1;
        }
        proof {
            if k < result@.len() {
                lemma_name_le_total(result@[k as int].name@, g.name@);
                assert forall|j: int| k <= j < result@.len() implies name_le(
                    g.name@,
                    #[trigger] result@[j].name@,
                ) by {
                    if j > k {
                        lemma_name_le_transitive(g.name@, result@[k as int].name@, result@[j].name@);
                    }
                }
            }
        }
        let ghost before = result@;
        result.insert(k, g);
        proof {
            assert(result@ == before.insert(k as int, g));
            vstd::seq_lib::to_multiset_insert(before, k as int, g);
            assert(rest@.to_multiset().add(result@.to_multiset()) =~= old_rest.to_multiset().add(
                before.to_multiset(),
            ));
            assert forall|i: int, j: int| 0 <= i < j < result@.len() implies name_le(
                #[trigger] result@[i].name@,
                #[trigger] result@[j].name@,
            ) by {
                if j < k {
                } else if j == k {
                } else if i < k {
                    assert(name_le(before[i].name@, g.name@));
                    assert(name_le(g.name@, before[j - 1].name@));
                    lemma_name_le_transitive(before[i].name@, g.name@, before[j - 1].name@);
                } else if i == k {
                } else {
                    assert(name_le(before[i - 1].name@, before[j - 1].name@));
                }
            }
        }
    }
    proof {
        assert(rest@.to_multiset() =~= Multiset::empty()) by {
            vstd::seq_lib::to_multiset_len(rest@);
        }
    }
    result
}

} // verus!
