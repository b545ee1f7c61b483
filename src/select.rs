use vstd::prelude::*;
use crate::resolve::Configuration;

verus! {

/// `p` occurs in `s` as a contiguous run of characters.
pub open spec fn has_substring(s: Seq<char>, p: Seq<char>) -> bool {
    exists|i: int| 0 <= i <= s.len() - p.len() && #[trigger] s.subrange(i, i + p.len()) == p
}

/// Relies on str::contains: whether `p` matches a sub-slice of `s`.
#[verifier::external_body]
fn contains_text(s: &str, p: &str) -> (r: bool)
    ensures
        r == has_substring(s@, p@),
{
    s.contains(p)
}

/// A configuration belongs to the groups when no group is given, or when its
/// name contains the name of one of them.
pub open spec fn of_groups(c: Configuration, groups: Seq<String>) -> bool {
    groups.len() == 0 || exists|g: int| 0 <= g < groups.len() && has_substring(c.name@, #[trigger] groups[g]@)
}

/// The configurations of `cs` that belong to the groups, in order.
pub open spec fn configurations_of(cs: Seq<Configuration>, groups: Seq<String>) -> Seq<Configuration>
    decreases cs.len(),
{
    if cs.len() == 0 {
        Seq::empty()
    } else {
        let rest = configurations_of(cs.drop_last(), groups);
        if of_groups(cs.last(), groups) {
            rest.push(cs.last())
        } else {
            rest
        }
    }
}

fn belongs_to_groups(c: &Configuration, groups: &Vec<String>) -> (r: bool)
    ensures
        r == of_groups(*c, groups@),
{
    if groups.len() == 0 {
        return true;
    }
    let mut g: usize = 0;
    while g < groups.len()
        invariant
            g <= groups.len(),
            forall|k: int| 0 <= k < g ==> !has_substring(c.name@, #[trigger] groups@[k]@),
        decreases groups.len() - g,
    {
        if contains_text(c.name.as_str(), groups[g].as_str()) {
            return true;
        }
        g = g + 1;
    }
    false
}

/// Keeps, in order, the configurations whose name contains the name of one
/// of the groups; all of them when no group is given.
pub fn configurations_of_groups(configs: Vec<Configuration>, groups: &Vec<String>) -> (r: Vec<Configuration>)
    ensures
        r@ == configurations_of(configs@, groups@),
{
    let ghost all = configs@;
    let mut configs = configs;
    assert(all.len() == configs.len());
    let mut kept: Vec<Configuration> = Vec::new();
    let mut k: usize = 0;
    while configs.len() > 0
        invariant
            k + configs@.len() == all.len(),
            all.len() <= usize::MAX,
            configs@ == all.skip(k as int),
            kept@ == configurations_of(all.take(k as int), groups@),
        decreases configs@.len(),
    {
        let c = configs.remove(0);
        assert(c == all[k as int]);
        assert(all.take(k as int + 1).drop_last() =~= all.take(k as int));
        assert(all.skip(k as int + 1) =~= all.skip(k as int).remove(0));
        if belongs_to_groups(&c, groups) {
            kept.push(c);
        }
        k = k + 1;
    }
    assert(all.take(k as int) =~= all);
    kept
}

} // verus!
