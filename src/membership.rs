use vstd::prelude::*;

verus! {

/// The text of each node identifier in a list.
pub open spec fn names_of(v: Seq<String>) -> Seq<Seq<char>> {
    v.map_values(|s: String| s@)
}

/// The set of node identifiers in a list.
pub open spec fn name_set(v: Seq<String>) -> Set<Seq<char>> {
    names_of(v).to_set()
}

/// `node` is one of `members`.
pub open spec fn is_member(members: Seq<String>, node: Seq<char>) -> bool {
    exists|j: int| 0 <= j < members.len() && #[trigger] members[j]@ == node
}

/// Every node of `nodes` is one of `members`.
pub open spec fn all_members(members: Seq<String>, nodes: Seq<String>) -> bool {
    forall|i: int| 0 <= i < nodes.len() ==> is_member(members, #[trigger] nodes[i]@)
}

/// The nodes of `nodes` that are not among `members`, in request order.
pub open spec fn outsiders(members: Seq<String>, nodes: Seq<String>) -> Seq<Seq<char>>
    decreases nodes.len(),
{
    if nodes.len() == 0 {
        Seq::empty()
    } else {
        let rest = outsiders(members, nodes.drop_last());
        if is_member(members, nodes.last()@) {
            rest
        } else {
            rest.push(nodes.last()@)
        }
    }
}

/// A named resource group and the nodes that belong to it.
pub struct ResourceGroup {
    pub name: String,
    pub members: Vec<String>,
}

/// Target nodes that are not members of the declared group.
pub struct ValidationError {
    pub offending: Vec<String>,
}

fn contains_node(members: &Vec<String>, node: &String) -> (r: bool)
    ensures
        r == is_member(members@, node@),
{
    let mut j: usize = 0;
    while j < members.len()
        invariant
            j <= members.len(),
            forall|k: int| 0 <= k < j ==> members@[k]@ != node@,
        decreases members.len() - j,
    {
        if members[j] == *node {
            return true;
        }
        j = j + 1;
    }
    false
}

/// Checks that every target node belongs to the group; on failure names,
/// in request order, each node that does not.
pub fn validate_membership(group: &ResourceGroup, nodes: &Vec<String>) -> (r: Result<(), ValidationError>)
    ensures
        r is Ok <==> all_members(group.members@, nodes@),
        r is Ok <==> name_set(nodes@).subset_of(name_set(group.members@)),
        r is Err ==> names_of(r->Err_0.offending@) == outsiders(group.members@, nodes@),
        r is Err ==> r->Err_0.offending@.len() > 0,
{
    let mut offending: Vec<String> = Vec::new();
    let mut i: usize = 0;
    while i < nodes.len()
        invariant
            i <= nodes.len(),
            names_of(offending@) == outsiders(group.members@, nodes@.take(i as int)),
            offending@.len() == 0 <==> all_members(group.members@, nodes@.take(i as int)),
        decreases nodes.len() - i,
    {
        proof {
            let m = group.members@;
            let pre = nodes@.take(i as int);
            let next = nodes@.take(i as int + 1);
            assert(next.drop_last() =~= pre);
            assert(all_members(m, next) <==> all_members(m, pre) && is_member(m, nodes@[i as int]@)) by {
                if all_members(m, next) {
                    assert forall|k: int| 0 <= k < pre.len() implies is_member(m, #[trigger] pre[k]@) by {
                        assert(next[k] == pre[k]);
                    }
                    assert(next[i as int] == nodes@[i as int]);
                }
                if all_members(m, pre) && is_member(m, nodes@[i as int]@) {
                    assert forall|k: int| 0 <= k < next.len() implies is_member(m, #[trigger] next[k]@) by {
                        if k < i {
                            assert(next[k] == pre[k]);
                        }
                    }
                }
            }
        }
        if !contains_node(&group.members, &nodes[i]) {
            offending.push(nodes[i].clone());
            assert(names_of(offending@) =~= outsiders(group.members@, nodes@.take(i as int)).push(
                nodes@[i as int]@,
            ));
        }
        i = i + 1;
    }
    assert(nodes@.take(nodes@.len() as int) =~= nodes@);
    proof {
        lemma_all_members_subset(group.members@, nodes@);
    }
    if offending.len() == 0 {
        Ok(())
    } else {
        Err(ValidationError { offending })
    }
}

/// Validation of a run's target nodes against an optional group scope: a run
/// without a group is not restricted.
pub fn validate_group_scope(group: Option<&ResourceGroup>, nodes: &Vec<String>) -> (r: Result<(), ValidationError>)
    ensures
        group is None ==> r is Ok,
        group is Some ==> (r is Ok <==> all_members(group->0.members@, nodes@)),
        r is Err ==> names_of(r->Err_0.offending@) == outsiders(group->0.members@, nodes@),
{
    match group {
        None => Ok(()),
        Some(g) => validate_membership(g, nodes),
    }
}

/// A node set that a write may target: at least one node, and no empty
/// identifier.
pub fn nodes_well_formed(nodes: &Vec<String>) -> (r: bool)
    ensures
        r <==> nodes@.len() > 0 && forall|i: int| 0 <= i < nodes@.len() ==> #[trigger] nodes@[i]@.len() > 0,
{
    if nodes.len() == 0 {
        return false;
    }
    let mut i: usize = 0;
    while i < nodes.len()
        invariant
            i <= nodes.len(),
            forall|k: int| 0 <= k < i ==> #[trigger] nodes@[k]@.len() > 0,
        decreases nodes.len() - i,
    {
        if nodes[i].as_str().is_empty() {
            return false;
        }
        i = i + 1;
    }
    true
}

/// Index of the first group named `name`.
pub fn find_group(groups: &Vec<ResourceGroup>, name: &String) -> (r: Option<usize>)
    ensures
        r is Some ==> r->0 < groups@.len() && groups@[r->0 as int].name@ == name@,
        r is Some ==> forall|k: int| 0 <= k < r->0 ==> groups@[k].name@ != name@,
        r is None ==> forall|k: int| 0 <= k < groups@.len() ==> groups@[k].name@ != name@,
{
    let mut i: usize = 0;
    while i < groups.len()
        invariant
            i <= groups.len(),
            forall|k: int| 0 <= k < i ==> groups@[k].name@ != name@,
        decreases groups.len() - i,
    {
        if groups[i].name == *name {
            return Some(i);
        }
        i = i + 1;
    }
    None
}

/// Membership validation succeeds exactly when the requested nodes form a
/// subset of the group's members.
pub proof fn lemma_all_members_subset(members: Seq<String>, nodes: Seq<String>)
    ensures
        all_members(members, nodes) <==> name_set(nodes).subset_of(name_set(members)),
{
    if all_members(members, nodes) {
        assert forall|x: Seq<char>| name_set(nodes).contains(x) implies name_set(members).contains(x) by {
            assert(names_of(nodes).contains(x));
            let i = choose|i: int| 0 <= i < names_of(nodes).len() && names_of(nodes)[i] == x;
            assert(is_member(members, nodes[i]@));
            let j = choose|j: int| 0 <= j < members.len() && #[trigger] members[j]@ == nodes[i]@;
            assert(names_of(members)[j] == x);
        }
    }
    if name_set(nodes).subset_of(name_set(members)) {
        assert forall|i: int| 0 <= i < nodes.len() implies is_member(members, #[trigger] nodes[i]@) by {
            assert(names_of(nodes)[i] == nodes[i]@);
            assert(name_set(nodes).contains(nodes[i]@));
            assert(names_of(members).contains(nodes[i]@));
            let j = choose|j: int| 0 <= j < names_of(members).len() && names_of(members)[j] == nodes[i]@;
            assert(members[j]@ == nodes[i]@);
        }
    }
}

} // verus!
