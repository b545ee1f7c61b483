use vstd::prelude::*;

verus! {

/// Roles that every token carries and that grant no tenant.
pub open spec fn is_default_role(role: Seq<char>) -> bool {
    role == "offline_access"@ || role == "uma_authorization"@
}

/// The group setting may be unset only outside tenant mode: when the token
/// carries no role but the default ones.
pub fn may_unset_group(roles: &Vec<String>) -> (r: bool)
    ensures
        r <==> forall|i: int| 0 <= i < roles@.len() ==> is_default_role(#[trigger] roles@[i]@),
{
    let offline = String::from_str("offline_access");
    let uma = String::from_str("uma_authorization");
    let mut i: usize = 0;
    while i < roles.len()
        invariant
            i <= roles.len(),
            offline@ == "offline_access"@,
            uma@ == "uma_authorization"@,
            forall|k: int| 0 <= k < i ==> is_default_role(#[trigger] roles@[k]@),
        decreases roles.len() - i,
    {
        if !(roles[i] == offline || roles[i] == uma) {
            return false;
        }
        i = i + 1;
    }
    true
}

} // verus!
