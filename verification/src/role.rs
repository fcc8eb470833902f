//! Roles: a prompt under a name, with the temperature it asks for.
use vstd::prelude::*;

verus! {

/// A sampling temperature, held as the bits of the double-precision number that it is.
#[derive(Copy, Clone, Debug, PartialEq, Eq, Structural)]
pub struct Temperature {
    pub bits: u64,
}

#[derive(Debug)]
pub struct Role {
    pub name: String,
    pub prompt: String,
    pub temperature: Option<Temperature>,
}

impl Clone for Role {
    fn clone(&self) -> (copy: Role)
        ensures
            copy == *self,
    {
        Role { name: self.name.clone(), prompt: self.prompt.clone(), temperature: self.temperature }
    }
}

/// A copy of a role, where there is one.
pub fn copied_role(role: &Option<Role>) -> (copy: Option<Role>)
    ensures
        copy == *role,
{
    match role {
        Some(role) => Some(role.clone()),
        None => None,
    }
}

/// The role at `at` answers to `name`, and none before it does.
pub open spec fn first_match<M: Fn(&Role, &str) -> bool>(
    roles: Seq<Role>,
    name: &str,
    match_name: M,
    at: int,
) -> bool {
    &&& 0 <= at < roles.len()
    &&& match_name.ensures((&roles[at], name), true)
    &&& forall|i: int| 0 <= i < at ==> match_name.ensures((&#[trigger] roles[i], name), false)
}

/// No role answers to `name`.
pub open spec fn no_match<M: Fn(&Role, &str) -> bool>(
    roles: Seq<Role>,
    name: &str,
    match_name: M,
) -> bool {
    forall|i: int| 0 <= i < roles.len() ==> match_name.ensures((&#[trigger] roles[i], name), false)
}

/// The index of the first role that answers to `name`, where `match_name` tells whether one
/// does.
pub fn find_role<M: Fn(&Role, &str) -> bool>(
    roles: &Vec<Role>,
    name: &str,
    match_name: M,
) -> (found: Option<usize>)
    requires
        forall|role: &Role| match_name.requires((role, name)),
    ensures
        match found {
            Some(at) => first_match(roles@, name, match_name, at as int),
            None => no_match(roles@, name, match_name),
        },
{
    let mut i: usize = 0;
    while i < roles.len()
        invariant
            i <= roles.len(),
            forall|role: &Role| match_name.requires((role, name)),
            forall|j: int| 0 <= j < i ==> match_name.ensures((&#[trigger] roles[j], name), false),
        decreases roles.len() - i,
    {
        if match_name(&roles[i], name) {
            return Some(i);
        }
        i += 1;
    }
    None
}

} // verus!
