use vstd::prelude::*;

verus! {

/// An account that can own players across game sessions. Equality is by the
/// id alone: two records with the same id are the same user, whatever name or
/// balance each copy carries.
#[derive(Debug)]
pub struct User {
    pub id: u32,
    pub name: String,
    pub balance: u32,
}

impl User {
    pub fn new(id: u32, name: String, balance: u32) -> (u: User)
        ensures
            u.id == id,
            u.name@ == name@,
            u.balance == balance,
    {
        User { id, name, balance }
    }
}

impl PartialEq for User {
    /// Equality is identity: the user id alone.
    fn eq(&self, other: &User) -> (r: bool) {
        self.id == other.id
    }
}

impl vstd::std_specs::cmp::PartialEqSpecImpl for User {
    open spec fn obeys_eq_spec() -> bool {
        true
    }

    open spec fn eq_spec(&self, other: &User) -> bool {
        self.id == other.id
    }
}

} // verus!
