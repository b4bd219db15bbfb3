//! The set of usernames that are connected to the server.

use vstd::prelude::*;

use crate::text::str_eq;

verus! {

/// The usernames in use; no name occurs twice.
pub struct Users {
    names: Vec<String>,
}

impl Users {
    /// No name is held twice.
    #[verifier::type_invariant]
    closed spec fn distinct(self) -> bool {
        forall|i: int, j: int|
            0 <= i < self.names@.len() && 0 <= j < self.names@.len() && i != j
                ==> #[trigger] self.names@[i]@ != #[trigger] self.names@[j]@
    }

    /// The set of names held.
    pub closed spec fn names(self) -> Set<Seq<char>> {
        Set::new(|u: Seq<char>| exists|i: int| 0 <= i < self.names@.len() && self.names@[i]@ == u)
    }
}

impl View for Users {
    type V = Set<Seq<char>>;

    open spec fn view(&self) -> Set<Seq<char>> {
        self.names()
    }
}

impl Users {
    /// An empty set of users.
    pub fn new() -> (r: Users)
        ensures
            r@ == Set::<Seq<char>>::empty(),
    {
        let r = Users { names: Vec::new() };
        assert(r@ =~= Set::<Seq<char>>::empty());
        r
    }

    /// The position of `username`, if it is held.
    fn position(&self, username: &str) -> (r: Option<usize>)
        ensures
            match r {
                Some(i) => i < self.names@.len() && self.names@[i as int]@ == username@,
                None => forall|i: int|
                    0 <= i < self.names@.len() ==> #[trigger] self.names@[i]@ != username@,
            },
    {
        let mut i: usize = 0;
        while i < self.names.len()
            invariant
                i <= self.names@.len(),
                forall|k: int| 0 <= k < i ==> #[trigger] self.names@[k]@ != username@,
            decreases self.names@.len() - i,
        {
            if str_eq(self.names[i].as_str(), username) {
                return Some(i);
            }
            i = i + 1;
        }
        None
    }

    /// Whether `username` is in use.
    pub fn contains(&self, username: &str) -> (r: bool)
        ensures
            r == self@.contains(username@),
    {
        match self.position(username) {
            Some(i) => {
                assert(self@.contains(username@));
                true
            },
            None => false,
        }
    }

    /// Claims `username`. Returns `true` when it was free and is now taken,
    /// `false` when someone already holds it; either way it is held after
    /// the call.
    pub fn register(&mut self, username: &str) -> (added: bool)
        ensures
            added == accepts(old(self)@, username@),
            final(self)@ == registered(old(self)@, username@),
    {
        proof {
            use_type_invariant(&*self);
        }
        match self.position(username) {
            Some(i) => {
                assert(self@ =~= old(self)@.insert(username@));
                false
            },
            None => {
                let ghost before = self.names@;
                let mut names = Vec::new();
                std::mem::swap(&mut names, &mut self.names);
                names.push(username.to_owned());
                self.names = names;
                assert(self.names@[before.len() as int]@ == username@);
                assert(self@ =~= old(self)@.insert(username@)) by {
                    assert forall|u: Seq<char>| #[trigger] old(self)@.insert(username@).contains(u)
                        implies self@.contains(u) by {
                        if u != username@ {
                            let k = choose|k: int| 0 <= k < before.len() && before[k]@ == u;
                            assert(self.names@[k] == before[k]);
                        }
                    }
                    assert forall|u: Seq<char>| #[trigger] self@.contains(u)
                        implies old(self)@.insert(username@).contains(u) by {
                        let k = choose|k: int| 0 <= k < self.names@.len() && self.names@[k]@ == u;
                        if k < before.len() {
                            assert(before[k] == self.names@[k]);
                        }
                    }
                }
                true
            },
        }
    }

    /// Releases `username`; nothing changes when it is not held.
    pub fn deregister(&mut self, username: &str)
        ensures
            final(self)@ == deregistered(old(self)@, username@),
    {
        proof {
            use_type_invariant(&*self);
        }
        match self.position(username) {
            Some(i) => {
                let ghost before = self.names@;
                let mut names = Vec::new();
                std::mem::swap(&mut names, &mut self.names);
                names.remove(i);
                self.names = names;
                assert(self@ =~= old(self)@.remove(username@)) by {
                    assert forall|u: Seq<char>| #[trigger] old(self)@.remove(username@).contains(u)
                        implies self@.contains(u) by {
                        let k = choose|k: int| 0 <= k < before.len() && before[k]@ == u;
                        if k < i {
                            assert(self.names@[k] == before[k]);
                        } else {
                            assert(k != i);
                            assert(self.names@[k - 1] == before[k]);
                        }
                    }
                    assert forall|u: Seq<char>| #[trigger] self@.contains(u)
                        implies old(self)@.remove(username@).contains(u) by {
                        let k = choose|k: int| 0 <= k < self.names@.len() && self.names@[k]@ == u;
                        if k < i {
                            assert(before[k] == self.names@[k]);
                            assert(k != i);
                        } else {
                            assert(before[k + 1] == self.names@[k]);
                            assert(k + 1 != i);
                        }
                    }
                }
            },
            None => {
                assert(self@ =~= old(self)@.remove(username@));
            },
        }
    }
}

/// What `register` returns on the registry `users`: whether `name` is free.
pub open spec fn accepts(users: Set<Seq<char>>, name: Seq<char>) -> bool {
    !users.contains(name)
}

/// The registry after `register` of `name`.
pub open spec fn registered(users: Set<Seq<char>>, name: Seq<char>) -> Set<Seq<char>> {
    users.insert(name)
}

/// The registry after `deregister` of `name`.
pub open spec fn deregistered(users: Set<Seq<char>>, name: Seq<char>) -> Set<Seq<char>> {
    users.remove(name)
}

/// Usernames are unique: once `register` has claimed a name, `register`
/// refuses it, whatever the registry held before.
pub proof fn law_taken_name_refused(users: Set<Seq<char>>, name: Seq<char>)
    ensures
        !accepts(registered(users, name), name),
{
}

/// After `deregister` of a name, `register` accepts it again.
pub proof fn law_released_name_free(users: Set<Seq<char>>, name: Seq<char>)
    ensures
        accepts(deregistered(users, name), name),
{
}

/// `register` of a free name followed by `deregister` of it leaves the
/// registry as it was.
pub proof fn law_register_then_deregister(users: Set<Seq<char>>, name: Seq<char>)
    requires
        accepts(users, name),
    ensures
        deregistered(registered(users, name), name) == users,
{
    assert(deregistered(registered(users, name), name) =~= users);
}

} // verus!
