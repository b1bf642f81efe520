//! The links: which backend connection serves each tenant.
use vstd::prelude::*;

use crate::client::Client;
use crate::config::{spec_addr, spec_certs, spec_mount, spec_token, Config};
use crate::error::VaultError;

verus! {

/// The answer to a request from a tenant that has no link.
pub open spec fn unlinked_text() -> Seq<char> {
    "Actor is not linked"@
}

/// The tenant a request comes from; a request without one is taken as from
/// the tenant with the empty name.
pub open spec fn tenant_of(actor: Option<String>) -> Seq<char> {
    match actor {
        Some(a) => a@,
        None => Seq::empty(),
    }
}

/// What a successful link of `tenant` with `values` makes of the links
/// `before`: the tenant is served by a new client on the mount of its
/// settings, every other tenant as before.
pub open spec fn link_established(
    before: Map<Seq<char>, Client>,
    after: Map<Seq<char>, Client>,
    tenant: Seq<char>,
    values: Seq<(String, String)>,
) -> bool {
    &&& after.dom() == before.dom().insert(tenant)
    &&& after[tenant].spec_namespace() == spec_mount(values)
    &&& spec_token(values) == Some(after[tenant].spec_token())
    &&& after[tenant].spec_address() == spec_addr(values)
    &&& after[tenant].spec_certs() == spec_certs(values)
    &&& forall|k: Seq<char>|
        #[trigger] before.contains_key(k) && k != tenant ==> after[k] == before[k]
}

/// The tenants' connections, at most one for each tenant.
pub struct Registry {
    entries: Vec<(String, Client)>,
    links: Ghost<Map<Seq<char>, Client>>,
}

impl View for Registry {
    type V = Map<Seq<char>, Client>;

    closed spec fn view(&self) -> Map<Seq<char>, Client> {
        self.links@
    }
}

impl Registry {
    /// Each tenant is held once, and the entries hold exactly the links.
    pub closed spec fn wf(&self) -> bool {
        &&& forall|i: int, j: int|
            0 <= i < j < self.entries@.len() ==> #[trigger] self.entries@[i].0@
                != #[trigger] self.entries@[j].0@
        &&& forall|i: int|
            0 <= i < self.entries@.len() ==> #[trigger] self.links@.contains_key(
                self.entries@[i].0@,
            ) && self.links@[self.entries@[i].0@] == self.entries@[i].1
        &&& forall|k: Seq<char>|
            #[trigger] self.links@.contains_key(k) ==> exists|i: int|
                0 <= i < self.entries@.len() && #[trigger] self.entries@[i].0@ == k
    }

    /// No tenant is linked.
    pub fn new() -> (r: Registry)
        ensures
            r.wf(),
            r@ == Map::<Seq<char>, Client>::empty(),
    {
        Registry { entries: Vec::new(), links: Ghost(Map::empty()) }
    }

    /// The position of a tenant's entry.
    fn position(&self, tenant: &String) -> (r: Option<usize>)
        requires
            self.wf(),
        ensures
            r matches Some(i) ==> i < self.entries@.len() && self.entries@[i as int].0@ == tenant@,
            r is None ==> !self@.contains_key(tenant@),
    {
        let mut i: usize = 0;
        while i < self.entries.len()
            invariant
                self.wf(),
                i <= self.entries@.len(),
                forall|j: int| 0 <= j < i ==> self.entries@[j].0@ != tenant@,
            decreases self.entries@.len() - i,
        {
            if self.entries[i].0 == *tenant {
                return Some(i);
            }
            i = i + 1;
        }
        None
    }

    /// Serves `tenant` by `client`, in place of any connection it had.
    pub fn insert(&mut self, tenant: String, client: Client)
        requires
            old(self).wf(),
        ensures
            final(self).wf(),
            final(self)@ == old(self)@.insert(tenant@, client),
    {
        let ghost key = tenant@;
        let ghost before = self.entries@;
        let ghost new_links = self.links@.insert(key, client);
        match self.position(&tenant) {
            Some(i) => {
                self.entries.set(i, (tenant, client));
                self.links = Ghost(new_links);
                proof {
                    assert forall|k: Seq<char>| #[trigger] self.links@.contains_key(k) implies exists|
                        j: int,
                    | 0 <= j < self.entries@.len() && #[trigger] self.entries@[j].0@ == k by {
                        if k == key {
                            assert(self.entries@[i as int].0@ == k);
                        } else {
                            let j = choose|j: int|
                                0 <= j < before.len() && #[trigger] before[j].0@ == k;
                            assert(self.entries@[j].0@ == k);
                        }
                    }
                }
            },
            None => {
                self.entries.push((tenant, client));
                self.links = Ghost(new_links);
                proof {
                    assert forall|k: Seq<char>| #[trigger] self.links@.contains_key(k) implies exists|
                        j: int,
                    | 0 <= j < self.entries@.len() && #[trigger] self.entries@[j].0@ == k by {
                        if k == key {
                            assert(self.entries@[before.len() as int].0@ == k);
                        } else {
                            let j = choose|j: int|
                                0 <= j < before.len() && #[trigger] before[j].0@ == k;
                            assert(self.entries@[j].0@ == k);
                        }
                    }
                }
            },
        }
    }

    /// Ends the link of `tenant`, if it has one.
    pub fn remove(&mut self, tenant: &String)
        requires
            old(self).wf(),
        ensures
            final(self).wf(),
            final(self)@ == old(self)@.remove(tenant@),
    {
        let ghost key = tenant@;
        let ghost before = self.entries@;
        let ghost new_links = self.links@.remove(key);
        match self.position(tenant) {
            Some(i) => {
                self.entries.remove(i);
                self.links = Ghost(new_links);
                proof {
                    assert forall|j: int| 0 <= j < self.entries@.len() implies #[trigger]
                    self.links@.contains_key(self.entries@[j].0@) && self.links@[self.entries@[j].0@]
                        == self.entries@[j].1 by {
                        if j < i {
                            assert(self.entries@[j] == before[j]);
                        } else {
                            assert(self.entries@[j] == before[j + 1]);
                        }
                    }
                    assert forall|k: Seq<char>| #[trigger] self.links@.contains_key(k) implies exists|
                        j: int,
                    | 0 <= j < self.entries@.len() && #[trigger] self.entries@[j].0@ == k by {
                        let j = choose|j: int|
                                0 <= j < before.len() && #[trigger] before[j].0@ == k;
                        if j < i {
                            assert(self.entries@[j].0@ == k);
                        } else {
                            assert(j != i);
                            assert(self.entries@[j - 1].0@ == k);
                        }
                    }
                }
            },
            None => {
                proof {
                    assert(self.links@ =~= new_links);
                }
            },
        }
    }

    /// Ends every link.
    pub fn clear(&mut self)
        requires
            old(self).wf(),
        ensures
            final(self).wf(),
            final(self)@ == Map::<Seq<char>, Client>::empty(),
    {
        self.entries.clear();
        self.links = Ghost(Map::empty());
    }

    /// The connection that serves `tenant`.
    pub fn get(&self, tenant: &String) -> (r: Option<&Client>)
        requires
            self.wf(),
        ensures
            r matches Some(c) ==> self@.contains_key(tenant@) && *c == self@[tenant@],
            r is None ==> !self@.contains_key(tenant@),
    {
        match self.position(tenant) {
            Some(i) => {
                proof {
                    assert(self.links@.contains_key(self.entries@[i as int].0@));
                }
                Some(&self.entries[i].1)
            },
            None => None,
        }
    }

    /// Links `actor_id` with the settings `values`, replacing any link it
    /// had. The link is denied (false, nothing changed) when the settings
    /// lack a token or the client cannot be made.
    pub fn put_link(&mut self, actor_id: &String, values: &[(String, String)]) -> (r: bool)
        requires
            old(self).wf(),
        ensures
            final(self).wf(),
            r ==> link_established(old(self)@, final(self)@, actor_id@, values@),
            !r ==> final(self)@ == old(self)@,
            spec_token(values@) is None ==> !r,
    {
        match Config::from_values(values) {
            Ok(config) => self.link_client(actor_id, Client::new(config)),
            Err(_) => false,
        }
    }

    /// Links `actor_id` with the outcome of making its client: the client if
    /// it was made (true), else nothing (false).
    pub fn link_client(&mut self, actor_id: &String, made: Result<Client, VaultError>) -> (r: bool)
        requires
            old(self).wf(),
        ensures
            final(self).wf(),
            r == made is Ok,
            made matches Ok(c) ==> final(self)@ == old(self)@.insert(actor_id@, c),
            made is Err ==> final(self)@ == old(self)@,
    {
        match made {
            Ok(c) => {
                self.insert(actor_id.clone(), c);
                true
            },
            Err(_) => false,
        }
    }

    /// Ends the link of `actor_id`; nothing happens if it has none.
    pub fn delete_link(&mut self, actor_id: &String)
        requires
            old(self).wf(),
        ensures
            final(self).wf(),
            final(self)@ == old(self)@.remove(actor_id@),
    {
        self.remove(actor_id);
    }

    /// Ends every link at once.
    pub fn shutdown(&mut self)
        requires
            old(self).wf(),
        ensures
            final(self).wf(),
            final(self)@ == Map::<Seq<char>, Client>::empty(),
    {
        self.clear();
    }

    /// The connection that serves the tenant of a request, or the failure
    /// that every request of an unlinked tenant answers.
    pub fn get_client(&self, actor: &Option<String>) -> (r: Result<&Client, String>)
        requires
            self.wf(),
        ensures
            r matches Ok(c) ==> self@.contains_key(tenant_of(*actor)) && *c == self@[tenant_of(
                *actor,
            )],
            r matches Err(e) ==> !self@.contains_key(tenant_of(*actor)) && e@ == unlinked_text(),
            self@.contains_key(tenant_of(*actor)) <==> r is Ok,
    {
        let found = match actor {
            Some(a) => self.get(a),
            None => self.get(&String::new()),
        };
        match found {
            Some(c) => Ok(c),
            None => Err("Actor is not linked".to_owned()),
        }
    }
}

} // verus!
