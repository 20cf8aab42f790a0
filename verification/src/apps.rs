//! Apps (tenants) and the domains they are served under.
use vstd::prelude::*;
use vstd::string::*;

use crate::entity::{Entity, EntityUpdate, OwnerInfo};
use crate::json::{single_member_object, JsonValue};

verus! {

/// A stored app: the institute it belongs to and the domains it is served
/// under.
#[derive(Debug)]
pub struct App {
    pub _id: String,
    pub _rev: String,
    pub institute_id: String,
    pub domains: Vec<String>,
    pub created_on: u64,
    pub owner_id: String,
    pub entity_type: String,
}

/// An update of an app: new domains and a new institute, each only when
/// given.
#[derive(Debug)]
pub struct AppUpdate {
    pub domains: Option<Vec<String>>,
    pub institute_id: Option<String>,
}

impl EntityUpdate<App> for AppUpdate {
    open spec fn applied(&self, before: App, after: App) -> bool {
        &&& after._id == before._id
        &&& after._rev == before._rev
        &&& after.created_on == before.created_on
        &&& after.owner_id == before.owner_id
        &&& after.entity_type == before.entity_type
        &&& after.domains@ == match self.domains {
            Some(d) => d@,
            None => before.domains@,
        }
        &&& after.institute_id == match self.institute_id {
            Some(i) => i,
            None => before.institute_id,
        }
    }

    fn apply_update<'c>(&self, stale: &'c mut App) -> (r: &'c mut App) {
        if let Some(domain) = &self.domains {
            let copied = domain.clone();
            proof {
                assert(copied@ =~= domain@);
            }
            stale.domains = copied;
        }
        if let Some(institute_id) = &self.institute_id {
            stale.institute_id = institute_id.clone()
        }
        stale
    }
}

impl Entity for App {
    open spec fn entity_type_of(&self) -> Seq<char> {
        self.entity_type@
    }

    open spec fn agrees_apart_from_entity_type(&self, other: &Self) -> bool {
        &&& self._id == other._id
        &&& self._rev == other._rev
        &&& self.institute_id == other.institute_id
        &&& self.domains == other.domains
        &&& self.created_on == other.created_on
        &&& self.owner_id == other.owner_id
    }

    fn get_entity_type(&self) -> (r: String) {
        self.entity_type.clone()
    }

    fn set_entity_type(&mut self, entity_type: &str) {
        self.entity_type = String::from_str(entity_type);
    }
}

impl OwnerInfo for App {
    open spec fn owner_id_of(&self) -> Seq<char> {
        self.owner_id@
    }

    fn get_owner_id(&self) -> (r: &str) {
        self.owner_id.as_str()
    }

    fn set_owner_id(&mut self, owner_id: &str)
        ensures
            final(self)._id == old(self)._id,
            final(self)._rev == old(self)._rev,
            final(self).institute_id == old(self).institute_id,
            final(self).domains == old(self).domains,
            final(self).created_on == old(self).created_on,
            final(self).entity_type == old(self).entity_type,
    {
        self.owner_id = String::from_str(owner_id);
    }
}

/// `v` is the selector `{"domains": {"$elemMatch": {"$eq": domain}}}`: the
/// apps that list `domain` among their domains.
pub open spec fn is_domain_selector(v: JsonValue, domain: Seq<char>) -> bool {
    &&& v matches JsonValue::Object(m)
    &&& m@.len() == 1
    &&& m@[0].0@ == "domains"@
    &&& m@[0].1 matches JsonValue::Object(elem)
    &&& elem@.len() == 1
    &&& elem@[0].0@ == "$elemMatch"@
    &&& elem@[0].1 matches JsonValue::Object(eq)
    &&& eq@.len() == 1
    &&& eq@[0].0@ == "$eq"@
    &&& eq@[0].1 matches JsonValue::Str(d)
    &&& d@ == domain
}

impl App {
    /// The selector of the apps served under `domain`.
    pub fn domain_selector(domain: &str) -> (r: JsonValue)
        ensures
            is_domain_selector(r, domain@),
    {
        let eq = single_member_object(String::from_str("$eq"), JsonValue::Str(String::from_str(domain)));
        let elem = single_member_object(String::from_str("$elemMatch"), eq);
        single_member_object(String::from_str("domains"), elem)
    }

    /// The app chosen among those found for a domain: the last one, if any.
    pub fn pick_found(apps: Vec<App>) -> (r: Option<App>)
        ensures
            apps@.len() == 0 ==> r is None,
            apps@.len() > 0 ==> r == Some(apps@.last()),
    {
        let mut a = apps;
        a.pop()
    }
}

/// Sending an app update twice has the effect of sending it once.
pub proof fn lemma_app_update_idempotent(u: AppUpdate, a: App, b: App, c: App)
    requires
        u.applied(a, b),
        u.applied(b, c),
    ensures
        c.domains@ == b.domains@,
        c.institute_id == b.institute_id,
        c._id == b._id,
        c._rev == b._rev,
        c.created_on == b.created_on,
        c.owner_id == b.owner_id,
        c.entity_type == b.entity_type,
{
}

} // verus!
