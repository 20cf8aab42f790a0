//! User profiles: how a new profile is built, how an update applies, and the
//! user service's repository.
use vstd::prelude::*;
use vstd::string::*;

use crate::account_service::{is_single_string_selector, string_selector};
use crate::common::{is_uuid_v4_text, new_document_id, USERS};
use crate::entity::{Entity, EntityUpdate, OwnerInfo};
use crate::json::JsonValue;
use crate::repository::Repository;

verus! {

#[derive(Debug, Clone, Copy, PartialEq, Eq, Structural)]
pub enum Gender {
    Male,
    Female,
    Other,
}

#[derive(Debug, Clone, Copy, PartialEq, Eq, Structural)]
pub enum IdentityType {
    Citizenship,
    License,
    Passport,
}

#[derive(Debug)]
pub struct Address {
    pub district: String,
    pub municipality_vdc: String,
    pub ward: String,
    pub tole: String,
}

impl Address {
    /// A copy of the address, field for field.
    pub fn duplicate(&self) -> (r: Address)
        ensures
            r == *self,
    {
        Address {
            district: self.district.clone(),
            municipality_vdc: self.municipality_vdc.clone(),
            ward: self.ward.clone(),
            tole: self.tole.clone(),
        }
    }
}

/// A stored user profile.
#[derive(Debug)]
pub struct User {
    pub email: Option<String>,
    pub _id: String,
    pub _rev: String,
    pub owner_id: String,
    pub account_id: Option<String>,
    pub entity_type: String,
    pub full_name: String,
    pub address: Option<Address>,
    pub nationality: String,
    pub id_images: Option<Vec<String>>,
    pub gender: Gender,
    pub identity_type: IdentityType,
    pub identity_id: String,
    pub issue_date: i64,
    pub dob: i64,
    pub mobile_no: Option<String>,
}

/// A profile as submitted for creation.
#[derive(Debug)]
pub struct NewUser {
    pub id: Option<String>,
    pub email: Option<String>,
    pub full_name: String,
    pub address: Option<Address>,
    pub id_images: Option<Vec<String>>,
    pub account_id: Option<String>,
    pub owner_id: Option<String>,
    pub is_self: bool,
    pub gender: Gender,
    pub identity_type: IdentityType,
    pub mobile_no: Option<String>,
    pub identity_id: String,
    pub issue_date: i64,
    pub dob: i64,
}

/// The nationality every new profile is recorded with.
pub const DEFAULT_NATIONALITY: &'static str = "Nepali";

impl NewUser {
    /// The submission as made by the account `account_id`: that account owns
    /// the profile, and it is linked to the account only when it is the
    /// account holder's own profile.
    pub fn owned_by(self, account_id: String) -> (r: NewUser)
        ensures
            r.owner_id matches Some(o) && o@ == account_id@,
            self.is_self ==> r.account_id == Some(account_id),
            !self.is_self ==> r.account_id is None,
            r.id == self.id,
            r.email == self.email,
            r.full_name == self.full_name,
            r.address == self.address,
            r.id_images == self.id_images,
            r.is_self == self.is_self,
            r.gender == self.gender,
            r.identity_type == self.identity_type,
            r.mobile_no == self.mobile_no,
            r.identity_id == self.identity_id,
            r.issue_date == self.issue_date,
            r.dob == self.dob,
    {
        let mut new_user = self;
        new_user.owner_id = Some(account_id.clone());
        new_user.account_id = match new_user.is_self {
            true => Some(account_id),
            false => None,
        };
        new_user
    }
}

impl User {
    /// The stored profile for a submission: its id if it gave one, else a
    /// fresh one; its owner; the nationality `Nepali`; everything else as
    /// submitted.
    pub fn from_new_user(user: NewUser) -> (r: User)
        requires
            user.owner_id is Some,
        ensures
            user.id matches Some(i) ==> r._id == i,
            user.id is None ==> is_uuid_v4_text(r._id@),
            r._rev@ == Seq::<char>::empty(),
            r.email == user.email,
            r.owner_id == user.owner_id.unwrap(),
            r.account_id == user.account_id,
            r.entity_type@ == USERS@,
            r.full_name == user.full_name,
            r.address == user.address,
            r.id_images == user.id_images,
            r.gender == user.gender,
            r.identity_type == user.identity_type,
            r.identity_id == user.identity_id,
            r.nationality@ == DEFAULT_NATIONALITY@,
            r.mobile_no == user.mobile_no,
            r.issue_date == user.issue_date,
            r.dob == user.dob,
    {
        let fresh = new_document_id();
        let owner = match user.owner_id {
            Some(o) => o,
            None => String::new(),
        };
        User {
            _id: match user.id {
                Some(i) => i,
                None => fresh,
            },
            _rev: String::new(),
            email: user.email,
            owner_id: owner,
            account_id: user.account_id,
            entity_type: String::from_str(USERS),
            full_name: user.full_name,
            address: user.address,
            id_images: user.id_images,
            gender: user.gender,
            identity_type: user.identity_type,
            identity_id: user.identity_id,
            nationality: String::from_str(DEFAULT_NATIONALITY),
            mobile_no: user.mobile_no,
            issue_date: user.issue_date,
            dob: user.dob,
        }
    }
}

impl Entity for User {
    open spec fn entity_type_of(&self) -> Seq<char> {
        self.entity_type@
    }

    open spec fn agrees_apart_from_entity_type(&self, other: &Self) -> bool {
        &&& self.email == other.email
        &&& self._id == other._id
        &&& self._rev == other._rev
        &&& self.owner_id == other.owner_id
        &&& self.account_id == other.account_id
        &&& self.full_name == other.full_name
        &&& self.address == other.address
        &&& self.nationality == other.nationality
        &&& self.id_images == other.id_images
        &&& self.gender == other.gender
        &&& self.identity_type == other.identity_type
        &&& self.identity_id == other.identity_id
        &&& self.issue_date == other.issue_date
        &&& self.dob == other.dob
        &&& self.mobile_no == other.mobile_no
    }

    fn get_entity_type(&self) -> (r: String) {
        self.entity_type.clone()
    }

    fn set_entity_type(&mut self, entity_type: &str) {
        self.entity_type = String::from_str(entity_type);
    }
}

impl OwnerInfo for User {
    open spec fn owner_id_of(&self) -> Seq<char> {
        self.owner_id@
    }

    fn get_owner_id(&self) -> (r: &str) {
        self.owner_id.as_str()
    }

    fn set_owner_id(&mut self, owner_id: &str)
        ensures
            final(self).email == old(self).email,
            final(self)._id == old(self)._id,
            final(self)._rev == old(self)._rev,
            final(self).entity_type == old(self).entity_type,
            final(self).account_id == old(self).account_id,
            final(self).full_name == old(self).full_name,
            final(self).address == old(self).address,
            final(self).nationality == old(self).nationality,
            final(self).id_images == old(self).id_images,
            final(self).gender == old(self).gender,
            final(self).identity_type == old(self).identity_type,
            final(self).identity_id == old(self).identity_id,
            final(self).issue_date == old(self).issue_date,
            final(self).dob == old(self).dob,
            final(self).mobile_no == old(self).mobile_no,
    {
        self.owner_id = String::from_str(owner_id);
    }
}

/// An update of a user profile. `age` and `permanent_address` are accepted
/// but not applied; `temporary_address` replaces the profile's address.
#[derive(Debug)]
pub struct UserUpdate {
    pub email: Option<String>,
    pub full_name: Option<String>,
    pub age: Option<u8>,
    pub temporary_address: Option<Address>,
    pub permanent_address: Option<Address>,
    pub gender: Option<Gender>,
    pub identity_type: Option<IdentityType>,
    pub identity_id: Option<String>,
    pub issue_date: Option<i64>,
    pub id_images: Option<Vec<String>>,
    pub mobile_no: Option<String>,
    pub dob: Option<i64>,
}

/// The profile's image list after an update giving `given`.
pub open spec fn images_after(given: Option<Vec<String>>, before: Option<Vec<String>>, after: Option<Vec<String>>) -> bool {
    match given {
        Some(g) => after matches Some(a) && a@ == g@,
        None => after == before,
    }
}

impl EntityUpdate<User> for UserUpdate {
    open spec fn applied(&self, before: User, after: User) -> bool {
        &&& after._id == before._id
        &&& after._rev == before._rev
        &&& after.owner_id == before.owner_id
        &&& after.account_id == before.account_id
        &&& after.entity_type == before.entity_type
        &&& after.nationality == before.nationality
        &&& after.identity_id == before.identity_id
        &&& after.email == match self.email {
            Some(e) => Some(e),
            None => before.email,
        }
        &&& after.full_name@ == match self.full_name {
            Some(n) => n@,
            None => before.full_name@,
        }
        &&& after.address == match self.temporary_address {
            Some(a) => Some(a),
            None => before.address,
        }
        &&& after.gender == match self.gender {
            Some(g) => g,
            None => before.gender,
        }
        &&& after.identity_type == match self.identity_type {
            Some(t) => t,
            None => before.identity_type,
        }
        &&& after.issue_date == match self.issue_date {
            Some(d) => d,
            None => before.issue_date,
        }
        &&& images_after(self.id_images, before.id_images, after.id_images)
        &&& after.mobile_no == match self.mobile_no {
            Some(m) => Some(m),
            None => before.mobile_no,
        }
        &&& after.dob == match self.dob {
            Some(d) => d,
            None => before.dob,
        }
    }

    fn apply_update<'c>(&self, stale: &'c mut User) -> (r: &'c mut User) {
        if let Some(email) = &self.email {
            stale.email = Some(email.clone());
        }
        if let Some(full_name) = &self.full_name {
            stale.full_name = String::from_str(full_name.as_str());
        }
        if let Some(address) = &self.temporary_address {
            stale.address = Some(address.duplicate());
        }
        if let Some(gender) = &self.gender {
            stale.gender = *gender;
        }
        if let Some(identity_type) = &self.identity_type {
            stale.identity_type = *identity_type;
        }
        if let Some(issue_date) = &self.issue_date {
            stale.issue_date = *issue_date;
        }
        if let Some(id_images) = &self.id_images {
            let copied = id_images.clone();
            proof {
                assert(copied@ =~= id_images@);
            }
            stale.id_images = Some(copied);
        }
        if let Some(mobile_no) = &self.mobile_no {
            stale.mobile_no = Some(mobile_no.clone());
        }
        if let Some(dob) = &self.dob {
            stale.dob = *dob;
        }
        stale
    }
}

/// The repository of user profiles.
#[derive(Debug)]
pub struct UserService {
    pub repo: Repository<User, UserUpdate>,
}

impl UserService {
    pub fn new(repo: Repository<User, UserUpdate>) -> (r: Self)
        ensures
            r.repo == repo,
    {
        UserService { repo }
    }

    pub fn repo(&self) -> (r: &Repository<User, UserUpdate>)
        ensures
            r == &self.repo,
    {
        &self.repo
    }

    /// The selector of the profile linked to the account `account_id`.
    pub fn account_selector(account_id: String) -> (r: JsonValue)
        ensures
            is_single_string_selector(r, "account_id"@, account_id@),
    {
        string_selector("account_id", account_id)
    }
}

/// The user service over the `users` collection.
pub fn user_service_factory() -> (r: UserService)
    ensures
        r.repo.collection@ == USERS@,
{
    UserService::new(Repository::new(String::from_str(USERS)))
}

/// Sending a profile update twice has the effect of sending it once.
pub proof fn lemma_user_update_idempotent(u: UserUpdate, a: User, b: User, c: User)
    requires
        u.applied(a, b),
        u.applied(b, c),
    ensures
        c.email == b.email,
        c.full_name@ == b.full_name@,
        c.address == b.address,
        c.gender == b.gender,
        c.identity_type == b.identity_type,
        c.issue_date == b.issue_date,
        c.mobile_no == b.mobile_no,
        c.dob == b.dob,
        c.id_images is Some <==> b.id_images is Some,
        c.id_images is Some ==> c.id_images.unwrap()@ == b.id_images.unwrap()@,
        c._id == b._id,
        c.owner_id == b.owner_id,
        c.account_id == b.account_id,
{
}

/// A profile update never changes who owns the profile, which account it is
/// linked to, or its id.
pub proof fn lemma_user_update_keeps_ownership(u: UserUpdate, a: User, b: User)
    requires
        u.applied(a, b),
    ensures
        b.owner_id == a.owner_id,
        b.account_id == a.account_id,
        b._id == a._id,
{
}

/// A profile update writes every field it gives: once applied, the profile
/// holds each value the update carries, whatever else the update says, and
/// keeps each field the update leaves out.
pub proof fn lemma_user_update_writes_given_fields(u: UserUpdate, before: User, after: User)
    requires
        u.applied(before, after),
    ensures
        u.email matches Some(e) ==> after.email == Some(e),
        u.email is None ==> after.email == before.email,
        u.full_name matches Some(n) ==> after.full_name@ == n@,
        u.full_name is None ==> after.full_name@ == before.full_name@,
        u.temporary_address matches Some(a) ==> after.address == Some(a),
        u.temporary_address is None ==> after.address == before.address,
        u.gender matches Some(g) ==> after.gender == g,
        u.gender is None ==> after.gender == before.gender,
        u.identity_type matches Some(t) ==> after.identity_type == t,
        u.identity_type is None ==> after.identity_type == before.identity_type,
        u.issue_date matches Some(d) ==> after.issue_date == d,
        u.issue_date is None ==> after.issue_date == before.issue_date,
        u.id_images matches Some(i) ==> (after.id_images matches Some(a) && a@ == i@),
        u.id_images is None ==> after.id_images == before.id_images,
        u.mobile_no matches Some(m) ==> after.mobile_no == Some(m),
        u.mobile_no is None ==> after.mobile_no == before.mobile_no,
        u.dob matches Some(d) ==> after.dob == d,
        u.dob is None ==> after.dob == before.dob,
{
}

} // verus!
