//! Repositories of typed documents and the find queries they send to the
//! document store.
use vstd::prelude::*;
use vstd::string::*;
use core::marker::PhantomData;

use crate::entity::{Entity, EntityUpdate};
use crate::json::{get_member, lemma_members_inserted, insert_member, members_inserted, single_member_object, unique_keys, JsonValue, Members};

verus! {

/// The selector key under which a document's entity type is matched.
pub const ENTITY_TYPE_KEY: &'static str = "entity_type";

/// How many documents a bulk update or delete selects at most.
pub const BULK_LIMIT: u64 = 1000000;

/// A find request: the selector documents must match, how many to return at
/// most, and how many to skip first.
#[derive(Debug)]
pub struct FindQuery {
    pub selector: JsonValue,
    pub limit: Option<u64>,
    pub skip: Option<u64>,
}

impl FindQuery {
    /// A query with the given selector and no limit or skip.
    pub fn new(selector: JsonValue) -> (r: FindQuery)
        ensures
            r.selector == selector,
            r.limit is None,
            r.skip is None,
    {
        FindQuery { selector, limit: None, skip: None }
    }

    /// The selector that matches every document: `{"_id": {"$ne": null}}`.
    pub fn select_all() -> (r: JsonValue)
        ensures
            is_select_all(r),
    {
        let inner = single_member_object(String::from_str("$ne"), JsonValue::Null);
        single_member_object(String::from_str("_id"), inner)
    }

    /// A query that selects every document, with no limit or skip.
    pub fn find_all() -> (r: FindQuery)
        ensures
            is_select_all(r.selector),
            r.limit is None,
            r.skip is None,
    {
        FindQuery::new(Self::select_all())
    }

    /// The same query with the limit set.
    pub fn limit(self, limit: u64) -> (r: FindQuery)
        ensures
            r.selector == self.selector,
            r.limit == Some(limit),
            r.skip == self.skip,
    {
        FindQuery { limit: Some(limit), ..self }
    }

    /// The same query with the skip set.
    pub fn skip(self, skip: u64) -> (r: FindQuery)
        ensures
            r.selector == self.selector,
            r.limit == self.limit,
            r.skip == Some(skip),
    {
        FindQuery { skip: Some(skip), ..self }
    }
}

/// `v` is the selector `{"_id": {"$ne": null}}`.
pub open spec fn is_select_all(v: JsonValue) -> bool {
    &&& v matches JsonValue::Object(m)
    &&& m@.len() == 1
    &&& m@[0].0@ == "_id"@
    &&& m@[0].1 matches JsonValue::Object(inner)
    &&& inner@.len() == 1
    &&& inner@[0].0@ == "$ne"@
    &&& inner@[0].1 is Null
}

/// A JSON value whose members, if it is an object, have distinct keys.
pub open spec fn object_keys_unique(v: JsonValue) -> bool {
    v matches JsonValue::Object(m) ==> unique_keys(m@)
}

/// The members of a selector: those of an object, none for anything else.
pub open spec fn selector_members(v: JsonValue) -> Members {
    match v {
        JsonValue::Object(m) => m@,
        _ => Seq::empty(),
    }
}

/// Turns `selector` into an object, keeping its members if it is one, and
/// sets member `key` to the string `value`.
pub fn set_selector_string(selector: JsonValue, key: String, value: String) -> (r: JsonValue)
    requires
        object_keys_unique(selector),
    ensures
        r matches JsonValue::Object(m) && members_inserted(
            selector_members(selector),
            key@,
            JsonValue::Str(value),
            m@,
        ) && unique_keys(m@),
{
    let mut members: Vec<(String, JsonValue)> = match selector {
        JsonValue::Object(m) => m,
        _ => Vec::new(),
    };
    insert_member(&mut members, key, JsonValue::Str(value));
    JsonValue::Object(members)
}

/// A repository of documents of type `T`, updated with records of type `U`,
/// kept in the collection `collection`.
#[derive(Debug)]
pub struct Repository<T: Entity, U: EntityUpdate<T>> {
    pub collection: String,
    pub phantom: PhantomData<T>,
    pub phantomu: PhantomData<U>,
}

impl<T: Entity, U: EntityUpdate<T>> Repository<T, U> {
    pub fn new(collection: String) -> (r: Self)
        ensures
            r.collection == collection,
    {
        Repository { collection, phantom: PhantomData, phantomu: PhantomData }
    }

    /// The name of the collection.
    pub fn collection(&self) -> (r: String)
        ensures
            r == self.collection,
    {
        self.collection.clone()
    }

    /// The selector restricted to this repository's documents: the members
    /// of `selector` (none unless it is an object) with `entity_type` set to
    /// the collection name.
    pub fn set_entity_selector(&self, selector: JsonValue) -> (r: JsonValue)
        requires
            object_keys_unique(selector),
        ensures
            r matches JsonValue::Object(m) && members_inserted(
                selector_members(selector),
                ENTITY_TYPE_KEY@,
                JsonValue::Str(self.collection),
                m@,
            ) && unique_keys(m@),
    {
        set_selector_string(selector, String::from_str(ENTITY_TYPE_KEY), self.collection())
    }

    /// A find request restricted to this repository's documents.
    pub fn restrict(&self, query: FindQuery) -> (r: FindQuery)
        requires
            object_keys_unique(query.selector),
        ensures
            r.limit == query.limit,
            r.skip == query.skip,
            r.selector matches JsonValue::Object(m) && members_inserted(
                selector_members(query.selector),
                ENTITY_TYPE_KEY@,
                JsonValue::Str(self.collection),
                m@,
            ) && unique_keys(m@),
    {
        let FindQuery { selector, limit, skip } = query;
        FindQuery { selector: self.set_entity_selector(selector), limit, skip }
    }

    /// The request for at most one of this repository's documents matching
    /// `selector`.
    pub fn find_one_query(&self, selector: JsonValue) -> (r: FindQuery)
        requires
            object_keys_unique(selector),
        ensures
            r.limit == Some(1u64),
            r.skip == Some(0u64),
            r.selector matches JsonValue::Object(m) && members_inserted(
                selector_members(selector),
                ENTITY_TYPE_KEY@,
                JsonValue::Str(self.collection),
                m@,
            ) && unique_keys(m@),
    {
        let q = FindQuery::new(selector).limit(1).skip(0);
        self.restrict(q)
    }

    /// The request for all of this repository's documents matching
    /// `selector`, as bulk updates and deletes select them.
    pub fn bulk_query(&self, selector: JsonValue) -> (r: FindQuery)
        requires
            object_keys_unique(selector),
        ensures
            r.limit == Some(BULK_LIMIT),
            r.skip == Some(0u64),
            r.selector matches JsonValue::Object(m) && members_inserted(
                selector_members(selector),
                ENTITY_TYPE_KEY@,
                JsonValue::Str(self.collection),
                m@,
            ) && unique_keys(m@),
    {
        let q = FindQuery::new(selector).limit(BULK_LIMIT).skip(0);
        self.restrict(q)
    }

    /// Tags a document about to be created with this repository's
    /// collection.
    pub fn prepare_create(&self, item: &mut T)
        ensures
            final(item).entity_type_of() == self.collection@,
    {
        let collection = self.collection();
        item.set_entity_type(collection.as_str());
    }

}

/// Every query a repository sends selects only documents of its collection,
/// and keeps every other condition of the caller's selector: the restricted
/// selector maps `entity_type` to the collection name, and every other key to
/// what the caller's selector mapped it to.
pub proof fn lemma_restricted_selector(before: Members, collection: String, after: Members)
    requires
        unique_keys(before),
        members_inserted(before, ENTITY_TYPE_KEY@, JsonValue::Str(collection), after),
    ensures
        get_member(after, ENTITY_TYPE_KEY@) == Some(JsonValue::Str(collection)),
        forall|k: Seq<char>| k != ENTITY_TYPE_KEY@ ==> get_member(after, k) == get_member(before, k),
        unique_keys(after),
{
    lemma_members_inserted(before, ENTITY_TYPE_KEY@, JsonValue::Str(collection), after);
}

/// Restricting a selector that is already restricted to the collection
/// selects the same documents again.
pub proof fn lemma_restrict_idempotent(before: Members, collection: String, once: Members, twice: Members)
    requires
        unique_keys(before),
        members_inserted(before, ENTITY_TYPE_KEY@, JsonValue::Str(collection), once),
        members_inserted(once, ENTITY_TYPE_KEY@, JsonValue::Str(collection), twice),
    ensures
        forall|k: Seq<char>| get_member(twice, k) == get_member(once, k),
{
    lemma_members_inserted(before, ENTITY_TYPE_KEY@, JsonValue::Str(collection), once);
    lemma_members_inserted(once, ENTITY_TYPE_KEY@, JsonValue::Str(collection), twice);
}

} // verus!
