//! What every stored document offers: its entity type, its owner, and how an
//! update record is applied to it.
use vstd::prelude::*;

verus! {

/// A document kept in the store, tagged with the collection it belongs to.
pub trait Entity: Sized {
    /// The entity type the document is tagged with.
    spec fn entity_type_of(&self) -> Seq<char>;

    /// The two documents agree on every field but the entity type.
    spec fn agrees_apart_from_entity_type(&self, other: &Self) -> bool;

    fn get_entity_type(&self) -> (r: String)
        ensures
            r@ == self.entity_type_of(),
    ;

    /// Tags the document with `entity_type`, leaving every other field as it
    /// was.
    fn set_entity_type(&mut self, entity_type: &str)
        ensures
            final(self).entity_type_of() == entity_type@,
            final(self).agrees_apart_from_entity_type(old(self)),
    ;
}

/// An update record for documents of type `T`.
pub trait EntityUpdate<T: Entity>: Sized {
    /// `after` is a possible result of applying this update to `before`.
    spec fn applied(&self, before: T, after: T) -> bool;

    fn apply_update<'c>(&self, stale: &'c mut T) -> (r: &'c mut T)
        ensures
            self.applied(*old(stale), *r),
            *final(stale) == *final(r),
    ;
}

/// A document that records the account that owns it.
pub trait OwnerInfo: Sized {
    /// The id of the owning account.
    spec fn owner_id_of(&self) -> Seq<char>;

    fn get_owner_id(&self) -> (r: &str)
        ensures
            r@ == self.owner_id_of(),
    ;

    fn set_owner_id(&mut self, owner_id: &str)
        ensures
            final(self).owner_id_of() == owner_id@,
    ;
}

} // verus!
