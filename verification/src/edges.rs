//! The connections of an actor to other actors.

use std::any::TypeId;

use anymap2::any::Any;
use anymap2::Map as AnyMap;
use vstd::prelude::*;

verus! {

/// [`std::any::TypeId`], which the map goes by.
#[verifier::external_type_specification]
#[verifier::external_body]
pub struct ExTypeId(TypeId);

/// [`std::any::TypeId::of`] returns the identifier of a type. Nothing is claimed of it here.
pub assume_specification<T: ?Sized + 'static>[ std::any::TypeId::of::<T> ]() -> (id: TypeId);

/// If this is the identifier of the type `C`.
pub open spec fn identifies<C: 'static>(id: TypeId) -> bool {
    call_ensures(TypeId::of::<C>, (), id)
}

/// If the types `C` and `D` have no identifier in common.
pub open spec fn distinct<C: 'static, D: 'static>() -> bool {
    forall|id: TypeId| #[trigger] identifies::<C>(id) ==> !identifies::<D>(id)
}

/// [`std::any::TypeId::of`] returns, for every type, one identifier that no other type has. So the
/// two types have none in common exactly if that of `D` differs from the given one of `C`.
#[verifier::external_body]
fn differs<C: 'static, D: 'static>(id: &TypeId) -> (r: bool)
    requires
        identifies::<C>(*id),
    ensures
        (r == distinct::<C, D>()),
{
    *id != TypeId::of::<D>()
}

/// Returns if the types `C` and `D` are distinct, so that what is kept for one of them
/// does not depend on the other.
pub fn are_distinct<C: 'static, D: 'static>() -> (r: bool)
    ensures
        r == distinct::<C, D>(),
{
    let id = TypeId::of::<C>();
    differs::<C, D>(&id)
}

/// At most one value of every type, in an [`anymap2::Map`].
#[verifier::external_body]
pub struct Edges {
    values: AnyMap<dyn 'static + Any + Send>,
}

/// How many values there are.
pub uninterp spec fn edge_count(edges: Edges) -> nat;

/// Which value there is for the type with this identifier, told apart from others by a number that is
/// not zero, or zero if there is none.
pub uninterp spec fn slot(edges: Edges, id: TypeId) -> int;

impl Edges {
    /// If the same is kept here and there for the type `C`.
    pub open spec fn agrees<C: 'static>(self, other: Self) -> bool {
        forall|id: TypeId| #[trigger] identifies::<C>(id) ==> slot(self, id) == slot(other, id)
    }

    /// If nothing is kept for any type.
    pub open spec fn is_bare(self) -> bool {
        forall|id: TypeId| #[trigger] slot(self, id) == 0
    }

    /// If what is kept for every type but `C` is the same here and there.
    pub open spec fn agrees_but_for<C: 'static>(self, other: Self) -> bool {
        forall|id: TypeId| !identifies::<C>(id) ==> #[trigger] slot(self, id) == slot(other, id)
    }

    /// If what is kept for the type `C` is `value`: looking it up can return nothing else, here or
    /// wherever the same is kept.
    pub closed spec fn keeps<C: 'static + Send>(self, value: Option<C>) -> bool {
        forall|other: Edges, found: Option<&C>|
            self.agrees::<C>(other) && #[trigger] call_ensures(Edges::get::<C>, (&other,), found)
                ==> match value {
                Some(kept) => found == Some(&kept),
                None => found is None,
            }
    }

    /// [`anymap2::Map::new`] makes a map without values.
    #[verifier::external_body]
    pub(crate) fn new() -> (edges: Self)
        ensures
            edge_count(edges) == 0,
            forall|id: TypeId| #[trigger] slot(edges, id) == 0,
    {
        Self { values: AnyMap::new() }
    }

    /// [`anymap2::Map::get`] returns the value of the type `C`, if the map has one, which a map
    /// without values has not.
    #[verifier::external_body]
    fn get<C: 'static + Send>(&self) -> (found: Option<&C>)
        ensures
            edge_count(*self) == 0 ==> found is None,
            (forall|id: TypeId| #[trigger] identifies::<C>(id) ==> slot(*self, id) == 0)
                ==> found is None,
    {
        self.values.get::<C>()
    }

    /// [`anymap2::Map::get_mut`] returns the value of the type `C`, if the map has one, for changing
    /// it in place. It changes nothing if there is none.
    #[verifier::external_body]
    fn get_mut<C: 'static + Send>(&mut self) -> (found: Option<&mut C>)
        ensures
            edge_count(*final(self)) == edge_count(*old(self)),
            old(self).agrees_but_for::<C>(*final(self)),
            forall|kept: Option<C>| #[trigger]
                old(self).keeps(kept) ==> match found {
                    Some(value) => kept == Some(*value),
                    None => kept is None,
                },
            match found {
                Some(value) => {
                    &&& edge_count(*old(self)) > 0
                    &&& old(self).keeps(Some(*value))
                    &&& final(self).keeps(Some(*final(value)))
                },
                None => {
                    &&& old(self).keeps(None::<C>)
                    &&& *final(self) == *old(self)
                },
            },
    {
        self.values.get_mut::<C>()
    }

    /// [`anymap2::Map::insert`] sets the value of the type `C` and returns the one that it replaced,
    /// if any.
    #[verifier::external_body]
    fn insert<C: 'static + Send>(&mut self, value: C) -> (replaced: Option<C>)
        ensures
            old(self).keeps(replaced),
            forall|kept: Option<C>| #[trigger] old(self).keeps(kept) ==> kept == replaced,
            final(self).keeps(Some(value)),
            forall|id: TypeId|
                !identifies::<C>(id) ==> #[trigger] slot(*old(self), id) == slot(*final(self), id),
            edge_count(*final(self)) == edge_count(*old(self)) + (if replaced is None {
                1nat
            } else {
                0
            }),
            replaced is Some ==> edge_count(*old(self)) > 0,
    {
        self.values.insert(value)
    }

    /// [`anymap2::Map::remove`] takes the value of the type `C` out, if there is one, and returns it.
    /// It changes nothing if there is none.
    #[verifier::external_body]
    fn remove<C: 'static + Send>(&mut self) -> (removed: Option<C>)
        ensures
            old(self).keeps(removed),
            forall|kept: Option<C>| #[trigger] old(self).keeps(kept) ==> kept == removed,
            final(self).keeps(None::<C>),
            old(self).agrees_but_for::<C>(*final(self)),
            edge_count(*old(self)) == edge_count(*final(self)) + (if removed is Some {
                1nat
            } else {
                0
            }),
            removed is None ==> *final(self) == *old(self),
    {
        self.values.remove::<C>()
    }

    /// Where nothing is kept for any type, nothing is kept for the type `C`.
    pub proof fn lemma_bare<C: 'static + Send>(self)
        requires
            self.is_bare(),
        ensures
            self.keeps(None::<C>),
    {
        assert forall|other: Edges, found: Option<&C>|
            self.agrees::<C>(other) && #[trigger] call_ensures(Edges::get::<C>, (&other,), found)
            implies found is None by {
            assert forall|id: TypeId| #[trigger] identifies::<C>(id) implies slot(other, id) == 0 by {
                assert(slot(self, id) == slot(other, id));
            }
        }
    }

    /// What is kept for a type does not depend on what is kept for others.
    pub proof fn lemma_others_stay<C: 'static, D: 'static + Send>(self, other: Self, value: Option<D>)
        requires
            self.agrees_but_for::<C>(other),
            distinct::<C, D>(),
        ensures
            self.keeps(value) <==> other.keeps(value),
    {
        assert forall|id: TypeId| #[trigger] identifies::<D>(id) implies slot(self, id) == slot(
            other,
            id,
        ) by {
            assert(!identifies::<C>(id));
        }
        assert forall|third: Edges|
            self.agrees::<D>(third) <==> #[trigger] other.agrees::<D>(third) by {}
    }

    /// Looks up what is kept for the type `C`.
    pub fn find<C: 'static + Send>(&self) -> (found: Option<&C>)
        ensures
            edge_count(*self) == 0 ==> found is None,
            forall|value: Option<C>| #[trigger]
                self.keeps(value) ==> match value {
                    Some(kept) => found == Some(&kept),
                    None => found is None,
                },
    {
        self.get::<C>()
    }

    /// Lends what is kept for the type `C`, for changing it in place.
    pub fn lend<C: 'static + Send>(&mut self) -> (found: Option<&mut C>)
        ensures
            edge_count(*final(self)) == edge_count(*old(self)),
            old(self).agrees_but_for::<C>(*final(self)),
            forall|kept: Option<C>| #[trigger]
                old(self).keeps(kept) ==> match found {
                    Some(value) => kept == Some(*value),
                    None => kept is None,
                },
            match found {
                Some(value) => {
                    &&& edge_count(*old(self)) > 0
                    &&& old(self).keeps(Some(*value))
                    &&& final(self).keeps(Some(*final(value)))
                },
                None => {
                    &&& old(self).keeps(None::<C>)
                    &&& *final(self) == *old(self)
                },
            },
    {
        self.get_mut::<C>()
    }

    /// Keeps this value for the type `C`, in place of the one that was kept, if any.
    pub fn put<C: 'static + Send>(&mut self, value: C) -> (replaced: Option<C>)
        ensures
            old(self).keeps(replaced),
            forall|kept: Option<C>| #[trigger] old(self).keeps(kept) ==> kept == replaced,
            final(self).keeps(Some(value)),
            old(self).agrees_but_for::<C>(*final(self)),
            edge_count(*final(self)) == edge_count(*old(self)) + (if replaced is None {
                1nat
            } else {
                0
            }),
    {
        self.insert(value)
    }

    /// Takes out what is kept for the type `C`.
    pub fn take<C: 'static + Send>(&mut self) -> (removed: Option<C>)
        ensures
            old(self).keeps(removed),
            forall|kept: Option<C>| #[trigger] old(self).keeps(kept) ==> kept == removed,
            final(self).keeps(None::<C>),
            old(self).agrees_but_for::<C>(*final(self)),
            edge_count(*old(self)) == edge_count(*final(self)) + (if removed is Some {
                1nat
            } else {
                0
            }),
            removed is None ==> *final(self) == *old(self),
    {
        self.remove::<C>()
    }
}

/// What is kept for a type is what is found, lent, replaced and taken out for it, and what is put in
/// is kept from then on.
pub proof fn law_edges_keep<C: 'static + Send>(kept: Option<C>)
    ensures
        forall|edges: Edges, found: Option<&C>|
            edges.keeps(kept) && #[trigger] call_ensures(Edges::find::<C>, (&edges,), found) ==> {
                &&& kept is Some ==> found == Some(&kept->0)
                &&& kept is None ==> found is None
            },
        forall|edges: &mut Edges, found: Option<&mut C>|
            edges.keeps(kept) && #[trigger] call_ensures(Edges::lend::<C>, (edges,), found) ==> {
                &&& found is Some <==> kept is Some
                &&& found is Some ==> *found->0 == kept->0 && final(edges).keeps(
                    Some(*final(found->0)),
                )
                &&& found is None ==> *final(edges) == *edges
                &&& edges.agrees_but_for::<C>(*final(edges))
                &&& edge_count(*final(edges)) == edge_count(*edges)
            },
        forall|edges: &mut Edges, value: C, replaced: Option<C>|
            edges.keeps(kept) && #[trigger] call_ensures(
                Edges::put::<C>,
                (edges, value),
                replaced,
            ) ==> {
                &&& replaced == kept
                &&& final(edges).keeps(Some(value))
                &&& edges.agrees_but_for::<C>(*final(edges))
                &&& edge_count(*final(edges)) == edge_count(*edges) + (if kept is None {
                    1nat
                } else {
                    0
                })
            },
        forall|edges: &mut Edges, removed: Option<C>|
            edges.keeps(kept) && #[trigger] call_ensures(Edges::take::<C>, (edges,), removed) ==> {
                &&& removed == kept
                &&& final(edges).keeps(None::<C>)
                &&& edges.agrees_but_for::<C>(*final(edges))
                &&& edge_count(*final(edges)) + (if kept is None {
                    0nat
                } else {
                    1
                }) == edge_count(*edges)
            },
{
}

/// What is kept is what a lookup returns, wherever the same is kept for the type.
proof fn law_kept_is_what_is_looked_up<C: 'static + Send>(
    edges: Edges,
    value: Option<C>,
    other: Edges,
    found: Option<&C>,
)
    requires
        edges.keeps(value),
        call_ensures(Edges::get::<C>, (&other,), found),
        forall|id: TypeId| #[trigger]
            call_ensures(TypeId::of::<C>, (), id) ==> slot(edges, id) == slot(other, id),
    ensures
        found is Some <==> value is Some,
        found is Some ==> *found->0 == value->0,
{
    assert(edges.agrees::<C>(other));
}

/// Types are told apart by their identifiers, and what is kept for a type goes by its identifiers
/// alone.
pub proof fn law_types_are_told_apart<C: 'static, D: 'static>(before: Edges, after: Edges)
    ensures
        forall|r: bool| #[trigger]
            call_ensures(are_distinct::<C, D>, (), r) ==> (r <==> !exists|id: TypeId|
                #[trigger] call_ensures(TypeId::of::<C>, (), id) && call_ensures(
                    TypeId::of::<D>,
                    (),
                    id,
                )),
        before.agrees_but_for::<C>(after) <==> forall|id: TypeId|
            !call_ensures(TypeId::of::<C>, (), id) ==> #[trigger] slot(before, id) == slot(
                after,
                id,
            ),
        before.is_bare() <==> forall|id: TypeId| #[trigger] slot(before, id) == 0,
{
    assert forall|id: TypeId| #[trigger] call_ensures(TypeId::of::<C>, (), id) && call_ensures(
        TypeId::of::<D>,
        (),
        id,
    ) implies !distinct::<C, D>() by {
        assert(identifies::<C>(id));
    }
}

} // verus!
