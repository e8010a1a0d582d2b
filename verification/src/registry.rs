use vstd::prelude::*;
use std::any::TypeId;
use bevy::scene::SceneFilter;

verus! {

/// `std::any::TypeId`, the identifier of a component type. Nothing is
/// claimed of what is inside it.
#[verifier::external_type_specification]
#[verifier::external_body]
pub struct ExTypeId(TypeId);

/// `bevy::scene::SceneFilter`, the filter that scene extraction applies to
/// component types. Its contents are known only through
/// [`allowed_types`] and [`filter_unset`].
#[verifier::external_type_specification]
#[verifier::external_body]
pub struct ExSceneFilter(SceneFilter);

/// The component types that a filter lets through: for an allow-list the
/// types it lists, for a deny-list all others, for an unset filter all.
pub uninterp spec fn allowed_types(filter: SceneFilter) -> Set<TypeId>;

/// Whether a filter is unset, with neither an allow-list nor a deny-list.
pub uninterp spec fn filter_unset(filter: SceneFilter) -> bool;

/// `SceneFilter::deny_all` returns an empty allow-list: a filter that is
/// set and lets no type through.
pub assume_specification[ SceneFilter::deny_all ]() -> (filter: SceneFilter)
    ensures
        !filter_unset(filter),
        allowed_types(filter) == Set::<TypeId>::empty(),
;

/// `SceneFilter::allow_by_id` returns a set filter. An allow-list gains
/// the type and a deny-list loses it, so the type is let through besides
/// all that were; an unset filter becomes the allow-list of the one type.
pub assume_specification[ SceneFilter::allow_by_id ](
    filter: SceneFilter,
    type_id: TypeId,
) -> (out: SceneFilter)
    ensures
        !filter_unset(out),
        filter_unset(filter) ==> allowed_types(out) == Set::<TypeId>::empty().insert(type_id),
        !filter_unset(filter) ==> allowed_types(out) == allowed_types(filter).insert(type_id),
;

/// `SceneFilter::is_allowed_by_id` tells whether the filter lets the type
/// through.
pub assume_specification[ SceneFilter::is_allowed_by_id ](
    filter: &SceneFilter,
    type_id: TypeId,
) -> (r: bool)
    ensures
        r == allowed_types(*filter).contains(type_id),
;

/// What a registry registers, and what an allow-list admits: a set of
/// component types, and whether the child-link record is among what may be
/// saved.
pub struct Allowed {
    pub types: Set<TypeId>,
    pub children_prefab: bool,
}

/// The component types registered for editor-managed serialization.
#[derive(Debug)]
pub struct EditorRegistry {
    /// The registered component types, in the order of registration.
    pub types: Vec<TypeId>,
    /// Whether the child-link record is registered.
    pub children_prefab: bool,
}

impl View for EditorRegistry {
    type V = Allowed;

    open spec fn view(&self) -> Allowed {
        Allowed { types: self.types@.to_set(), children_prefab: self.children_prefab }
    }
}

/// The component types that may appear in a saved scene. It is a snapshot
/// of the registry taken at save time.
#[derive(Debug)]
pub struct AllowList {
    /// The filter on component types.
    pub filter: SceneFilter,
    /// Whether the child-link record may be saved.
    pub children_prefab: bool,
}

impl View for AllowList {
    type V = Allowed;

    open spec fn view(&self) -> Allowed {
        Allowed { types: allowed_types(self.filter), children_prefab: self.children_prefab }
    }
}

/// The types of a list that ends in `t` are those of the list before,
/// and `t`.
pub proof fn lemma_to_set_push(s: Seq<TypeId>, t: TypeId)
    ensures
        s.push(t).to_set() == s.to_set().insert(t),
{
    assert forall|x: TypeId| s.push(t).to_set().contains(x) <==> s.to_set().insert(t).contains(x) by {
        if s.contains(x) {
            let k = choose|k: int| 0 <= k < s.len() && s[k] == x;
            assert(s.push(t)[k] == x);
        }
        if x == t {
            assert(s.push(t)[s.len() as int] == x);
        }
    }
    assert(s.push(t).to_set() =~= s.to_set().insert(t));
}

impl EditorRegistry {
    /// A registry with nothing registered.
    pub fn new() -> (r: Self)
        ensures
            r@ == (Allowed { types: Set::<TypeId>::empty(), children_prefab: false }),
    {
        let r = EditorRegistry { types: Vec::new(), children_prefab: false };
        assert(r@.types =~= Set::<TypeId>::empty());
        r
    }

    /// Registers a component type. Registering a type twice registers it
    /// once.
    pub fn register(&mut self, type_id: TypeId)
        ensures
            final(self)@ == (Allowed { types: old(self)@.types.insert(type_id), ..old(self)@ }),
    {
        proof {
            lemma_to_set_push(self.types@, type_id);
        }
        self.types.push(type_id);
    }

    /// Registers the child-link record.
    pub fn register_children_prefab(&mut self)
        ensures
            final(self)@ == (Allowed { children_prefab: true, ..old(self)@ }),
    {
        self.children_prefab = true;
    }

    /// The allow-list of a save: exactly what is registered now. It is
    /// computed afresh on every call, so a later registration shows in the
    /// next save. An empty registry gives an allow-list that admits nothing.
    pub fn allow_list(&self) -> (allow: AllowList)
        ensures
            allow@ == self@,
    {
        let mut filter = SceneFilter::deny_all();
        let mut i: usize = 0;
        assert(self.types@.take(0).to_set() =~= Set::<TypeId>::empty());
        while i < self.types.len()
            invariant
                i <= self.types.len(),
                !filter_unset(filter),
                allowed_types(filter) == self.types@.take(i as int).to_set(),
            decreases self.types.len() - i,
        {
            let type_id = self.types[i];
            filter = filter.allow_by_id(type_id);
            proof {
                assert(self.types@.take(i + 1) =~= self.types@.take(i as int).push(type_id));
                lemma_to_set_push(self.types@.take(i as int), type_id);
            }
            i += 1;
        }
        assert(self.types@.take(i as int) =~= self.types@);
        AllowList { filter, children_prefab: self.children_prefab }
    }

    /// Whether a component type is registered.
    pub fn is_registered(&self, type_id: TypeId) -> (r: bool)
        ensures
            r == self@.types.contains(type_id),
    {
        self.allow_list().allows(type_id)
    }
}

impl AllowList {
    /// Whether the allow-list admits a component type.
    pub fn allows(&self, type_id: TypeId) -> (r: bool)
        ensures
            r == self@.types.contains(type_id),
    {
        self.filter.is_allowed_by_id(type_id)
    }
}

} // verus!
