use vstd::prelude::*;
use std::any::TypeId;
use crate::children::ChildrenPrefab;

verus! {

/// A typed value attached to an entity. The type is known by its
/// identifier; the value is carried as text.
#[derive(Debug)]
pub struct Component {
    pub type_id: TypeId,
    pub value: String,
}

/// Mathematical value of a [`Component`].
pub struct ComponentView {
    pub type_id: TypeId,
    pub value: Seq<char>,
}

impl View for Component {
    type V = ComponentView;

    open spec fn view(&self) -> ComponentView {
        ComponentView { type_id: self.type_id, value: self.value@ }
    }
}

impl Component {
    /// An independent copy of the component.
    pub fn duplicate(&self) -> (copy: Self)
        ensures
            copy@ == self@,
    {
        Component { type_id: self.type_id, value: self.value.clone() }
    }
}

/// One row of the live store.
#[derive(Debug)]
pub struct EntityRecord {
    /// Runtime identifier of the entity.
    pub id: u64,
    /// The save marker: the entity is eligible as a save root.
    pub prefab_marker: bool,
    /// The entity is a byproduct of another prefab's instantiation.
    pub scene_auto_child: bool,
    /// Direct children, in sibling order.
    pub children: Vec<u64>,
    /// The components attached to the entity.
    pub components: Vec<Component>,
    /// The transient child-link record, present only during a save.
    pub children_prefab: Option<ChildrenPrefab>,
}

/// Mathematical value of an [`EntityRecord`].
pub struct EntityView {
    pub id: u64,
    pub prefab_marker: bool,
    pub scene_auto_child: bool,
    pub children: Seq<u64>,
    pub components: Seq<ComponentView>,
    pub children_prefab: Option<Seq<u64>>,
}

/// The values of a sequence of components, in order.
pub open spec fn component_views(s: Seq<Component>) -> Seq<ComponentView> {
    s.map_values(|c: Component| c@)
}

/// The value of an optional child-link record.
pub open spec fn link_view(link: Option<ChildrenPrefab>) -> Option<Seq<u64>> {
    match link {
        Some(p) => Some(p@),
        None => None,
    }
}

impl View for EntityRecord {
    type V = EntityView;

    open spec fn view(&self) -> EntityView {
        EntityView {
            id: self.id,
            prefab_marker: self.prefab_marker,
            scene_auto_child: self.scene_auto_child,
            children: self.children@,
            components: component_views(self.components@),
            children_prefab: link_view(self.children_prefab),
        }
    }
}

/// The live store: its entities in storage order.
#[derive(Debug)]
pub struct World {
    pub entities: Vec<EntityRecord>,
}

impl View for World {
    type V = Seq<EntityView>;

    open spec fn view(&self) -> Seq<EntityView> {
        self.entities@.map_values(|e: EntityRecord| e@)
    }
}

/// An entity is a save root when it carries the save marker and is not an
/// auto-generated child.
pub open spec fn is_root(e: EntityView) -> bool {
    e.prefab_marker && !e.scene_auto_child
}

/// The save roots of a world, in storage order.
pub open spec fn roots(w: Seq<EntityView>) -> Seq<EntityView> {
    w.filter(|e: EntityView| is_root(e))
}

/// Whether capture attaches a child-link record to the entity.
pub open spec fn captures(e: EntityView) -> bool {
    is_root(e) && e.children.len() > 0
}

/// The entity after child-link capture.
pub open spec fn prepared_entity(e: EntityView) -> EntityView {
    if captures(e) {
        EntityView { children_prefab: Some(e.children), ..e }
    } else {
        e
    }
}

/// The world after child-link capture.
pub open spec fn prepared(w: Seq<EntityView>) -> Seq<EntityView> {
    w.map_values(|e: EntityView| prepared_entity(e))
}

/// The entity without its child-link record.
pub open spec fn cleared_entity(e: EntityView) -> EntityView {
    EntityView { children_prefab: None, ..e }
}

/// The world with every child-link record removed.
pub open spec fn cleared(w: Seq<EntityView>) -> Seq<EntityView> {
    w.map_values(|e: EntityView| cleared_entity(e))
}

/// No entity of the world carries a child-link record.
pub open spec fn no_child_links(w: Seq<EntityView>) -> bool {
    forall|i: int| 0 <= i < w.len() ==> (#[trigger] w[i]).children_prefab is None
}

/// The number of child-link records attached in the world.
pub open spec fn child_link_count(w: Seq<EntityView>) -> nat {
    w.filter(|e: EntityView| e.children_prefab is Some).len()
}

impl EntityRecord {
    /// Whether the entity is a save root.
    pub fn is_save_root(&self) -> (r: bool)
        ensures
            r == is_root(self@),
    {
        self.prefab_marker && !self.scene_auto_child
    }
}

impl World {
    /// An empty world.
    pub fn new() -> (w: World)
        ensures
            w.entities@ == Seq::<EntityRecord>::empty(),
            w@ == Seq::<EntityView>::empty(),
    {
        let w = World { entities: Vec::new() };
        assert(w@ =~= Seq::<EntityView>::empty());
        w
    }
}

/// Child-link capture: every save root with at least one direct child
/// receives a record listing its children in sibling order. Nothing else
/// in the world changes.
pub fn prepare_children(world: &mut World)
    ensures
        final(world)@ == prepared(old(world)@),
{
    let n = world.entities.len();
    let mut i: usize = 0;
    while i < n
        invariant
            i <= n,
            world.entities.len() == n,
            old(world).entities.len() == n,
            forall|j: int| 0 <= j < i ==> (#[trigger] world.entities[j])@ == prepared_entity(old(world).entities[j]@),
            forall|j: int| i <= j < n ==> world.entities[j] == old(world).entities[j],
        decreases n - i,
    {
        let rec = &mut world.entities[i];
        if rec.prefab_marker && !rec.scene_auto_child && rec.children.len() > 0 {
            let link = ChildrenPrefab::from_children(rec.children.as_slice());
            rec.children_prefab = Some(link);
        }
        i += 1;
    }
    assert(world@ =~= prepared(old(world)@));
}

/// Cleanup: every child-link record is removed. Nothing else in the world
/// changes.
pub fn delete_prepared_children(world: &mut World)
    ensures
        final(world)@ == cleared(old(world)@),
{
    let n = world.entities.len();
    let mut i: usize = 0;
    while i < n
        invariant
            i <= n,
            world.entities.len() == n,
            old(world).entities.len() == n,
            forall|j: int| 0 <= j < i ==> (#[trigger] world.entities[j])@ == cleared_entity(old(world).entities[j]@),
            forall|j: int| i <= j < n ==> world.entities[j] == old(world).entities[j],
        decreases n - i,
    {
        let rec = &mut world.entities[i];
        rec.children_prefab = None;
        i += 1;
    }
    assert(world@ =~= cleared(old(world)@));
}

} // verus!
