use vstd::prelude::*;
use crate::children::ChildrenPrefab;
use crate::registry::{AllowList, Allowed};
use crate::world::{
    component_views, is_root, link_view, roots, Component, ComponentView, EntityView, World,
};

verus! {

/// One entity of a detached scene: the allow-listed components of a save
/// root, and its child-link record where that type is allow-listed.
#[derive(Debug)]
pub struct SceneEntity {
    pub entity: u64,
    pub components: Vec<Component>,
    pub children: Option<ChildrenPrefab>,
}

/// Mathematical value of a [`SceneEntity`].
pub struct SceneEntityView {
    pub entity: u64,
    pub components: Seq<ComponentView>,
    pub children: Option<Seq<u64>>,
}

impl View for SceneEntity {
    type V = SceneEntityView;

    open spec fn view(&self) -> SceneEntityView {
        SceneEntityView {
            entity: self.entity,
            components: component_views(self.components@),
            children: link_view(self.children),
        }
    }
}

/// A snapshot of the save roots that no longer depends on the store.
#[derive(Debug)]
pub struct DetachedScene {
    pub entities: Vec<SceneEntity>,
}

impl View for DetachedScene {
    type V = Seq<SceneEntityView>;

    open spec fn view(&self) -> Seq<SceneEntityView> {
        self.entities@.map_values(|e: SceneEntity| e@)
    }
}

/// The test that keeps a component: its type is in the allow-list.
pub open spec fn allowed(allow: Allowed) -> spec_fn(ComponentView) -> bool {
    |c: ComponentView| allow.types.contains(c.type_id)
}

/// The components that extraction keeps, in the order they had.
pub open spec fn allowed_components(cs: Seq<ComponentView>, allow: Allowed) -> Seq<ComponentView> {
    cs.filter(allowed(allow))
}

/// What extraction copies of one save root.
pub open spec fn extracted_entity(e: EntityView, allow: Allowed) -> SceneEntityView {
    SceneEntityView {
        entity: e.id,
        components: allowed_components(e.components, allow),
        children: if allow.children_prefab {
            e.children_prefab
        } else {
            None
        },
    }
}

/// The detached scene of a world: one entity per save root, in storage
/// order. Children are not walked; they appear only in child-link records.
pub open spec fn extracted(w: Seq<EntityView>, allow: Allowed) -> Seq<SceneEntityView> {
    roots(w).map_values(|e: EntityView| extracted_entity(e, allow))
}

/// The identifiers of the save roots, in storage order.
pub open spec fn root_ids(w: Seq<EntityView>) -> Seq<u64> {
    roots(w).map_values(|e: EntityView| e.id)
}

/// Filtering a sequence that ends in `x` is filtering what comes before,
/// then deciding on `x`.
pub proof fn lemma_filter_push<A>(s: Seq<A>, x: A, keep: spec_fn(A) -> bool)
    ensures
        s.push(x).filter(keep) == if keep(x) {
            s.filter(keep).push(x)
        } else {
            s.filter(keep)
        },
{
    reveal(Seq::filter);
    assert(s.push(x).drop_last() =~= s);
}

/// Copies the components whose type the allow-list admits.
pub fn extract_components(components: &Vec<Component>, allow: &AllowList) -> (out: Vec<Component>)
    ensures
        component_views(out@) == allowed_components(component_views(components@), allow@),
{
    let mut out: Vec<Component> = Vec::new();
    let ghost all = component_views(components@);
    let mut i: usize = 0;
    proof {
        reveal(Seq::filter);
        assert(all.take(0) =~= Seq::<ComponentView>::empty());
        assert(component_views(out@) =~= all.take(0).filter(allowed(allow@)));
    }
    while i < components.len()
        invariant
            i <= components.len(),
            all == component_views(components@),
            component_views(out@) == all.take(i as int).filter(allowed(allow@)),
        decreases components.len() - i,
    {
        let c = &components[i];
        let ghost before = out@;
        proof {
            assert(all.take(i + 1) =~= all.take(i as int).push(c@));
            lemma_filter_push(all.take(i as int), c@, allowed(allow@));
        }
        if allow.allows(c.type_id) {
            out.push(c.duplicate());
            assert(component_views(out@) =~= component_views(before).push(c@));
        }
        i += 1;
    }
    assert(all.take(i as int) =~= all);
    out
}

/// Selects the save roots: the entities that carry the save marker and are
/// not auto-generated children.
pub fn select_roots(world: &World) -> (ids: Vec<u64>)
    ensures
        ids@ == root_ids(world@),
{
    let mut ids: Vec<u64> = Vec::new();
    let mut i: usize = 0;
    proof {
        reveal(Seq::filter);
        assert(world@.take(0) =~= Seq::<EntityView>::empty());
        assert(ids@ =~= root_ids(world@.take(0)));
    }
    while i < world.entities.len()
        invariant
            i <= world.entities.len(),
            ids@ == root_ids(world@.take(i as int)),
        decreases world.entities.len() - i,
    {
        let e = &world.entities[i];
        proof {
            assert(world@.take(i + 1) =~= world@.take(i as int).push(e@));
            lemma_filter_push(world@.take(i as int), e@, |e: EntityView| is_root(e));
        }
        if e.is_save_root() {
            ids.push(e.id);
            assert(ids@ =~= root_ids(world@.take(i + 1)));
        }
        i += 1;
    }
    assert(world@.take(i as int) =~= world@);
    ids
}

/// Scene extraction: for each save root, in storage order, a copy of its
/// allow-listed components and, where the record's type is allow-listed,
/// of its child-link record. A world without roots gives an empty scene.
pub fn extract_scene(world: &World, allow: &AllowList) -> (scene: DetachedScene)
    ensures
        scene@ == extracted(world@, allow@),
{
    let mut scene = DetachedScene { entities: Vec::new() };
    let keep_links = allow.children_prefab;
    let mut i: usize = 0;
    proof {
        reveal(Seq::filter);
        assert(world@.take(0) =~= Seq::<EntityView>::empty());
        assert(scene@ =~= extracted(world@.take(0), allow@));
    }
    while i < world.entities.len()
        invariant
            i <= world.entities.len(),
            keep_links == allow@.children_prefab,
            scene@ == extracted(world@.take(i as int), allow@),
        decreases world.entities.len() - i,
    {
        let e = &world.entities[i];
        let ghost before = scene@;
        proof {
            assert(world@.take(i + 1) =~= world@.take(i as int).push(e@));
            lemma_filter_push(world@.take(i as int), e@, |e: EntityView| is_root(e));
        }
        if e.is_save_root() {
            let components = extract_components(&e.components, allow);
            let children = match &e.children_prefab {
                Some(link) => if keep_links {
                    Some(link.duplicate())
                } else {
                    None
                },
                None => None,
            };
            let copy = SceneEntity { entity: e.id, components, children };
            assert(copy@ == extracted_entity(e@, allow@));
            scene.entities.push(copy);
            assert(scene@ =~= before.push(copy@));
            assert(scene@ =~= extracted(world@.take(i + 1), allow@));
        }
        i += 1;
    }
    assert(world@.take(i as int) =~= world@);
    scene
}

} // verus!
