use vstd::prelude::*;
use crate::registry::Allowed;
use crate::save::{cache_after, Destination};
use crate::scene::{
    allowed, extracted, extracted_entity, lemma_filter_push, root_ids, SceneEntityView,
};
use crate::world::{
    captures, child_link_count, cleared, is_root, no_child_links, prepared, prepared_entity,
    roots, EntityView,
};

verus! {

/// The world after one complete save cycle: capture, then cleanup.
pub open spec fn after_save(w: Seq<EntityView>) -> Seq<EntityView> {
    cleared(prepared(w))
}

/// A world in which no entity carries a child-link record counts none.
pub proof fn lemma_no_links_counts_zero(w: Seq<EntityView>)
    requires
        no_child_links(w),
    ensures
        child_link_count(w) == 0,
    decreases w.len(),
{
    reveal(Seq::filter);
    if w.len() > 0 {
        let front = w.drop_last();
        assert forall|i: int| 0 <= i < front.len() implies (#[trigger] front[i]).children_prefab is None by {
            assert(front[i] == w[i]);
        }
        lemma_no_links_counts_zero(front);
        assert(w =~= front.push(w.last()));
        lemma_filter_push(front, w.last(), |e: EntityView| e.children_prefab is Some);
    }
}

/// Cleanup leaves no child-link record, whatever the world held before.
pub proof fn lemma_cleanup_removes_all(w: Seq<EntityView>)
    ensures
        no_child_links(cleared(w)),
        child_link_count(cleared(w)) == 0,
        cleared(w).len() == w.len(),
{
    lemma_no_links_counts_zero(cleared(w));
}

/// Cleanup is idempotent: after one save cycle, and after a second one on
/// the world that the first left, no child-link record is attached.
pub proof fn lemma_cleanup_idempotent(w: Seq<EntityView>)
    ensures
        no_child_links(after_save(w)),
        no_child_links(after_save(after_save(w))),
        child_link_count(after_save(w)) == 0,
        child_link_count(after_save(after_save(w))) == 0,
        cleared(cleared(w)) == cleared(w),
{
    assert(cleared(cleared(w)) =~= cleared(w));
    lemma_cleanup_removes_all(prepared(w));
    lemma_cleanup_removes_all(prepared(after_save(w)));
}

/// Capture changes neither which entities are save roots nor their order.
pub proof fn lemma_capture_keeps_roots(w: Seq<EntityView>)
    ensures
        root_ids(prepared(w)) == root_ids(w),
        roots(prepared(w)).len() == roots(w).len(),
        roots(prepared(w)) == prepared(roots(w)),
    decreases w.len(),
{
    reveal(Seq::filter);
    if w.len() == 0 {
        assert(prepared(w) =~= w);
        assert(roots(w) =~= Seq::<EntityView>::empty());
        assert(prepared(roots(w)) =~= roots(prepared(w)));
    } else {
        let front = w.drop_last();
        let last = w.last();
        lemma_capture_keeps_roots(front);
        assert(w =~= front.push(last));
        assert(prepared(w) =~= prepared(front).push(prepared_entity(last)));
        lemma_filter_push(front, last, |e: EntityView| is_root(e));
        lemma_filter_push(prepared(front), prepared_entity(last), |e: EntityView| is_root(e));
        assert(is_root(prepared_entity(last)) == is_root(last));
        if is_root(last) {
            assert(prepared(roots(front).push(last)) =~= prepared(roots(front)).push(
                prepared_entity(last),
            ));
        }
        assert(roots(prepared(w)) == prepared(roots(w)));
        assert(root_ids(prepared(w)) =~= root_ids(w));
    }
}

/// The entities that carry the save marker.
pub open spec fn marked(w: Seq<EntityView>) -> Seq<EntityView> {
    w.filter(|e: EntityView| e.prefab_marker)
}

/// The marked entities that are excluded as auto-generated children.
pub open spec fn excluded(w: Seq<EntityView>) -> Seq<EntityView> {
    w.filter(|e: EntityView| e.prefab_marker && e.scene_auto_child)
}

/// The save roots are the marked entities less the excluded ones.
pub proof fn lemma_root_count(w: Seq<EntityView>)
    ensures
        roots(w).len() == marked(w).len() - excluded(w).len(),
    decreases w.len(),
{
    reveal(Seq::filter);
    if w.len() > 0 {
        let front = w.drop_last();
        let last = w.last();
        lemma_root_count(front);
        assert(w =~= front.push(last));
        lemma_filter_push(front, last, |e: EntityView| is_root(e));
        lemma_filter_push(front, last, |e: EntityView| e.prefab_marker);
        lemma_filter_push(front, last, |e: EntityView| e.prefab_marker && e.scene_auto_child);
    }
}

/// A save to the memory cache whose encoding succeeds leaves in the slot
/// a scene with one entity per save root of the world, and leaves no
/// child-link record in the world.
pub proof fn lemma_memory_save(
    w: Seq<EntityView>,
    allow: Allowed,
    cache: Option<Seq<SceneEntityView>>,
    text: Seq<char>,
)
    ensures
        cache_after(cache, Destination::MemoryCache, extracted(prepared(w), allow), Ok(text)) == Some(
            extracted(prepared(w), allow),
        ),
        extracted(prepared(w), allow).len() == roots(w).len(),
        extracted(prepared(w), allow).len() == marked(w).len() - excluded(w).len(),
        no_child_links(after_save(w)),
{
    lemma_capture_keeps_roots(w);
    lemma_root_count(w);
}

/// A failed encoding leaves the cache slot as it was.
pub proof fn lemma_failed_save_keeps_cache(
    cache: Option<Seq<SceneEntityView>>,
    dest: Destination,
    scene: Seq<SceneEntityView>,
    cause: Seq<char>,
)
    ensures
        cache_after(cache, dest, scene, Err(cause)) == cache,
{
}

/// An auto-generated child is never a save root, even with the save
/// marker and with children: it is not selected, and capture leaves it as
/// it is.
pub proof fn lemma_auto_child_never_root(e: EntityView)
    requires
        e.scene_auto_child,
    ensures
        !is_root(e),
        !captures(e),
        prepared_entity(e) == e,
{
}

/// Every selected root carries the save marker and is no auto-generated
/// child, and every scene entity stands for such a root.
pub proof fn lemma_roots_are_roots(w: Seq<EntityView>, allow: Allowed, i: int)
    requires
        0 <= i < roots(w).len(),
    ensures
        roots(w)[i].prefab_marker,
        !roots(w)[i].scene_auto_child,
        w.contains(roots(w)[i]),
        extracted(w, allow).len() == roots(w).len(),
        extracted(w, allow)[i].entity == roots(w)[i].id,
{
    w.lemma_filter_pred(|e: EntityView| is_root(e), i);
    lemma_filter_subset(w, |e: EntityView| is_root(e));
    assert(roots(w).contains(roots(w)[i]));
}

/// What a filter keeps occurs in what it was given.
pub proof fn lemma_filter_subset<A>(s: Seq<A>, keep: spec_fn(A) -> bool)
    ensures
        forall|x: A| s.filter(keep).contains(x) ==> s.contains(x),
    decreases s.len(),
{
    reveal(Seq::filter);
    if s.len() > 0 {
        lemma_filter_subset(s.drop_last(), keep);
        let front = s.drop_last();
        let f = front.filter(keep);
        assert forall|x: A| s.filter(keep).contains(x) implies s.contains(x) by {
            let k = choose|k: int| 0 <= k < s.filter(keep).len() && s.filter(keep)[k] == x;
            if k < f.len() {
                assert(f[k] == x);
                assert(f.contains(x));
                assert(front.contains(x));
                let m = choose|m: int| 0 <= m < front.len() && front[m] == x;
                assert(s[m] == x);
            } else {
                assert(s[s.len() - 1] == x);
            }
        }
    }
}

/// Capture records the children of a root exactly in their live order; an
/// entity without children, or one that is no root, keeps what it had.
pub proof fn lemma_child_order_preserved(w: Seq<EntityView>, i: int)
    requires
        0 <= i < w.len(),
    ensures
        prepared(w).len() == w.len(),
        captures(w[i]) ==> prepared(w)[i].children_prefab == Some(w[i].children),
        !captures(w[i]) ==> prepared(w)[i] == w[i],
        w[i].children.len() == 0 ==> prepared(w)[i].children_prefab == w[i].children_prefab,
        prepared(w)[i].children == w[i].children,
{
}

/// The allow-list is enforced: every component of a scene entity has an
/// allow-listed type, and a child-link record appears only where its type
/// is allow-listed.
pub proof fn lemma_allow_list_enforced(w: Seq<EntityView>, allow: Allowed, i: int, j: int)
    requires
        0 <= i < extracted(w, allow).len(),
        0 <= j < extracted(w, allow)[i].components.len(),
    ensures
        allow.types.contains(extracted(w, allow)[i].components[j].type_id),
        extracted(w, allow)[i].children is Some ==> allow.children_prefab,
{
    let e = roots(w)[i];
    assert(extracted(w, allow)[i] == extracted_entity(e, allow));
    e.components.lemma_filter_pred(allowed(allow), j);
}

/// Nothing is dropped that the allow-list admits: a component of a root
/// whose type is allow-listed occurs in the scene entity of that root.
pub proof fn lemma_allowed_component_kept(w: Seq<EntityView>, allow: Allowed, i: int, k: int)
    requires
        0 <= i < roots(w).len(),
        0 <= k < roots(w)[i].components.len(),
        allow.types.contains(roots(w)[i].components[k].type_id),
    ensures
        extracted(w, allow)[i].components.contains(roots(w)[i].components[k]),
{
    let e = roots(w)[i];
    assert(extracted(w, allow)[i] == extracted_entity(e, allow));
    e.components.lemma_filter_contains(allowed(allow), k);
}

} // verus!
