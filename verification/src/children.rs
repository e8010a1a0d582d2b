use vstd::prelude::*;
use vstd::slice::slice_to_vec;

verus! {

/// The child-link record: the direct children of a save root, in sibling
/// order. It is attached to a root only for the duration of one save.
#[derive(Clone, Debug)]
pub struct ChildrenPrefab(pub Vec<u64>);

impl Default for ChildrenPrefab {
    /// The record of an entity without children.
    fn default() -> (prefab: Self)
        ensures
            prefab@ == Seq::<u64>::empty(),
    {
        ChildrenPrefab(Vec::new())
    }
}

impl View for ChildrenPrefab {
    type V = Seq<u64>;

    open spec fn view(&self) -> Seq<u64> {
        self.0@
    }
}

impl ChildrenPrefab {
    /// Captures a list of children exactly as it is observed: same
    /// entities, same order.
    pub fn from_children(children: &[u64]) -> (prefab: Self)
        ensures
            prefab@ == children@,
    {
        ChildrenPrefab(slice_to_vec(children))
    }

    /// An independent copy of the record.
    pub fn duplicate(&self) -> (copy: Self)
        ensures
            copy@ == self@,
    {
        ChildrenPrefab(slice_to_vec(self.0.as_slice()))
    }
}

/// The entity table of a saved scene. A reference to an entity is written
/// as the position of that entity in the table, never as the runtime
/// identifier itself; a loader resolves positions to fresh identifiers.
#[derive(Debug)]
pub struct EntityMapper {
    pub table: Vec<u64>,
}

impl View for EntityMapper {
    type V = Seq<u64>;

    open spec fn view(&self) -> Seq<u64> {
        self.table@
    }
}

/// The table once `entity` has a position in it: unchanged where it had
/// one, with `entity` at the end where it had none.
pub open spec fn interned(table: Seq<u64>, entity: u64) -> Seq<u64> {
    if table.contains(entity) {
        table
    } else {
        table.push(entity)
    }
}

/// The table once each of `entities`, taken in order, has a position.
pub open spec fn interned_all(table: Seq<u64>, entities: Seq<u64>) -> Seq<u64>
    decreases entities.len(),
{
    if entities.len() == 0 {
        table
    } else {
        interned(interned_all(table, entities.drop_last()), entities.last())
    }
}

impl EntityMapper {
    /// No entity occurs twice in the table, so a position names one entity
    /// and an entity has one position.
    pub open spec fn wf(&self) -> bool {
        self@.no_duplicates()
    }

    /// An empty table.
    pub fn new() -> (mapper: Self)
        ensures
            mapper@ == Seq::<u64>::empty(),
            mapper.wf(),
    {
        EntityMapper { table: Vec::new() }
    }

    /// The position of `entity` in the table; an entity that has none yet
    /// is given the next free one.
    pub fn get_or_reserve(&mut self, entity: u64) -> (symbol: u64)
        requires
            old(self).wf(),
        ensures
            final(self).wf(),
            final(self)@ == interned(old(self)@, entity),
            0 <= symbol < final(self)@.len(),
            final(self)@[symbol as int] == entity,
    {
        let mut i: usize = 0;
        while i < self.table.len()
            invariant
                i <= self.table.len(),
                self.table == old(self).table,
                self.wf(),
                forall|j: int| 0 <= j < i ==> self.table@[j] != entity,
            decreases self.table.len() - i,
        {
            if self.table[i] == entity {
                return i as u64;
            }
            i += 1;
        }
        self.table.push(entity);
        i as u64
    }
}

impl ChildrenPrefab {
    /// Replaces each child by its position in the entity table, giving a
    /// position to every child that had none. The order of the children is
    /// kept, and so is every position handed out before.
    pub fn map_entities(&mut self, entity_mapper: &mut EntityMapper)
        requires
            old(entity_mapper).wf(),
        ensures
            final(entity_mapper).wf(),
            final(entity_mapper)@ == interned_all(old(entity_mapper)@, old(self)@),
            final(self)@.len() == old(self)@.len(),
            forall|i: int|
                0 <= i < old(self)@.len() ==> 0 <= (#[trigger] final(self)@[i]) < final(entity_mapper)@.len()
                    && final(entity_mapper)@[final(self)@[i] as int] == old(self)@[i],
    {
        let n = self.0.len();
        let mut symbols: Vec<u64> = Vec::new();
        let mut i: usize = 0;
        assert(self@.take(0) =~= Seq::<u64>::empty());
        while i < n
            invariant
                i <= n,
                n == self@.len(),
                *self == *old(self),
                entity_mapper.wf(),
                entity_mapper@ == interned_all(old(entity_mapper)@, self@.take(i as int)),
                symbols@.len() == i,
                forall|j: int|
                    0 <= j < i ==> 0 <= (#[trigger] symbols@[j]) < entity_mapper@.len() && entity_mapper@[symbols@[j] as int]
                        == self@[j],
            decreases n - i,
        {
            let ghost before = entity_mapper@;
            let symbol = entity_mapper.get_or_reserve(self.0[i]);
            proof {
                assert(self@.take(i + 1).drop_last() =~= self@.take(i as int));
                assert(forall|j: int| 0 <= j < before.len() ==> entity_mapper@[j] == before[j]);
            }
            symbols.push(symbol);
            i += 1;
        }
        assert(self@.take(n as int) =~= self@);
        self.0 = symbols;
    }
}

} // verus!
