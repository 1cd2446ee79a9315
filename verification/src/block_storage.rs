//! Block storage with change tracking.
//!
//! Every block touched since the last save is marked dirty, so that a save writes
//! only those. A save is planned here and carried out by the caller against the
//! database; the marks are cleared only once the caller reports the commit, so a
//! failed transaction leaves the blocks pending for the next pass.
use vstd::prelude::*;
use dashmap::DashMap;
use crate::ticker::counter_after;

verus! {

broadcast use vstd::string::to_string_from_display_ensures_for_str, vstd::set::group_set_axioms, vstd::set_lib::group_set_lib_default, vstd::map::group_map_axioms;

/// A block's place: world name and coordinates.
pub type BlockKey = (String, i32, i32, i32);

/// The view of a [`BlockKey`].
pub type BlockPos = (Seq<char>, i32, i32, i32);

pub open spec fn pos_of(k: BlockKey) -> BlockPos {
    (k.0@, k.1, k.2, k.3)
}

#[derive(Debug)]
pub struct SlimefunBlockData {
    pub world: String,
    pub x: i32,
    pub y: i32,
    pub z: i32,
    pub item_id: String,
    pub extra_data: String,
    pub owner_uuid: Option<String>,
    pub last_tick_timestamp: u64,
}

impl SlimefunBlockData {
    /// Where the block stands.
    pub open spec fn pos(&self) -> BlockPos {
        (self.world@, self.x, self.y, self.z)
    }
}

impl Clone for SlimefunBlockData {
    fn clone(&self) -> (res: Self)
        ensures
            res == *self,
    {
        let owner_uuid = match &self.owner_uuid {
            Some(owner) => Some(owner.clone()),
            None => None,
        };
        SlimefunBlockData {
            world: self.world.clone(),
            x: self.x,
            y: self.y,
            z: self.z,
            item_id: self.item_id.clone(),
            extra_data: self.extra_data.clone(),
            owner_uuid,
            last_tick_timestamp: self.last_tick_timestamp,
        }
    }
}

/// The block that a stored row describes: the row's place, item and data (none reads
/// as empty), with no owner and no tick yet.
pub fn block_from_row(world: String, x: i32, y: i32, z: i32, item_id: String, data: Option<String>) -> (b:
    SlimefunBlockData)
    ensures
        b.world == world && b.x == x && b.y == y && b.z == z,
        b.item_id == item_id,
        b.extra_data@ == (match data {
            Some(d) => d@,
            None => Seq::<char>::empty(),
        }),
        b.owner_uuid is None,
        b.last_tick_timestamp == 0,
{
    let extra_data = match data {
        Some(d) => d,
        None => String::new(),
    };
    SlimefunBlockData { world, x, y, z, item_id, extra_data, owner_uuid: None, last_tick_timestamp: 0 }
}

/// One write of a save: store a block's row, or delete the row at a place.
#[derive(Debug)]
pub enum SaveOp {
    Upsert(SlimefunBlockData),
    Delete(BlockKey),
}

impl SaveOp {
    /// The place the write is about.
    pub open spec fn pos(&self) -> BlockPos {
        match self {
            SaveOp::Upsert(b) => b.pos(),
            SaveOp::Delete(k) => pos_of(*k),
        }
    }
}

/// What the engine holds: its blocks by place, the places touched since the last
/// save, and how many lookups it has answered.
pub struct StorageView {
    pub blocks: Map<BlockPos, SlimefunBlockData>,
    pub dirty: Set<BlockPos>,
    pub total_queries: u64,
}

impl StorageView {
    /// Every block is stored at its own place, and there are finitely many blocks and
    /// dirty places.
    pub open spec fn well_placed(self) -> bool {
        &&& forall|p: BlockPos| #[trigger] self.blocks.contains_key(p) ==> self.blocks[p].pos() == p
        &&& self.blocks.dom().finite()
        &&& self.dirty.finite()
    }
}

/// The blocks, by place, that a block map holds.
pub uninterp spec fn block_table(m: DashMap<BlockKey, SlimefunBlockData>) -> Map<BlockPos, SlimefunBlockData>;

/// The places that a map of dirty marks holds.
pub uninterp spec fn dirty_marks(m: DashMap<BlockKey, ()>) -> Set<BlockPos>;

/// `keys` names each place of `s` exactly once.
pub open spec fn lists_exactly(keys: Seq<BlockKey>, s: Set<BlockPos>) -> bool {
    &&& forall|i: int, j: int| 0 <= i < j < keys.len() ==> pos_of(#[trigger] keys[i]) != pos_of(#[trigger] keys[j])
    &&& forall|i: int| 0 <= i < keys.len() ==> s.contains(pos_of(#[trigger] keys[i]))
    &&& forall|p: BlockPos| s.contains(p) ==> exists|i: int| 0 <= i < keys.len() && pos_of(#[trigger] keys[i]) == p
}

/// `DashMap::new`: an empty block map.
#[verifier::external_body]
fn blocks_new() -> (res: DashMap<BlockKey, SlimefunBlockData>)
    ensures
        (block_table(res) == Map::<BlockPos, SlimefunBlockData>::empty()),
{
    DashMap::new()
}

/// `DashMap::insert`: the place now holds the block.
#[verifier::external_body]
fn blocks_insert(m: &mut DashMap<BlockKey, SlimefunBlockData>, key: BlockKey, block: SlimefunBlockData)
    ensures
        block_table(*final(m)) == block_table(*old(m)).insert(pos_of(key), block),
{
    m.insert(key, block);
}

/// `DashMap::remove`: the place is emptied and its block, if any, comes back.
#[verifier::external_body]
fn blocks_remove(m: &mut DashMap<BlockKey, SlimefunBlockData>, key: &BlockKey) -> (res: Option<SlimefunBlockData>)
    ensures
        block_table(*final(m)) == block_table(*old(m)).remove(pos_of(*key)),
        res == block_table(*old(m)).get(pos_of(*key)),
{
    m.remove(key).map(|(_, b)| b)
}

/// `DashMap::get`, cloned: the block at the place, if any.
#[verifier::external_body]
fn blocks_get(m: &DashMap<BlockKey, SlimefunBlockData>, key: &BlockKey) -> (res: Option<SlimefunBlockData>)
    ensures
        res == block_table(*m).get(pos_of(*key)),
{
    m.get(key).map(|r| r.value().clone())
}

/// `DashMap::len`: the number of blocks.
#[verifier::external_body]
fn blocks_len(m: &DashMap<BlockKey, SlimefunBlockData>) -> (res: usize)
    ensures
        res as nat == block_table(*m).len(),
{
    m.len()
}

/// `DashMap::iter`, keys cloned: every place once, in the map's own order, which this
/// contract leaves open.
#[verifier::external_body]
fn blocks_keys(m: &DashMap<BlockKey, SlimefunBlockData>) -> (res: Vec<BlockKey>)
    ensures
        lists_exactly(res@, block_table(*m).dom()),
{
    m.iter().map(|r| r.key().clone()).collect()
}

/// `DashMap::new`: no dirty marks.
#[verifier::external_body]
fn marks_new() -> (res: DashMap<BlockKey, ()>)
    ensures
        (dirty_marks(res) == Set::<BlockPos>::empty()),
{
    DashMap::new()
}

/// `DashMap::insert`: the place is marked.
#[verifier::external_body]
fn marks_insert(m: &mut DashMap<BlockKey, ()>, key: BlockKey)
    ensures
        dirty_marks(*final(m)) == dirty_marks(*old(m)).insert(pos_of(key)),
{
    m.insert(key, ());
}

/// `DashMap::remove`: the place is no longer marked.
#[verifier::external_body]
fn marks_remove(m: &mut DashMap<BlockKey, ()>, key: &BlockKey)
    ensures
        dirty_marks(*final(m)) == dirty_marks(*old(m)).remove(pos_of(*key)),
{
    m.remove(key);
}

/// `DashMap::len`: the number of marked places.
#[verifier::external_body]
fn marks_len(m: &DashMap<BlockKey, ()>) -> (res: usize)
    ensures
        res as nat == dirty_marks(*m).len(),
{
    m.len()
}

/// `DashMap::iter`, keys cloned: every marked place once, in the map's own order,
/// which this contract leaves open.
#[verifier::external_body]
fn marks_keys(m: &DashMap<BlockKey, ()>) -> (res: Vec<BlockKey>)
    ensures
        lists_exactly(res@, dirty_marks(*m)),
{
    m.iter().map(|r| r.key().clone()).collect()
}


/// The view after storing block `b`: it stands at its place, which is marked dirty.
pub open spec fn set_effect(v: StorageView, b: SlimefunBlockData) -> StorageView {
    StorageView { blocks: v.blocks.insert(b.pos(), b), dirty: v.dirty.insert(b.pos()), ..v }
}

/// The view after removing the block at `p`: the place is empty, and marked dirty if
/// a block stood there.
pub open spec fn remove_effect(v: StorageView, p: BlockPos) -> StorageView {
    StorageView {
        blocks: v.blocks.remove(p),
        dirty: if v.blocks.contains_key(p) {
            v.dirty.insert(p)
        } else {
            v.dirty
        },
        ..v
    }
}

/// The view after marking every block dirty.
pub open spec fn mark_all_effect(v: StorageView) -> StorageView {
    StorageView { dirty: v.dirty.union(v.blocks.dom()), ..v }
}

/// The view after one lookup: only the lookup counter moves.
pub open spec fn lookup_effect(v: StorageView) -> StorageView {
    StorageView { total_queries: counter_after(v.total_queries), ..v }
}

/// The blocks after loading `rows` one after the other; a missing row is skipped, and
/// a later row for a place replaces an earlier one.
pub open spec fn loaded(blocks: Map<BlockPos, SlimefunBlockData>, rows: Seq<Option<SlimefunBlockData>>) -> Map<
    BlockPos,
    SlimefunBlockData,
>
    decreases rows.len(),
{
    if rows.len() == 0 {
        blocks
    } else {
        let before = loaded(blocks, rows.drop_last());
        match rows.last() {
            Some(b) => before.insert(b.pos(), b),
            None => before,
        }
    }
}

/// How many of `rows` are present.
pub open spec fn count_present(rows: Seq<Option<SlimefunBlockData>>) -> nat
    decreases rows.len(),
{
    if rows.len() == 0 {
        0
    } else {
        count_present(rows.drop_last()) + if rows.last() is Some {
            1nat
        } else {
            0nat
        }
    }
}

/// The view after loading `rows` from disk: loading marks nothing dirty.
pub open spec fn load_effect(v: StorageView, rows: Seq<Option<SlimefunBlockData>>) -> StorageView {
    StorageView { blocks: loaded(v.blocks, rows), ..v }
}

/// The places a list of writes is about.
pub open spec fn op_positions(ops: Seq<SaveOp>) -> Set<BlockPos> {
    Set::new(|p: BlockPos| exists|i: int| 0 <= i < ops.len() && #[trigger] ops[i].pos() == p)
}

/// `ops` is what a save of `v` must write: one write per dirty place, storing the
/// block that stands there, or deleting the row of a place that is now empty.
pub open spec fn is_save_plan(ops: Seq<SaveOp>, v: StorageView) -> bool {
    &&& forall|i: int, j: int| 0 <= i < j < ops.len() ==> #[trigger] ops[i].pos() != #[trigger] ops[j].pos()
    &&& forall|i: int|
        0 <= i < ops.len() ==> v.dirty.contains(#[trigger] ops[i].pos()) && match ops[i] {
            SaveOp::Upsert(b) => v.blocks.get(b.pos()) == Some(b),
            SaveOp::Delete(k) => !v.blocks.contains_key(pos_of(k)),
        }
    &&& forall|p: BlockPos| v.dirty.contains(p) ==> exists|i: int| 0 <= i < ops.len() && #[trigger] ops[i].pos() == p
}

/// The view once the writes `ops` are committed: their places are no longer dirty.
pub open spec fn saved_effect(v: StorageView, ops: Seq<SaveOp>) -> StorageView {
    StorageView { dirty: v.dirty.difference(op_positions(ops)), ..v }
}

proof fn lemma_insert_keeps_well_placed(v: StorageView, b: SlimefunBlockData)
    requires
        v.well_placed(),
    ensures
        (StorageView { blocks: v.blocks.insert(b.pos(), b), ..v }).well_placed(),
        (StorageView { blocks: v.blocks.insert(b.pos(), b), dirty: v.dirty.insert(b.pos()), ..v }).well_placed(),
{
    let blocks = v.blocks.insert(b.pos(), b);
    assert forall|p: BlockPos| #[trigger] blocks.contains_key(p) implies blocks[p].pos() == p by {
        if p != b.pos() {
            assert(v.blocks.contains_key(p));
        }
    }
}

/// The in-memory store of Slimefun blocks, with the set of blocks touched since the
/// last save.
pub struct BlockStorageEngine {
    blocks: DashMap<BlockKey, SlimefunBlockData>,
    /// The places touched since the last save. Without it every save would rewrite
    /// the whole table, and almost all of its rows would be rewritten unchanged.
    dirty: DashMap<BlockKey, ()>,
    total_queries: u64,
}

impl View for BlockStorageEngine {
    type V = StorageView;

    closed spec fn view(&self) -> StorageView {
        StorageView {
            blocks: block_table(self.blocks),
            dirty: dirty_marks(self.dirty),
            total_queries: self.total_queries,
        }
    }
}

impl BlockStorageEngine {
    pub fn new() -> (e: Self)
        ensures
            e@.well_placed(),
            (e@ == StorageView {
                blocks: Map::empty(),
                dirty: Set::empty(),
                total_queries: 0,
            }),
    {
        Self { blocks: blocks_new(), dirty: marks_new(), total_queries: 0 }
    }

    /// Takes in the rows read from the database; a row that could not be read is
    /// `None` and is skipped. Loading marks nothing dirty: what comes from disk is
    /// already saved. Returns how many blocks were loaded.
    pub fn load_rows(&mut self, rows: Vec<Option<SlimefunBlockData>>) -> (count: usize)
        requires
            old(self)@.well_placed(),
        ensures
            final(self)@.well_placed(),
            final(self)@ == load_effect(old(self)@, rows@),
            count == count_present(rows@),
    {
        let mut count: usize = 0;
        let n = rows.len();
        let mut i: usize = 0;
        while i < n
            invariant
                n == rows.len(),
                i <= n,
                self@ == load_effect(old(self)@, rows@.take(i as int)),
                self@.well_placed(),
                count == count_present(rows@.take(i as int)),
                count <= i,
            decreases n - i,
        {
            proof {
                assert(rows@.take(i + 1).drop_last() =~= rows@.take(i as int));
            }
            if let Some(block) = &rows[i] {
                let key = (block.world.clone(), block.x, block.y, block.z);
                let copy = block.clone();
                proof {
                    assert(pos_of(key) == copy.pos());
                }
                let ghost pre = self@;
                blocks_insert(&mut self.blocks, key, copy);
                proof {
                    lemma_insert_keeps_well_placed(pre, copy);
                }
                count += 1;
            }
            i += 1;
        }
        proof {
            assert(rows@.take(n as int) =~= rows@);
        }
        count
    }

    /// The writes that a save must make: one per block touched since the last save,
    /// storing the block, or deleting the row of a block that was removed since.
    pub fn pending_saves(&self) -> (ops: Vec<SaveOp>)
        requires
            self@.well_placed(),
        ensures
            is_save_plan(ops@, self@),
    {
        let keys = marks_keys(&self.dirty);
        let mut ops: Vec<SaveOp> = Vec::new();
        let n = keys.len();
        let mut i: usize = 0;
        while i < n
            invariant
                n == keys.len(),
                i <= n,
                lists_exactly(keys@, self@.dirty),
                self@.well_placed(),
                ops.len() == i,
                forall|j: int| 0 <= j < i ==> (#[trigger] ops@[j]).pos() == pos_of(keys@[j]),
                forall|j: int|
                    0 <= j < i ==> match #[trigger] ops@[j] {
                        SaveOp::Upsert(b) => self@.blocks.get(b.pos()) == Some(b),
                        SaveOp::Delete(k) => !self@.blocks.contains_key(pos_of(k)),
                    },
            decreases n - i,
        {
            let key = &keys[i];
            let op = match blocks_get(&self.blocks, key) {
                Some(b) => SaveOp::Upsert(b),
                // Marked dirty and no longer there: it was broken, and its row must go
                // or it comes back at the next start.
                None => SaveOp::Delete((key.0.clone(), key.1, key.2, key.3)),
            };
            let ghost prev = ops@;
            ops.push(op);
            proof {
                assert(ops@ == prev.push(op));
                assert(ops@[i as int] == op);
            }
            i += 1;
        }
        proof {
            assert forall|a: int, b: int| 0 <= a < b < ops@.len() implies #[trigger] ops@[a].pos() != #[trigger] ops@[b].pos() by {
                assert(pos_of(keys@[a]) != pos_of(keys@[b]));
            }
            assert forall|p: BlockPos| self@.dirty.contains(p) implies exists|j: int| 0 <= j < ops@.len() && #[trigger] ops@[j].pos() == p by {
                let j = choose|j: int| 0 <= j < keys@.len() && pos_of(#[trigger] keys@[j]) == p;
                assert(ops@[j].pos() == p);
            }
        }
        ops
    }

    /// Clears the dirty marks of the places that `ops` wrote, once the caller has
    /// committed them. Places touched after the plan was made are not in `ops` and
    /// stay pending.
    pub fn mark_saved(&mut self, ops: &Vec<SaveOp>)
        requires
            old(self)@.well_placed(),
        ensures
            final(self)@.well_placed(),
            final(self)@ == saved_effect(old(self)@, ops@),
    {
        let n = ops.len();
        let mut i: usize = 0;
        proof {
            assert(op_positions(ops@.take(0)) =~= Set::empty());
            assert(old(self)@.dirty.difference(op_positions(ops@.take(0))) =~= old(self)@.dirty);
        }
        while i < n
            invariant
                n == ops.len(),
                i <= n,
                self@ == saved_effect(old(self)@, ops@.take(i as int)),
            decreases n - i,
        {
            let key = match &ops[i] {
                SaveOp::Upsert(b) => (b.world.clone(), b.x, b.y, b.z),
                SaveOp::Delete(k) => (k.0.clone(), k.1, k.2, k.3),
            };
            marks_remove(&mut self.dirty, &key);
            proof {
                assert(op_positions(ops@.take(i + 1)) =~= op_positions(ops@.take(i as int)).insert(ops@[i as int].pos())) by {
                    assert forall|p: BlockPos| op_positions(ops@.take(i + 1)).contains(p) implies op_positions(ops@.take(i as int)).insert(ops@[i as int].pos()).contains(p) by {
                        let j = choose|j: int| 0 <= j < ops@.take(i + 1).len() && #[trigger] ops@.take(i + 1)[j].pos() == p;
                        if j < i {
                            assert(ops@.take(i as int)[j] == ops@.take(i + 1)[j]);
                        }
                    }
                    assert forall|p: BlockPos| op_positions(ops@.take(i as int)).insert(ops@[i as int].pos()).contains(p) implies op_positions(ops@.take(i + 1)).contains(p) by {
                        if p == ops@[i as int].pos() {
                            assert(ops@.take(i + 1)[i as int] == ops@[i as int]);
                        } else {
                            let j = choose|j: int| 0 <= j < ops@.take(i as int).len() && #[trigger] ops@.take(i as int)[j].pos() == p;
                            assert(ops@.take(i as int)[j] == ops@.take(i + 1)[j]);
                        }
                    }
                }
                assert(self@.dirty =~= old(self)@.dirty.difference(op_positions(ops@.take(i + 1))));
            }
            i += 1;
        }
        proof {
            assert(ops@.take(n as int) =~= ops@);
        }
    }

    /// How many blocks are waiting to be saved.
    pub fn dirty_count(&self) -> (n: usize)
        ensures
            n as nat == self@.dirty.len(),
    {
        marks_len(&self.dirty)
    }

    /// Marks every block pending, forcing the next save to write them all: for
    /// migrations and the shutdown dump, where the whole copy matters.
    pub fn mark_all_dirty(&mut self)
        requires
            old(self)@.well_placed(),
        ensures
            final(self)@.well_placed(),
            final(self)@ == mark_all_effect(old(self)@),
    {
        let keys = blocks_keys(&self.blocks);
        let n = keys.len();
        let mut i: usize = 0;
        while i < n
            invariant
                n == keys.len(),
                i <= n,
                lists_exactly(keys@, old(self)@.blocks.dom()),
                self@.blocks == old(self)@.blocks,
                self@.total_queries == old(self)@.total_queries,
                self@.dirty == old(self)@.dirty.union(Set::new(|p: BlockPos| exists|j: int| 0 <= j < i && pos_of(#[trigger] keys@[j]) == p)),
            decreases n - i,
        {
            let key = (keys[i].0.clone(), keys[i].1, keys[i].2, keys[i].3);
            marks_insert(&mut self.dirty, key);
            proof {
                assert(self@.dirty =~= old(self)@.dirty.union(Set::new(|p: BlockPos| exists|j: int| 0 <= j < i + 1 && pos_of(#[trigger] keys@[j]) == p))) by {
                    assert(pos_of(keys@[i as int]) == pos_of(key));
                }
            }
            i += 1;
        }
        proof {
            assert(self@.dirty =~= old(self)@.dirty.union(old(self)@.blocks.dom()));
        }
    }

    /// The block at a place, if any. Counts the lookup.
    pub fn get_block(&mut self, world: &str, x: i32, y: i32, z: i32) -> (res: Option<SlimefunBlockData>)
        requires
            old(self)@.well_placed(),
        ensures
            final(self)@.well_placed(),
            res == old(self)@.blocks.get((world@, x, y, z)),
            final(self)@ == lookup_effect(old(self)@),
    {
        self.total_queries = self.total_queries.wrapping_add(1);
        let key = (world.to_string(), x, y, z);
        blocks_get(&self.blocks, &key)
    }

    /// Stores a block at its place and marks the place dirty.
    pub fn set_block(&mut self, block: SlimefunBlockData)
        requires
            old(self)@.well_placed(),
        ensures
            final(self)@.well_placed(),
            final(self)@ == set_effect(old(self)@, block),
    {
        let key = (block.world.clone(), block.x, block.y, block.z);
        marks_insert(&mut self.dirty, (block.world.clone(), block.x, block.y, block.z));
        let ghost pre = self@;
        proof {
            assert(pre.blocks == old(self)@.blocks);
            assert(pre.well_placed());
        }
        blocks_insert(&mut self.blocks, key, block);
        proof {
            lemma_insert_keeps_well_placed(pre, block);
        }
    }

    /// Removes the block at a place and returns it. The place is marked dirty only
    /// when a block was there.
    pub fn remove_block(&mut self, world: &str, x: i32, y: i32, z: i32) -> (res: Option<SlimefunBlockData>)
        requires
            old(self)@.well_placed(),
        ensures
            final(self)@.well_placed(),
            res == old(self)@.blocks.get((world@, x, y, z)),
            final(self)@ == remove_effect(old(self)@, (world@, x, y, z)),
    {
        let key = (world.to_string(), x, y, z);
        let removed = blocks_remove(&mut self.blocks, &key);
        if removed.is_some() {
            marks_insert(&mut self.dirty, key);
        }
        removed
    }

    /// How many blocks are stored.
    pub fn count(&self) -> (n: usize)
        ensures
            n as nat == self@.blocks.len(),
    {
        blocks_len(&self.blocks)
    }

    /// How many lookups have been answered, wrapping around past `u64::MAX`.
    pub fn total_queries(&self) -> (n: u64)
        ensures
            n == self@.total_queries,
    {
        self.total_queries
    }
}


/// What the database keeps of a block: its item id and its extra data.
pub type DiskRow = (Seq<char>, Seq<char>);

pub open spec fn row_of(b: SlimefunBlockData) -> DiskRow {
    (b.item_id@, b.extra_data@)
}

/// The row a database holds at a place, if any.
pub open spec fn disk_row(disk: Map<BlockPos, DiskRow>, p: BlockPos) -> Option<DiskRow> {
    if disk.contains_key(p) {
        Some(disk[p])
    } else {
        None
    }
}

/// The row that the block at a place should have on disk, if a block stands there.
pub open spec fn row_at(blocks: Map<BlockPos, SlimefunBlockData>, p: BlockPos) -> Option<DiskRow> {
    if blocks.contains_key(p) {
        Some(row_of(blocks[p]))
    } else {
        None
    }
}

/// The row a write leaves at its place.
pub open spec fn op_row(op: SaveOp) -> Option<DiskRow> {
    match op {
        SaveOp::Upsert(b) => Some(row_of(b)),
        SaveOp::Delete(_) => None,
    }
}

/// A database after carrying out `ops` in order: an upsert replaces the row at its
/// place, a delete removes it.
pub open spec fn apply_saves(disk: Map<BlockPos, DiskRow>, ops: Seq<SaveOp>) -> Map<BlockPos, DiskRow>
    decreases ops.len(),
{
    if ops.len() == 0 {
        disk
    } else {
        let before = apply_saves(disk, ops.drop_last());
        match ops.last() {
            SaveOp::Upsert(b) => before.insert(b.pos(), row_of(b)),
            SaveOp::Delete(k) => before.remove(pos_of(k)),
        }
    }
}

/// The database agrees with the engine on every place that is not dirty.
pub open spec fn in_sync(disk: Map<BlockPos, DiskRow>, v: StorageView) -> bool {
    forall|p: BlockPos| !v.dirty.contains(p) ==> #[trigger] disk_row(disk, p) == row_at(v.blocks, p)
}

proof fn lemma_apply_saves(disk: Map<BlockPos, DiskRow>, ops: Seq<SaveOp>)
    requires
        forall|i: int, j: int| 0 <= i < j < ops.len() ==> #[trigger] ops[i].pos() != #[trigger] ops[j].pos(),
    ensures
        forall|i: int| 0 <= i < ops.len() ==> disk_row(apply_saves(disk, ops), #[trigger] ops[i].pos()) == op_row(ops[i]),
        forall|p: BlockPos| !op_positions(ops).contains(p) ==> #[trigger] disk_row(apply_saves(disk, ops), p) == disk_row(disk, p),
    decreases ops.len(),
{
    if ops.len() > 0 {
        let q = ops.drop_last();
        assert forall|i: int, j: int| 0 <= i < j < q.len() implies #[trigger] q[i].pos() != #[trigger] q[j].pos() by {
            assert(q[i] == ops[i] && q[j] == ops[j]);
        }
        lemma_apply_saves(disk, q);
        let last = ops.last();
        assert forall|i: int| 0 <= i < ops.len() implies disk_row(apply_saves(disk, ops), #[trigger] ops[i].pos()) == op_row(ops[i]) by {
            if i < ops.len() - 1 {
                assert(q[i] == ops[i]);
                assert(ops[i].pos() != ops[ops.len() - 1].pos());
            }
        }
        assert forall|p: BlockPos| !op_positions(ops).contains(p) implies #[trigger] disk_row(apply_saves(disk, ops), p) == disk_row(disk, p) by {
            let n = ops.len() - 1;
            if ops[n].pos() == p {
                assert(op_positions(ops).contains(p));
            }
            if op_positions(q).contains(p) {
                let j = choose|j: int| 0 <= j < q.len() && #[trigger] q[j].pos() == p;
                assert(ops[j] == q[j]);
                assert(op_positions(ops).contains(p));
            }
            assert(disk_row(apply_saves(disk, q), p) == disk_row(disk, p));
            match last {
                SaveOp::Upsert(b) => {
                    assert(apply_saves(disk, ops) == apply_saves(disk, q).insert(b.pos(), row_of(b)));
                },
                SaveOp::Delete(k) => {
                    assert(apply_saves(disk, ops) == apply_saves(disk, q).remove(pos_of(k)));
                },
            }
        }
    }
}

/// A save brings the database in line with the engine: carrying out the planned
/// writes on a database that agreed with every clean place leaves it holding exactly
/// the engine's blocks, and once the writes are marked saved nothing is pending and
/// database and engine agree.
pub proof fn lemma_save_syncs_disk(disk: Map<BlockPos, DiskRow>, v: StorageView, ops: Seq<SaveOp>)
    requires
        in_sync(disk, v),
        is_save_plan(ops, v),
    ensures
        forall|p: BlockPos| #[trigger] disk_row(apply_saves(disk, ops), p) == row_at(v.blocks, p),
        saved_effect(v, ops).dirty == Set::<BlockPos>::empty(),
        in_sync(apply_saves(disk, ops), saved_effect(v, ops)),
{
    lemma_apply_saves(disk, ops);
    let after = apply_saves(disk, ops);
    assert forall|p: BlockPos| #[trigger] disk_row(after, p) == row_at(v.blocks, p) by {
        if op_positions(ops).contains(p) {
            let i = choose|i: int| 0 <= i < ops.len() && #[trigger] ops[i].pos() == p;
            assert(disk_row(after, ops[i].pos()) == op_row(ops[i]));
        } else {
            if v.dirty.contains(p) {
                let i = choose|i: int| 0 <= i < ops.len() && #[trigger] ops[i].pos() == p;
                assert(op_positions(ops).contains(p));
            }
        }
    }
    assert(saved_effect(v, ops).dirty =~= Set::<BlockPos>::empty()) by {
        assert forall|p: BlockPos| v.dirty.contains(p) implies op_positions(ops).contains(p) by {
            let i = choose|i: int| 0 <= i < ops.len() && #[trigger] ops[i].pos() == p;
        }
    }
}

/// Storing a block keeps the database in step: its place is dirty until saved.
pub proof fn lemma_set_keeps_disk_in_sync(disk: Map<BlockPos, DiskRow>, v: StorageView, b: SlimefunBlockData)
    requires
        in_sync(disk, v),
    ensures
        in_sync(disk, set_effect(v, b)),
{
    let w = set_effect(v, b);
    assert forall|p: BlockPos| !w.dirty.contains(p) implies #[trigger] disk_row(disk, p) == row_at(w.blocks, p) by {
        assert(!v.dirty.contains(p));
    }
}

/// Removing a block keeps the database in step: a removal that took a block marks
/// its place, so the row is deleted at the next save and the block does not come back.
pub proof fn lemma_remove_keeps_disk_in_sync(disk: Map<BlockPos, DiskRow>, v: StorageView, p: BlockPos)
    requires
        in_sync(disk, v),
    ensures
        in_sync(disk, remove_effect(v, p)),
{
    let w = remove_effect(v, p);
    assert forall|q: BlockPos| !w.dirty.contains(q) implies #[trigger] disk_row(disk, q) == row_at(w.blocks, q) by {
        assert(!v.dirty.contains(q));
    }
}

/// Marking everything dirty, or looking a block up, keeps the database in step.
pub proof fn lemma_mark_all_and_lookup_keep_disk_in_sync(disk: Map<BlockPos, DiskRow>, v: StorageView)
    requires
        in_sync(disk, v),
    ensures
        in_sync(disk, mark_all_effect(v)),
        in_sync(disk, lookup_effect(v)),
{
    let w = mark_all_effect(v);
    assert forall|q: BlockPos| !w.dirty.contains(q) implies #[trigger] disk_row(disk, q) == row_at(w.blocks, q) by {
        assert(!v.dirty.contains(q));
    }
    let u = lookup_effect(v);
    assert forall|q: BlockPos| !u.dirty.contains(q) implies #[trigger] disk_row(disk, q) == row_at(u.blocks, q) by {
        assert(!v.dirty.contains(q));
    }
}

/// Loading rows that the database holds keeps it in step, though loading marks
/// nothing dirty.
pub proof fn lemma_load_keeps_disk_in_sync(disk: Map<BlockPos, DiskRow>, v: StorageView, rows: Seq<Option<SlimefunBlockData>>)
    requires
        in_sync(disk, v),
        forall|i: int| 0 <= i < rows.len() && (#[trigger] rows[i]) is Some ==> disk_row(disk, rows[i]->0.pos()) == Some(row_of(rows[i]->0)),
    ensures
        in_sync(disk, load_effect(v, rows)),
    decreases rows.len(),
{
    if rows.len() > 0 {
        let r = rows.drop_last();
        assert forall|i: int| 0 <= i < r.len() && (#[trigger] r[i]) is Some implies disk_row(disk, r[i]->0.pos()) == Some(row_of(r[i]->0)) by {
            assert(r[i] == rows[i]);
        }
        lemma_load_keeps_disk_in_sync(disk, v, r);
        let w = load_effect(v, rows);
        let w0 = load_effect(v, r);
        assert forall|q: BlockPos| !w.dirty.contains(q) implies #[trigger] disk_row(disk, q) == row_at(w.blocks, q) by {
            assert(disk_row(disk, q) == row_at(w0.blocks, q));
            if rows.last() is Some {
                assert(rows[rows.len() - 1] is Some);
            }
        }
    }
}

/// What a lookup gives back is what was last stored at that place, and storing a
/// block leaves every other place as it was; after a removal the place is empty.
pub proof fn lemma_read_after_write(v: StorageView, b: SlimefunBlockData, p: BlockPos)
    ensures
        set_effect(v, b).blocks.get(b.pos()) == Some(b),
        p != b.pos() ==> set_effect(v, b).blocks.get(p) == v.blocks.get(p),
        remove_effect(v, p).blocks.get(p) is None,
        remove_effect(set_effect(v, b), b.pos()).blocks.get(b.pos()) is None,
{
}


/// How the counts move: storing a block adds one block and one mark unless its place
/// already held one; removing a block that was there takes one block away and marks
/// its place, and removing from an empty place changes no count; after marking
/// everything there are at least as many marks as blocks. Every change keeps the
/// engine valid.
pub proof fn lemma_counts_after_changes(v: StorageView, b: SlimefunBlockData, p: BlockPos)
    requires
        v.well_placed(),
    ensures
        set_effect(v, b).well_placed(),
        set_effect(v, b).blocks.len() == v.blocks.len() + (if v.blocks.contains_key(b.pos()) {
            0int
        } else {
            1int
        }),
        set_effect(v, b).dirty.len() == v.dirty.len() + (if v.dirty.contains(b.pos()) {
            0int
        } else {
            1int
        }),
        remove_effect(v, p).well_placed(),
        v.blocks.contains_key(p) ==> {
            &&& remove_effect(v, p).blocks.len() == v.blocks.len() - 1
            &&& remove_effect(v, p).dirty.contains(p)
        },
        !v.blocks.contains_key(p) ==> remove_effect(v, p) == v,
        mark_all_effect(v).well_placed(),
        mark_all_effect(v).dirty.len() >= v.blocks.len(),
{
    lemma_insert_keeps_well_placed(v, b);
    let r = remove_effect(v, p);
    assert forall|q: BlockPos| #[trigger] r.blocks.contains_key(q) implies r.blocks[q].pos() == q by {
        assert(v.blocks.contains_key(q));
    }
    if !v.blocks.contains_key(p) {
        assert(r.blocks =~= v.blocks);
    }
    let m = mark_all_effect(v);
    vstd::set_lib::lemma_len_subset(v.blocks.dom(), m.dirty);
}


/// Row `i` of `rows` was read and holds a block at place `p`.
pub open spec fn row_read_at(rows: Seq<Option<SlimefunBlockData>>, i: int, p: BlockPos) -> bool {
    0 <= i < rows.len() && rows[i] is Some && rows[i]->0.pos() == p
}

/// Row `i` was read, and no later row that was read is at the same place.
pub open spec fn last_read_row(rows: Seq<Option<SlimefunBlockData>>, i: int) -> bool {
    &&& 0 <= i < rows.len()
    &&& rows[i] is Some
    &&& forall|j: int| i < j < rows.len() ==> !#[trigger] row_read_at(rows, j, rows[i]->0.pos())
}

/// Loading puts every row that was read into memory: the loaded places are the old
/// ones and those of the rows read; each place read holds the block of the last row
/// read for it; every other place keeps what it had; and nothing is marked dirty.
pub proof fn lemma_load_puts_every_row_in_place(v: StorageView, rows: Seq<Option<SlimefunBlockData>>)
    ensures
        forall|p: BlockPos| #[trigger] load_effect(v, rows).blocks.contains_key(p)
            <==> (v.blocks.contains_key(p) || exists|i: int| #[trigger] row_read_at(rows, i, p)),
        forall|i: int| #[trigger] last_read_row(rows, i) ==> load_effect(v, rows).blocks.get(rows[i]->0.pos()) == Some(rows[i]->0),
        forall|p: BlockPos| (forall|i: int| !#[trigger] row_read_at(rows, i, p)) ==> #[trigger] load_effect(v, rows).blocks.get(p) == v.blocks.get(p),
        load_effect(v, rows).dirty == v.dirty,
        load_effect(v, rows).total_queries == v.total_queries,
    decreases rows.len(),
{
    if rows.len() == 0 {
        assert forall|p: BlockPos| #[trigger] load_effect(v, rows).blocks.contains_key(p)
            <==> (v.blocks.contains_key(p) || exists|i: int| #[trigger] row_read_at(rows, i, p)) by {
            if exists|i: int| #[trigger] row_read_at(rows, i, p) {
                let i = choose|i: int| #[trigger] row_read_at(rows, i, p);
            }
        }
    } else {
        let r = rows.drop_last();
        let n = rows.len() - 1;
        lemma_load_puts_every_row_in_place(v, r);
        let before = load_effect(v, r).blocks;
        let after = load_effect(v, rows).blocks;
        assert forall|i: int, p: BlockPos| 0 <= i < n implies #[trigger] row_read_at(rows, i, p) == row_read_at(r, i, p) by {
            assert(rows[i] == r[i]);
        }
        assert forall|p: BlockPos| #[trigger] after.contains_key(p)
            <==> (v.blocks.contains_key(p) || exists|i: int| #[trigger] row_read_at(rows, i, p)) by {
            if exists|i: int| #[trigger] row_read_at(rows, i, p) {
                let i = choose|i: int| #[trigger] row_read_at(rows, i, p);
                if i < n {
                    assert(row_read_at(r, i, p));
                }
            }
            if exists|i: int| #[trigger] row_read_at(r, i, p) {
                let i = choose|i: int| #[trigger] row_read_at(r, i, p);
                assert(row_read_at(rows, i, p));
            }
            if rows[n] is Some && rows[n]->0.pos() == p {
                assert(row_read_at(rows, n, p));
            }
        }
        assert forall|i: int| #[trigger] last_read_row(rows, i) implies after.get(rows[i]->0.pos()) == Some(rows[i]->0) by {
            if i < n {
                let q = rows[i]->0.pos();
                assert(!row_read_at(rows, n, q));
                assert(r[i] == rows[i]);
                assert forall|j: int| i < j < r.len() implies !#[trigger] row_read_at(r, j, r[i]->0.pos()) by {
                    assert(!row_read_at(rows, j, q));
                }
                assert(last_read_row(r, i));
            }
        }
        assert forall|p: BlockPos| (forall|i: int| !#[trigger] row_read_at(rows, i, p)) implies #[trigger] after.get(p) == v.blocks.get(p) by {
            assert forall|i: int| !#[trigger] row_read_at(r, i, p) by {
                if 0 <= i < n {
                    assert(!row_read_at(rows, i, p));
                }
            }
            assert(!row_read_at(rows, n, p));
            assert(before.get(p) == v.blocks.get(p));
        }
    }
}

/// Committing a save clears the marks of exactly the places its writes are about:
/// a place stays dirty when it was dirty and no write of the save is at it, whether
/// or not a block stands there. Blocks and the lookup counter are untouched.
pub proof fn lemma_save_clears_exactly_written_marks(v: StorageView, ops: Seq<SaveOp>)
    ensures
        forall|p: BlockPos| #[trigger] saved_effect(v, ops).dirty.contains(p)
            <==> (v.dirty.contains(p) && forall|i: int| 0 <= i < ops.len() ==> #[trigger] ops[i].pos() != p),
        saved_effect(v, ops).blocks == v.blocks,
        saved_effect(v, ops).total_queries == v.total_queries,
{
    assert forall|p: BlockPos| #[trigger] saved_effect(v, ops).dirty.contains(p)
        <==> (v.dirty.contains(p) && forall|i: int| 0 <= i < ops.len() ==> #[trigger] ops[i].pos() != p) by {
        if op_positions(ops).contains(p) {
            let i = choose|i: int| 0 <= i < ops.len() && #[trigger] ops[i].pos() == p;
        }
        if exists|i: int| 0 <= i < ops.len() && #[trigger] ops[i].pos() == p {
            let i = choose|i: int| 0 <= i < ops.len() && #[trigger] ops[i].pos() == p;
            assert(op_positions(ops).contains(p));
        }
    }
}

/// A place that was clean when a save was planned, and is touched before the save
/// is committed, stays dirty after the commit: its change is saved next time.
pub proof fn lemma_touched_after_plan_stays_pending(v: StorageView, ops: Seq<SaveOp>, w: StorageView, p: BlockPos)
    requires
        is_save_plan(ops, v),
        !v.dirty.contains(p),
        w.dirty.contains(p),
    ensures
        saved_effect(w, ops).dirty.contains(p),
{
    lemma_save_clears_exactly_written_marks(w, ops);
    assert forall|i: int| 0 <= i < ops.len() implies #[trigger] ops[i].pos() != p by {
        assert(v.dirty.contains(ops[i].pos()));
    }
}

} // verus!
