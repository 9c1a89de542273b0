//! The inventory engine: a fixed-capacity collection of item slots and
//! the merge algorithm that folds an incoming stack into it.
//!
//! An incoming stack is first distributed over existing stacks of the
//! same item, smallest stack first, then over empty slots in their
//! storage order. Whatever does not fit stays in the incoming slot and
//! is reported to the caller; items are never discarded.

use vstd::prelude::*;

verus! {

/// Descriptive category of an item. It does not gate which slots an
/// item may occupy.
#[derive(Debug, Clone, Copy, PartialEq, Eq, Structural)]
pub enum ItemCategory {
    Weapon,
    Armor,
    Clothes,
    Food,
    Medicine,
    Loot,
    Powerups,
    Resources,
}

/// Mathematical model of an item: the fields of [`ItemInfo`] as their
/// spec-level values.
pub struct ItemModel {
    pub name: Seq<char>,
    pub category: ItemCategory,
    pub max_stack_size: int,
    pub icon: Seq<char>,
    pub uuid: Seq<char>,
}

/// An owned description of one logical item: display name, category,
/// stacking bound, icon resource and a stable unique identifier.
/// Immutable once created; duplicated when an item is split across slots.
#[derive(Debug)]
pub struct ItemInfo {
    pub name: String,
    pub category: ItemCategory,
    pub max_stack_size: i32,
    pub icon: String,
    pub uuid: String,
}

impl View for ItemInfo {
    type V = ItemModel;

    open spec fn view(&self) -> ItemModel {
        ItemModel {
            name: self.name@,
            category: self.category,
            max_stack_size: self.max_stack_size as int,
            icon: self.icon@,
            uuid: self.uuid@,
        }
    }
}

impl ItemInfo {
    /// A new owned copy of the same logical item.
    pub fn duplicate(&self) -> (r: ItemInfo)
        ensures
            r@ == self@,
    {
        ItemInfo {
            name: self.name.clone(),
            category: self.category,
            max_stack_size: self.max_stack_size,
            icon: self.icon.clone(),
            uuid: self.uuid.clone(),
        }
    }
}

/// The capability every kind of game item exposes to the inventory and
/// menu layers: accessors for its fields and an operation that packages
/// the item as an owned [`ItemInfo`] to be stored in a slot.
pub trait InventoryItem {
    /// The logical item this value denotes.
    spec fn model(&self) -> ItemModel;

    fn get_name(&self) -> (r: String)
        ensures
            r@ == self.model().name,
    ;

    fn get_category(&self) -> (r: ItemCategory)
        ensures
            r == self.model().category,
    ;

    fn get_max_stack_size(&self) -> (r: i32)
        ensures
            r as int == self.model().max_stack_size,
    ;

    fn get_icon(&self) -> (r: String)
        ensures
            r@ == self.model().icon,
    ;

    fn get_uuid(&self) -> (r: String)
        ensures
            r@ == self.model().uuid,
    ;

    /// An owned copy of the item, ready to be placed in a slot.
    fn get_boxed(&self) -> (r: ItemInfo)
        ensures
            r@ == self.model(),
    ;
}

impl InventoryItem for ItemInfo {
    open spec fn model(&self) -> ItemModel {
        self@
    }

    fn get_name(&self) -> (r: String) {
        self.name.clone()
    }

    fn get_category(&self) -> (r: ItemCategory) {
        self.category
    }

    fn get_max_stack_size(&self) -> (r: i32) {
        self.max_stack_size
    }

    fn get_icon(&self) -> (r: String) {
        self.icon.clone()
    }

    fn get_uuid(&self) -> (r: String) {
        self.uuid.clone()
    }

    fn get_boxed(&self) -> (r: ItemInfo) {
        self.duplicate()
    }
}

/// Mathematical model of a slot: an optional item and a count.
pub struct SlotModel {
    pub item: Option<ItemModel>,
    pub count: int,
}

/// One slot: an optional owned item and how many of it are stacked here.
/// A count of zero means the slot is conceptually empty regardless of
/// whether an item is present.
#[derive(Debug)]
pub struct InventorySlot {
    pub item: Option<ItemInfo>,
    pub count: i32,
}

impl View for InventorySlot {
    type V = SlotModel;

    open spec fn view(&self) -> SlotModel {
        SlotModel {
            item: match self.item {
                Some(it) => Some(it@),
                None => None,
            },
            count: self.count as int,
        }
    }
}

/// A slot as it may live inside an inventory: the count is within the
/// item's stacking bound, and only slots holding an item count anything.
pub open spec fn slot_wf(s: SlotModel) -> bool {
    &&& s.count >= 0
    &&& s.count > 0 ==> s.item is Some
    &&& s.item matches Some(it) ==> s.count <= it.max_stack_size && it.max_stack_size >= 0
}

/// An incoming stack: it must carry an item, but its count may exceed
/// the stacking bound (it then spans several slots when merged).
pub open spec fn stack_wf(s: SlotModel) -> bool {
    &&& s.count >= 0
    &&& s.item matches Some(it) && it.max_stack_size >= 0
}

impl InventorySlot {
    pub fn new(item: Option<ItemInfo>, count: i32) -> (r: Self)
        ensures
            r@.item == match item {
                Some(it) => Some(it@),
                None => None::<ItemModel>,
            },
            r@.count == count as int,
    {
        InventorySlot { item, count }
    }
}

impl Default for InventorySlot {
    /// An empty slot.
    fn default() -> (r: Self)
        ensures
            r@.item is None,
            r@.count == 0,
    {
        InventorySlot { item: None, count: 0 }
    }
}

/// The slot holds an item with this name.
pub open spec fn slot_matches(s: SlotModel, name: Seq<char>) -> bool {
    s.item matches Some(it) && it.name == name
}

/// The slot holds no item at all.
pub open spec fn slot_empty(s: SlotModel) -> bool {
    s.item is None
}

/// Total count stored for the item named `name` over a slot sequence.
pub open spec fn stack_total(s: Seq<SlotModel>, name: Seq<char>) -> int
    decreases s.len(),
{
    if s.len() == 0 {
        0
    } else {
        stack_total(s.drop_last(), name) + if slot_matches(s.last(), name) {
            s.last().count
        } else {
            0
        }
    }
}

/// Room left in one slot for an item named `name` stacking up to `max`
/// per fresh slot: the free part of a matching stack (bounded by that
/// stack's own item), a full stack for an empty slot, nothing for a slot
/// occupied by another item.
pub open spec fn slot_room(s: SlotModel, name: Seq<char>, max: int) -> int {
    if slot_matches(s, name) {
        if stack_bound(s) - s.count > 0 {
            stack_bound(s) - s.count
        } else {
            0
        }
    } else if slot_empty(s) {
        max
    } else {
        0
    }
}

/// How many more items named `name`, stacking up to `max` per slot, the
/// slots can still absorb.
pub open spec fn free_capacity(s: Seq<SlotModel>, name: Seq<char>, max: int) -> int
    decreases s.len(),
{
    if s.len() == 0 {
        0
    } else {
        free_capacity(s.drop_last(), name, max) + slot_room(s.last(), name, max)
    }
}

/// Changing one slot changes the stored total by that slot's contribution.
pub proof fn lemma_stack_total_update(s: Seq<SlotModel>, name: Seq<char>, j: int, v: SlotModel)
    requires
        0 <= j < s.len(),
    ensures
        stack_total(s.update(j, v), name) == stack_total(s, name) - (if slot_matches(s[j], name) {
            s[j].count
        } else {
            0
        }) + (if slot_matches(v, name) {
            v.count
        } else {
            0
        }),
    decreases s.len(),
{
    if j == s.len() - 1 {
        assert(s.update(j, v).drop_last() =~= s.drop_last());
    } else {
        assert(s.update(j, v).drop_last() =~= s.drop_last().update(j, v));
        lemma_stack_total_update(s.drop_last(), name, j, v);
    }
}

/// Changing one slot changes the free capacity by that slot's room.
pub proof fn lemma_free_capacity_update(s: Seq<SlotModel>, name: Seq<char>, max: int, j: int, v: SlotModel)
    requires
        0 <= j < s.len(),
    ensures
        free_capacity(s.update(j, v), name, max) == free_capacity(s, name, max) - slot_room(
            s[j],
            name,
            max,
        ) + slot_room(v, name, max),
    decreases s.len(),
{
    if j == s.len() - 1 {
        assert(s.update(j, v).drop_last() =~= s.drop_last());
    } else {
        assert(s.update(j, v).drop_last() =~= s.drop_last().update(j, v));
        lemma_free_capacity_update(s.drop_last(), name, max, j, v);
    }
}

/// Free capacity is never negative for a nonnegative stacking bound.
pub proof fn lemma_free_capacity_nonneg(s: Seq<SlotModel>, name: Seq<char>, max: int)
    requires
        max >= 0,
    ensures
        free_capacity(s, name, max) >= 0,
    decreases s.len(),
{
    if s.len() > 0 {
        lemma_free_capacity_nonneg(s.drop_last(), name, max);
    }
}

/// If no single slot has room left, the whole collection has none.
pub proof fn lemma_free_capacity_zero(s: Seq<SlotModel>, name: Seq<char>, max: int)
    requires
        forall|j: int| 0 <= j < s.len() ==> slot_room(#[trigger] s[j], name, max) == 0,
    ensures
        free_capacity(s, name, max) == 0,
    decreases s.len(),
{
    if s.len() > 0 {
        assert(forall|j: int|
            0 <= j < s.drop_last().len() ==> #[trigger] s.drop_last()[j] == s[j]);
        lemma_free_capacity_zero(s.drop_last(), name, max);
    }
}

/// The stacking bound of an occupied slot: its own item's maximum stack
/// size.
pub open spec fn stack_bound(s: SlotModel) -> int {
    s.item->Some_0.max_stack_size
}

/// `order` lists indices of `s` sorted by count ascending, ties in
/// storage order.
pub open spec fn order_sorted(s: Seq<SlotModel>, order: Seq<usize>) -> bool {
    forall|u: int, v: int|
        #![trigger order[u], order[v]]
        0 <= u < v < order.len() ==> s[order[u] as int].count < s[order[v] as int].count || (
        s[order[u] as int].count == s[order[v] as int].count && order[u] < order[v])
}

/// Every listed index is a valid slot index.
pub open spec fn order_in_bounds(s: Seq<SlotModel>, order: Seq<usize>) -> bool {
    forall|u: int| 0 <= u < order.len() ==> (#[trigger] order[u]) < s.len()
}

/// `order` lists exactly the slots holding an item named `name`.
pub open spec fn order_complete(s: Seq<SlotModel>, order: Seq<usize>, name: Seq<char>) -> bool {
    forall|j: int|
        0 <= j < s.len() ==> (slot_matches(#[trigger] s[j], name) <==> exists|u: int|
            0 <= u < order.len() && (#[trigger] order[u]) as int == j)
}

/// If slots listed in a sorted order only ever received items while every
/// earlier listed slot ended up full, then of any two stacks ordered by
/// (count, index), the later one received items only if the earlier one
/// is full.
proof fn lemma_smallest_first(
    s0: Seq<SlotModel>,
    s1: Seq<SlotModel>,
    order: Seq<usize>,
    name: Seq<char>,
    t: int,
)
    requires
        s1.len() == s0.len(),
        order_in_bounds(s0, order),
        order_sorted(s0, order),
        order_complete(s0, order, name),
        0 <= t <= order.len(),
        forall|u: int|
            t <= u < order.len() ==> s1[(#[trigger] order[u]) as int] == s0[order[u] as int],
        forall|u: int, v: int|
            #![trigger order[u], order[v]]
            0 <= u < v < t && s1[order[v] as int].count > s0[order[v] as int].count
                ==> s1[order[u] as int].count >= stack_bound(s0[order[u] as int]),
    ensures
        forall|j: int, k: int|
            #![trigger s0[j], s0[k]]
            0 <= j < s0.len() && 0 <= k < s0.len() && slot_matches(s0[j], name) && slot_matches(
                s0[k],
                name,
            ) && (s0[j].count < s0[k].count || (s0[j].count == s0[k].count && j < k))
                && s1[k].count > s0[k].count ==> s1[j].count >= stack_bound(s0[j]),
{
    assert forall|j: int, k: int|
        #![trigger s0[j], s0[k]]
        0 <= j < s0.len() && 0 <= k < s0.len() && slot_matches(s0[j], name) && slot_matches(
            s0[k],
            name,
        ) && (s0[j].count < s0[k].count || (s0[j].count == s0[k].count && j < k))
            && s1[k].count > s0[k].count implies s1[j].count >= stack_bound(s0[j]) by {
        let u = choose|u: int| 0 <= u < order.len() && (#[trigger] order[u]) as int == j;
        let v = choose|v: int| 0 <= v < order.len() && (#[trigger] order[v]) as int == k;
        if v >= t {
            assert(s1[k] == s0[k]);
            assert(false);
        }
        if u == v {
            assert(false);
        }
        if u > v {
            assert(s0[k].count < s0[j].count || (s0[k].count == s0[j].count && k < j));
            assert(false);
        }
        assert(0 <= u < v < t);
    }
}

/// Everything `add` guarantees about the slot models when it merges an
/// incoming stack of `c0` items `im`, leaving `c1` of them unabsorbed:
/// bounded counts, conservation, an exact leftover, and the
/// smallest-first, stacks-before-empties, storage-order fill discipline.
pub open spec fn add_post(
    s0: Seq<SlotModel>,
    s1: Seq<SlotModel>,
    im: ItemModel,
    c0: int,
    c1: int,
) -> bool {
    let name = im.name;
    let max = im.max_stack_size;
    &&& s1.len() == s0.len()
    &&& 0 <= c1 <= c0
    // the leftover is exactly what exceeds the free capacity
    &&& c1 == if c0 - free_capacity(s0, name, max) > 0 {
        c0 - free_capacity(s0, name, max)
    } else {
        0
    }
    // conservation: what went in is stored or reported back
    &&& stack_total(s1, name) == stack_total(s0, name) + c0 - c1
    // slots holding a different item are untouched
    &&& forall|j: int|
        0 <= j < s0.len() && !slot_matches(#[trigger] s0[j], name) && !slot_empty(s0[j]) ==> s1[j]
            == s0[j]
    // matching stacks keep their item and only grow, up to their bound
    &&& forall|j: int|
        0 <= j < s0.len() && slot_matches(#[trigger] s0[j], name) ==> s1[j].item == s0[j].item && (
        s1[j].count == s0[j].count || (s0[j].count < s1[j].count <= stack_bound(s0[j])))
    // empty slots are untouched or hold a copy of the incoming item
    &&& forall|j: int|
        0 <= j < s0.len() && slot_empty(#[trigger] s0[j]) ==> (s1[j] == s0[j] || (s1[j].item
            == Some(im) && 0 <= s1[j].count <= max))
    // smallest stacks fill first (ties in storage order)
    &&& forall|j: int, k: int|
        #![trigger s0[j], s0[k]]
        0 <= j < s0.len() && 0 <= k < s0.len() && slot_matches(s0[j], name) && slot_matches(
            s0[k],
            name,
        ) && (s0[j].count < s0[k].count || (s0[j].count == s0[k].count && j < k)) && s1[k].count
            > s0[k].count ==> s1[j].count >= stack_bound(s0[j])
    // existing stacks fill before any empty slot is used
    &&& forall|j: int, k: int|
        #![trigger s0[j], s0[k]]
        0 <= j < s0.len() && 0 <= k < s0.len() && slot_matches(s0[j], name) && slot_empty(s0[k])
            && s1[k] != s0[k] ==> s1[j].count >= stack_bound(s0[j])
    // empty slots fill in storage order
    &&& forall|j: int, k: int|
        #![trigger s0[j], s0[k]]
        0 <= j < k < s0.len() && slot_empty(s0[j]) && slot_empty(s0[k]) && s1[k] != s0[k]
            ==> s1[j].item == Some(im) && (s1[k].count > 0 ==> s1[j].count >= max)
}

/// If the slots have no free capacity at all for an item, no single slot
/// has room for it.
pub proof fn lemma_free_capacity_zero_pointwise(s: Seq<SlotModel>, name: Seq<char>, max: int)
    requires
        max >= 0,
        free_capacity(s, name, max) == 0,
    ensures
        forall|j: int| 0 <= j < s.len() ==> slot_room(#[trigger] s[j], name, max) == 0,
    decreases s.len(),
{
    if s.len() > 0 {
        lemma_free_capacity_nonneg(s.drop_last(), name, max);
        lemma_free_capacity_zero_pointwise(s.drop_last(), name, max);
        assert forall|j: int| 0 <= j < s.len() implies slot_room(#[trigger] s[j], name, max)
            == 0 by {
            if j < s.len() - 1 {
                assert(s.drop_last()[j] == s[j]);
            }
        }
    }
}

/// Packing invariant and conservation law: a merge keeps every slot
/// within its item's stacking bound, and the incoming count is exactly
/// the stored increase plus the reported leftover — no item is created
/// or lost. Every merge preserves the well-formedness it assumes, so by
/// induction both claims hold across any sequence of merges.
pub proof fn lemma_packing_invariant(
    s0: Seq<SlotModel>,
    s1: Seq<SlotModel>,
    im: ItemModel,
    c0: int,
    c1: int,
)
    requires
        forall|j: int| 0 <= j < s0.len() ==> slot_wf(#[trigger] s0[j]),
        im.max_stack_size >= 0,
        c0 >= 0,
        add_post(s0, s1, im, c0, c1),
    ensures
        forall|j: int| 0 <= j < s1.len() ==> slot_wf(#[trigger] s1[j]),
        stack_total(s1, im.name) - stack_total(s0, im.name) + c1 == c0,
        0 <= c1 <= c0,
{
    assert forall|j: int| 0 <= j < s1.len() implies slot_wf(#[trigger] s1[j]) by {
        if slot_matches(s0[j], im.name) {
        } else if slot_empty(s0[j]) {
        } else {
            assert(s1[j] == s0[j]);
        }
    }
}

/// Smallest-first fill law: a merge tops off a stack only if every
/// strictly smaller stack of the same item (and every equal stack stored
/// earlier) has been filled to its bound.
pub proof fn lemma_smallest_first_fill(
    s0: Seq<SlotModel>,
    s1: Seq<SlotModel>,
    im: ItemModel,
    c0: int,
    c1: int,
    j: int,
    k: int,
)
    requires
        add_post(s0, s1, im, c0, c1),
        0 <= j < s0.len(),
        0 <= k < s0.len(),
        slot_matches(s0[j], im.name),
        slot_matches(s0[k], im.name),
        s0[j].count < s0[k].count || (s0[j].count == s0[k].count && j < k),
        s1[k].count > s0[k].count,
    ensures
        s1[j].count >= stack_bound(s0[j]),
{
}

/// Overflow reporting law: when the inventory has no room at all for the
/// incoming item, a merge mutates no slot and reports the whole incoming
/// count back as leftover.
pub proof fn lemma_overflow_reports_leftover(
    s0: Seq<SlotModel>,
    s1: Seq<SlotModel>,
    im: ItemModel,
    c0: int,
    c1: int,
)
    requires
        forall|j: int| 0 <= j < s0.len() ==> slot_wf(#[trigger] s0[j]),
        im.max_stack_size > 0,
        c0 >= 0,
        free_capacity(s0, im.name, im.max_stack_size) == 0,
        add_post(s0, s1, im, c0, c1),
    ensures
        c1 == c0,
        forall|j: int| 0 <= j < s0.len() ==> s1[j] == s0[j],
{
    lemma_free_capacity_zero_pointwise(s0, im.name, im.max_stack_size);
    assert forall|j: int| 0 <= j < s0.len() implies s1[j] == s0[j] by {
        if slot_matches(s0[j], im.name) {
            assert(s0[j].count >= stack_bound(s0[j]));
            assert(s1[j].count == s0[j].count);
        } else if slot_empty(s0[j]) {
            assert(slot_room(s0[j], im.name, im.max_stack_size) == im.max_stack_size);
            assert(false);
        }
    }
}

/// Error returned by inventory operations.
#[derive(Debug, Clone, Copy, PartialEq, Eq, Structural)]
pub enum InventoryError {
    /// The incoming slot carried no item, so there is nothing to merge.
    MissingItem,
}

impl InventoryError {
    /// A short description, for the embedding layer's logs.
    pub fn message(&self) -> (r: String) {
        match self {
            InventoryError::MissingItem => "the incoming slot carries no item".to_string(),
        }
    }
}

/// A fixed-capacity, ordered collection of item slots.
#[derive(Debug)]
pub struct Inventory {
    max_slots: usize,
    slots: Vec<InventorySlot>,
}

impl View for Inventory {
    type V = Seq<SlotModel>;

    closed spec fn view(&self) -> Seq<SlotModel> {
        self.slots@.map_values(|s: InventorySlot| s@)
    }
}

impl Inventory {
    /// Every slot is well formed and the slot count is the fixed capacity.
    pub closed spec fn wf(self) -> bool {
        &&& self.slots@.len() == self.max_slots
        &&& forall|i: int| 0 <= i < self@.len() ==> slot_wf(#[trigger] self@[i])
    }


    /// A fresh inventory with the default capacity of fifty empty slots.
    pub fn new() -> (r: Self)
        ensures
            r.wf(),
            r@.len() == 50,
            forall|i: int| 0 <= i < r@.len() ==> slot_empty(#[trigger] r@[i]) && r@[i].count == 0,
    {
        let max_slots: usize = 50;
        let mut slots: Vec<InventorySlot> = Vec::new();
        for k in 0..max_slots
            invariant
                slots@.len() == k,
                forall|i: int|
                    0 <= i < slots@.len() ==> (#[trigger] slots@[i])@.item is None
                        && slots@[i]@.count == 0,
        {
            slots.push(InventorySlot::default());
        }
        Inventory { max_slots, slots }
    }

    /// An inventory over the given slots, for holders that already own
    /// their stacks (a saved or pre-filled inventory).
    pub fn from_slots(slots: Vec<InventorySlot>) -> (r: Self)
        requires
            forall|i: int| 0 <= i < slots@.len() ==> slot_wf((#[trigger] slots@[i])@),
        ensures
            r.wf(),
            r@ == slots@.map_values(|s: InventorySlot| s@),
    {
        let max_slots: usize = slots.len();
        Inventory { max_slots, slots }
    }

    /// Number of slots.
    pub fn len(&self) -> (r: usize)
        ensures
            r == self@.len(),
    {
        self.slots.len()
    }

    /// Read access to one slot.
    pub fn slot_at(&self, i: usize) -> (r: &InventorySlot)
        requires
            i < self@.len(),
        ensures
            r@ == self@[i as int],
    {
        &self.slots[i]
    }

    /// Indices of the slots already holding `proto`'s item, sorted by
    /// count ascending, ties in storage order.
    #[verifier::rlimit(60)]
    fn collect_order(&self, proto: &ItemInfo) -> (order: Vec<usize>)
        ensures
            order_in_bounds(self@, order@),
            order_sorted(self@, order@),
            order_complete(self@, order@, proto@.name),
    {
        let ghost s0: Seq<SlotModel> = self@;
        let ghost name: Seq<char> = proto@.name;
        let n: usize = self.slots.len();
        let mut order: Vec<usize> = Vec::new();
        let mut k: usize = 0;
        while k < n
            invariant
                k <= n,
                n == s0.len(),
                s0 == self@,
                name == proto@.name,
                order_in_bounds(s0, order@),
                order_sorted(s0, order@),
                forall|u: int| 0 <= u < order@.len() ==> (#[trigger] order@[u]) < k,
                forall|j: int|
                    0 <= j < k ==> (slot_matches(#[trigger] s0[j], name) <==> exists|u: int|
                        0 <= u < order@.len() && (#[trigger] order@[u]) as int == j),
            decreases n - k,
        {
            let is_match: bool = match &self.slots[k].item {
                Some(it) => it.name == proto.name,
                None => false,
            };
            proof {
                assert(is_match == slot_matches(s0[k as int], name));
            }
            if is_match {
                let c: i32 = self.slots[k].count;
                let mut p: usize = order.len();
                while p > 0 && self.slots[order[p - 1]].count > c
                    invariant
                        p <= order@.len(),
                        n == s0.len(),
                        s0 == self@,
                        order_in_bounds(s0, order@),
                        order_sorted(s0, order@),
                        forall|u: int| 0 <= u < order@.len() ==> (#[trigger] order@[u]) < k,
                        k < n,
                        c == s0[k as int].count,
                        forall|u: int|
                            p <= u < order@.len() ==> s0[(#[trigger] order@[u]) as int].count > c,
                    decreases p,
                {
                    p = p - 1;
                }
                proof {
                    assert forall|u: int| 0 <= u < p implies s0[(#[trigger] order@[u]) as int].count
                        <= c by {
                        if u < p - 1 {
                            assert(s0[order@[u] as int].count <= s0[order@[p - 1] as int].count);
                        }
                    }
                }
                let ghost pre_order: Seq<usize> = order@;
                order.insert(p, k);
                proof {
                    pre_order.insert_ensures(p as int, k);
                    assert forall|u: int, v: int|
                        #![trigger order@[u], order@[v]]
                        0 <= u < v < order@.len() implies s0[order@[u] as int].count
                        < s0[order@[v] as int].count || (s0[order@[u] as int].count
                        == s0[order@[v] as int].count && order@[u] < order@[v]) by {
                        let pi = p as int;
                        if v < pi {
                            assert(order@[u] == pre_order[u] && order@[v] == pre_order[v]);
                        } else if u < pi && v == pi {
                            assert(order@[u] == pre_order[u] && order@[v] == k);
                        } else if u < pi && v > pi {
                            assert(order@[u] == pre_order[u] && order@[v] == pre_order[v - 1]);
                            assert(pi <= v - 1 < pre_order.len());
                        } else if u == pi {
                            assert(order@[u] == k && order@[v] == pre_order[v - 1]);
                            assert(s0[pre_order[v - 1] as int].count > c);
                        } else {
                            assert(order@[u] == pre_order[u - 1] && order@[v] == pre_order[v - 1]);
                        }
                    }
                    assert forall|j: int|
                        0 <= j < k + 1 implies (slot_matches(#[trigger] s0[j], name)
                        <==> exists|u: int|
                        0 <= u < order@.len() && (#[trigger] order@[u]) as int == j) by {
                        let pi = p as int;
                        if j == k {
                            assert(order@[pi] as int == j);
                        } else if slot_matches(s0[j], name) {
                            let u = choose|u: int|
                                0 <= u < pre_order.len() && (#[trigger] pre_order[u]) as int == j;
                            if u < pi {
                                assert(order@[u] as int == j);
                            } else {
                                assert(order@[u + 1] as int == j);
                            }
                        } else {
                            assert forall|u: int|
                                0 <= u < order@.len() implies (#[trigger] order@[u]) as int
                                != j by {
                                if u < pi {
                                    assert(order@[u] == pre_order[u]);
                                } else if u > pi {
                                    assert(order@[u] == pre_order[u - 1]);
                                } else {
                                    assert(order@[u] == k);
                                }
                            }
                        }
                    }
                }
            }
            k = k + 1;
        }
        order
    }

    /// First merge phase: top off the existing stacks listed in `order`,
    /// smallest first, with up to `rem0` incoming items. Returns what is
    /// left of the incoming count.
    fn fill_matching(&mut self, proto: &ItemInfo, order: &Vec<usize>, rem0: i32) -> (rem: i32)
        requires
            old(self).wf(),
            rem0 >= 0,
            proto@.max_stack_size >= 0,
            order_in_bounds(old(self)@, order@),
            order_sorted(old(self)@, order@),
            order_complete(old(self)@, order@, proto@.name),
        ensures
            final(self).wf(),
            final(self)@.len() == old(self)@.len(),
            0 <= rem <= rem0,
            forall|j: int|
                0 <= j < old(self)@.len() && !slot_matches(#[trigger] old(self)@[j], proto@.name)
                    ==> final(self)@[j] == old(self)@[j],
            forall|j: int|
                0 <= j < old(self)@.len() && slot_matches(#[trigger] old(self)@[j], proto@.name)
                    ==> final(self)@[j].item == old(self)@[j].item && (final(self)@[j].count
                    == old(self)@[j].count || (old(self)@[j].count < final(self)@[j].count
                    <= stack_bound(old(self)@[j]))),
            rem > 0 ==> forall|j: int|
                0 <= j < old(self)@.len() && slot_matches(#[trigger] old(self)@[j], proto@.name)
                    ==> final(self)@[j].count >= stack_bound(old(self)@[j]),
            forall|j: int, k: int|
                #![trigger old(self)@[j], old(self)@[k]]
                0 <= j < old(self)@.len() && 0 <= k < old(self)@.len() && slot_matches(
                    old(self)@[j],
                    proto@.name,
                ) && slot_matches(old(self)@[k], proto@.name) && (old(self)@[j].count
                    < old(self)@[k].count || (old(self)@[j].count == old(self)@[k].count && j < k))
                    && final(self)@[k].count > old(self)@[k].count ==> final(self)@[j].count
                    >= stack_bound(old(self)@[j]),
            stack_total(final(self)@, proto@.name) == stack_total(old(self)@, proto@.name) + rem0
                - rem,
            free_capacity(final(self)@, proto@.name, proto@.max_stack_size) == free_capacity(
                old(self)@,
                proto@.name,
                proto@.max_stack_size,
            ) - (rem0 - rem),
    {
        let ghost s0: Seq<SlotModel> = self@;
        let ghost name: Seq<char> = proto@.name;
        let ghost max: int = proto@.max_stack_size;
        let mut rem: i32 = rem0;
        let mut t: usize = 0;
        while t < order.len() && rem > 0
            invariant
                self.wf(),
                s0 == old(self)@,
                self@.len() == s0.len(),
                name == proto@.name,
                max == proto@.max_stack_size,
                max >= 0,
                rem0 >= 0,
                0 <= rem <= rem0,
                t <= order@.len(),
                order_in_bounds(s0, order@),
                order_sorted(s0, order@),
                order_complete(s0, order@, name),
                forall|j: int|
                    0 <= j < s0.len() && !slot_matches(#[trigger] s0[j], name)
                        ==> self@[j] == s0[j],
                forall|u: int|
                    t <= u < order@.len()
                        ==> self@[(#[trigger] order@[u]) as int] == s0[order@[u] as int],
                forall|u: int|
                    0 <= u < t ==> {
                        let j = (#[trigger] order@[u]) as int;
                        self@[j].item == s0[j].item && (self@[j].count == s0[j].count
                            || (s0[j].count < self@[j].count <= stack_bound(s0[j])))
                    },
                rem > 0 ==> forall|u: int|
                    0 <= u < t ==> self@[(#[trigger] order@[u]) as int].count >= stack_bound(
                        s0[order@[u] as int],
                    ),
                forall|u: int, v: int|
                    #![trigger order@[u], order@[v]]
                    0 <= u < v < t && self@[order@[v] as int].count > s0[order@[v] as int].count
                        ==> self@[order@[u] as int].count >= stack_bound(s0[order@[u] as int]),
                stack_total(self@, name) == stack_total(s0, name) + rem0 - rem,
                free_capacity(self@, name, max) == free_capacity(s0, name, max) - (rem0 - rem),
            decreases order@.len() - t,
        {
            let j: usize = order[t];
            proof {
                assert(order@[t as int] == j);
                assert(slot_matches(s0[j as int], name));
                assert(self@[j as int] == s0[j as int]);
            }
            let cnt: i32 = self.slots[j].count;
            let smax: i32 = match &self.slots[j].item {
                Some(it) => it.max_stack_size,
                None => 0,
            };
            proof {
                assert(smax as int == stack_bound(s0[j as int]));
                assert(cnt as int == s0[j as int].count);
            }
            let room: i32 = if smax > cnt {
                smax - cnt
            } else {
                0
            };
            let fit: i32 = if room < rem {
                room
            } else {
                rem
            };
            let ghost pre: Seq<SlotModel> = self@;
            self.slots[j].count = cnt + fit;
            proof {
                assert(self@ =~= pre.update(j as int, self@[j as int]));
                lemma_stack_total_update(pre, name, j as int, self@[j as int]);
                lemma_free_capacity_update(pre, name, max, j as int, self@[j as int]);
                assert(slot_room(pre[j as int], name, max) == room);
                assert(slot_room(self@[j as int], name, max) == room - fit);
                assert forall|u: int|
                    t + 1 <= u < order@.len() implies order@[u] != order@[t as int] by {
                    assert(s0[order@[t as int] as int].count < s0[order@[u] as int].count
                        || (s0[order@[t as int] as int].count == s0[order@[u] as int].count
                        && order@[t as int] < order@[u]));
                }
            }
            rem = rem - fit;
            t = t + 1;
        }
        proof {
            lemma_smallest_first(s0, self@, order@, name, t as int);
            if rem > 0 {
                assert forall|j: int|
                    0 <= j < s0.len() && slot_matches(#[trigger] s0[j], name)
                    implies self@[j].count >= stack_bound(s0[j]) by {
                    let u = choose|u: int|
                        0 <= u < order@.len() && (#[trigger] order@[u]) as int == j;
                }
            }
        }
        rem
    }

    /// Second merge phase: fill empty slots in storage order with copies
    /// of `proto`, up to `rem0` items. Returns what is left.
    fn fill_empty(&mut self, proto: &ItemInfo, rem0: i32) -> (rem: i32)
        requires
            old(self).wf(),
            rem0 >= 0,
            proto@.max_stack_size >= 0,
        ensures
            final(self).wf(),
            final(self)@.len() == old(self)@.len(),
            0 <= rem <= rem0,
            forall|j: int|
                0 <= j < old(self)@.len() && !slot_empty(#[trigger] old(self)@[j]) ==> final(self)@[j] == old(self)@[j],
            forall|j: int|
                0 <= j < old(self)@.len() && slot_empty(#[trigger] old(self)@[j]) ==> (final(self)@[j] == old(self)@[j] || (final(self)@[j].item == Some(proto@) && 0 <= final(self)@[j].count <= proto@.max_stack_size)),
            rem > 0 ==> forall|j: int|
                0 <= j < old(self)@.len() && slot_empty(#[trigger] old(self)@[j]) ==> final(self)@[j].item == Some(proto@) && final(self)@[j].count >= proto@.max_stack_size,
            forall|j: int, k: int|
                #![trigger old(self)@[j], old(self)@[k]]
                0 <= j < k < old(self)@.len() && slot_empty(old(self)@[j]) && slot_empty(
                    old(self)@[k],
                ) && final(self)@[k] != old(self)@[k] ==> final(self)@[j].item == Some(proto@) && (
                final(self)@[k].count > 0 ==> final(self)@[j].count >= proto@.max_stack_size),
            stack_total(final(self)@, proto@.name) == stack_total(old(self)@, proto@.name) + rem0
                - rem,
            free_capacity(final(self)@, proto@.name, proto@.max_stack_size) == free_capacity(
                old(self)@,
                proto@.name,
                proto@.max_stack_size,
            ) - (rem0 - rem),
    {
        let ghost s0: Seq<SlotModel> = self@;
        let ghost im: ItemModel = proto@;
        let ghost name: Seq<char> = im.name;
        let ghost max: int = im.max_stack_size;
        let n: usize = self.slots.len();
        let mut rem: i32 = rem0;
        let mut i: usize = 0;
        while i < n && rem > 0
            invariant
                self.wf(),
                s0 == old(self)@,
                n == s0.len(),
                self@.len() == n,
                im == proto@,
                name == im.name,
                max == im.max_stack_size,
                max >= 0,
                rem0 >= 0,
                0 <= rem <= rem0,
                i <= n,
                forall|j: int|
                    0 <= j < n && !slot_empty(#[trigger] s0[j]) ==> self@[j] == s0[j],
                forall|j: int|
                    0 <= j < i && slot_empty(#[trigger] s0[j]) ==> self@[j].item == Some(im) && 0
                        <= self@[j].count <= max,
                rem > 0 ==> forall|j: int|
                    0 <= j < i && slot_empty(#[trigger] s0[j]) ==> self@[j].count >= max,
                forall|j1: int, j2: int|
                    #![trigger s0[j1], s0[j2]]
                    0 <= j1 < j2 < i && slot_empty(s0[j1]) && slot_empty(s0[j2]) && self@[j2].count
                        > 0 ==> self@[j1].count >= max,
                forall|j: int| i <= j < n && slot_empty(#[trigger] s0[j]) ==> self@[j] == s0[j],
                stack_total(self@, name) == stack_total(s0, name) + rem0 - rem,
                free_capacity(self@, name, max) == free_capacity(s0, name, max) - (rem0 - rem),
            decreases n - i,
        {
            let is_empty: bool = self.slots[i].item.is_none();
            if is_empty {
                let fit: i32 = if proto.max_stack_size < rem {
                    proto.max_stack_size
                } else {
                    rem
                };
                let dup: ItemInfo = proto.duplicate();
                let ghost pre: Seq<SlotModel> = self@;
                self.slots[i] = InventorySlot { item: Some(dup), count: fit };
                proof {
                    assert(self@ =~= pre.update(i as int, self@[i as int]));
                    lemma_stack_total_update(pre, name, i as int, self@[i as int]);
                    lemma_free_capacity_update(pre, name, max, i as int, self@[i as int]);
                    assert(slot_room(pre[i as int], name, max) == max);
                    assert(slot_room(self@[i as int], name, max) == max - fit);
                }
                rem = rem - fit;
            }
            i = i + 1;
        }
        rem
    }

    /// Merge the incoming stack into the inventory.
    ///
    /// Existing stacks of the same item are topped off smallest first,
    /// then empty slots are filled in storage order with copies of the
    /// incoming item. Whatever does not fit stays in `new_item` — items
    /// are never discarded — and the caller decides how to signal a full
    /// inventory. Returns `Ok(true)` exactly when the whole incoming
    /// count was absorbed.
    pub fn add(&mut self, new_item: &mut InventorySlot) -> (r: Result<bool, InventoryError>)
        requires
            old(self).wf(),
            old(new_item)@.count >= 0,
            old(new_item)@.item matches Some(it) ==> it.max_stack_size >= 0,
        ensures
            final(self).wf(),
            final(self)@.len() == old(self)@.len(),
            match r {
                Result::Err(e) => {
                    &&& e == InventoryError::MissingItem
                    &&& old(new_item)@.item is None
                    &&& *final(self) == *old(self)
                    &&& *final(new_item) == *old(new_item)
                },
                Result::Ok(done) => {
                    &&& old(new_item)@.item is Some
                    &&& final(new_item).item == old(new_item).item
                    &&& add_post(
                        old(self)@,
                        final(self)@,
                        old(new_item)@.item->Some_0,
                        old(new_item)@.count,
                        final(new_item)@.count,
                    )
                    &&& done == (final(new_item)@.count == 0)
                },
            },
    {
        let proto: ItemInfo = match &new_item.item {
            Some(it) => it.duplicate(),
            None => {
                return Err(InventoryError::MissingItem);
            },
        };
        let ghost im: ItemModel = proto@;
        let ghost name: Seq<char> = im.name;
        let ghost max: int = im.max_stack_size;
        let ghost s0: Seq<SlotModel> = self@;
        let c0: i32 = new_item.count;

        let order: Vec<usize> = self.collect_order(&proto);
        let rem1: i32 = self.fill_matching(&proto, &order, c0);
        let ghost s_mid: Seq<SlotModel> = self@;

        if rem1 == 0 {
            new_item.count = 0;
            proof {
                lemma_free_capacity_nonneg(s_mid, name, max);
            }
            return Ok(true);
        }

        let rem2: i32 = self.fill_empty(&proto, rem1);
        let ghost s1: Seq<SlotModel> = self@;
        new_item.count = rem2;
        proof {
            assert forall|j: int|
                0 <= j < s0.len() && slot_matches(#[trigger] s0[j], name)
                implies s1[j] == s_mid[j] by {
                assert(!slot_empty(s_mid[j]));
            }
            assert forall|j: int|
                0 <= j < s0.len() && slot_empty(#[trigger] s0[j]) implies s_mid[j] == s0[j] by {
                assert(!slot_matches(s0[j], name));
            }
            if rem2 > 0 {
                assert forall|j: int| 0 <= j < s1.len() implies slot_room(
                    #[trigger] s1[j],
                    name,
                    max,
                ) == 0 by {
                    if slot_empty(s0[j]) {
                        assert(s1[j].item == Some(im));
                    } else if slot_matches(s0[j], name) {
                        assert(s1[j].count >= stack_bound(s0[j]));
                    }
                }
                lemma_free_capacity_zero(s1, name, max);
            } else {
                lemma_free_capacity_nonneg(s1, name, max);
            }
        }
        Ok(rem2 == 0)
    }

    /// Removal of items is deliberately not implemented: consuming or
    /// dropping looted items is a separate concern with its own
    /// conservation rules, and nothing in this crate needs it yet. The
    /// call leaves the inventory untouched.
    pub fn remove(&mut self, _item: ItemInfo)
        ensures
            *final(self) == *old(self),
    {
    }
}

} // verus!
