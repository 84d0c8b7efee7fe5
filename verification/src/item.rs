//! Deck items: a stem, four choices and the index of the right one.
use rand::seq::SliceRandom;
use vstd::prelude::*;

use crate::ids::ItemId;
use crate::time::Timestamp;

verus! {

/// Calls `rand::seq::SliceRandom::choose` with `rand::thread_rng()`. The source returns `None`
/// for an empty slice and otherwise one of its elements; which one is left to chance.
#[verifier::external_body]
pub(crate) fn choose_random<T: Copy>(items: &[T]) -> (r: Option<T>)
    ensures
        r is None <==> items@.len() == 0,
        r matches Some(x) ==> items@.contains(x),
{
    items.choose(&mut rand::thread_rng()).copied()
}

/// The four answers offered for a stem, in the order shown.
#[derive(Debug, Clone, PartialEq, Eq)]
pub struct McqChoices {
    inner: [String; 4],
}

/// One of the four choice positions, 0 to 3.
#[derive(Debug, Clone, Copy, PartialEq, Eq, Structural)]
pub struct ChoiceIndex(u8);

/// Why a value is not a choice index.
#[derive(Debug, Clone, Copy, PartialEq, Eq, Structural)]
pub enum ItemError {
    InvalidChosenIndex,
}

/// A multiple-choice deck item.
#[derive(Debug, Clone, PartialEq, Eq)]
pub struct Item {
    pub id: ItemId,
    pub stem: String,
    pub choices: McqChoices,
    pub correct_index: ChoiceIndex,
    pub suspended: bool,
    pub external_ref: Option<String>,
}

/// The record of one answered freeze: which item, which choice, whether it was right, and when.
#[derive(Debug, Clone, PartialEq, Eq)]
pub struct Answer {
    item_id: ItemId,
    chosen_index: ChoiceIndex,
    correct: bool,
    answered_at: Timestamp,
}

/// The items that may be shown on the lock surface.
#[derive(Debug, Clone, PartialEq, Eq)]
pub struct Deck {
    items: Vec<Item>,
}

impl View for ChoiceIndex {
    type V = u8;

    closed spec fn view(&self) -> u8 {
        self.0
    }
}

impl ChoiceIndex {
    #[verifier::type_invariant]
    spec fn in_range(self) -> bool {
        self.0 <= 3
    }

    /// The index for `index`, which must be 0 to 3.
    pub fn try_new(index: u8) -> (r: Result<ChoiceIndex, ItemError>)
        ensures
            index <= 3 ==> (r matches Ok(c) && c@ == index),
            index > 3 ==> r == Err::<ChoiceIndex, ItemError>(ItemError::InvalidChosenIndex),
    {
        if index > 3 {
            return Err(ItemError::InvalidChosenIndex);
        }
        Ok(ChoiceIndex(index))
    }

    /// The position, 0 to 3.
    pub fn index(self) -> (r: u8)
        ensures
            r == self@,
            r <= 3,
    {
        proof {
            use_type_invariant(&self);
        }
        self.0
    }
}

/// Two choice indices are equal exactly when their positions are.
pub proof fn lemma_choice_index_view_injective(a: ChoiceIndex, b: ChoiceIndex)
    ensures
        (a == b) <==> (a@ == b@),
{
}

impl McqChoices {
    /// The four choices, in order.
    pub closed spec fn choices(&self) -> Seq<String> {
        self.inner@
    }

    pub fn new(choices: [String; 4]) -> (r: McqChoices)
        ensures
            r.choices() == choices@,
    {
        McqChoices { inner: choices }
    }

    pub fn as_slice(&self) -> (r: &[String])
        ensures
            r@ == self.choices(),
            r@.len() == 4,
    {
        self.inner.as_slice()
    }
}

impl View for Answer {
    /// Item, chosen index, correctness, instant.
    type V = (ItemId, ChoiceIndex, bool, Timestamp);

    closed spec fn view(&self) -> (ItemId, ChoiceIndex, bool, Timestamp) {
        (self.item_id, self.chosen_index, self.correct, self.answered_at)
    }
}

impl Answer {
    pub fn item_id(&self) -> (r: ItemId)
        ensures
            r == self@.0,
    {
        self.item_id
    }

    pub fn chosen_index(&self) -> (r: ChoiceIndex)
        ensures
            r == self@.1,
    {
        self.chosen_index
    }

    pub fn correct(&self) -> (r: bool)
        ensures
            r == self@.2,
    {
        self.correct
    }

    pub fn answered_at(&self) -> (r: Timestamp)
        ensures
            r == self@.3,
    {
        self.answered_at
    }
}

impl Item {
    pub fn new(
        id: ItemId,
        stem: String,
        choices: McqChoices,
        correct_index: ChoiceIndex,
        suspended: bool,
        external_ref: Option<String>,
    ) -> (r: Item)
        ensures
            r == (Item { id, stem, choices, correct_index, suspended, external_ref }),
    {
        Item { id, stem, choices, correct_index, suspended, external_ref }
    }

    /// Grades a choice: right exactly when it is the item's correct index. A wrong choice is
    /// still an answer (it unlocks after the right one is shown).
    pub fn answer_for_choice(&self, chosen_index: ChoiceIndex, answered_at: Timestamp) -> (r:
        Answer)
        ensures
            r@ == (self.id, chosen_index, chosen_index == self.correct_index, answered_at),
    {
        let correct = chosen_index == self.correct_index;
        Answer { item_id: self.id, chosen_index, correct, answered_at }
    }
}

/// The identifiers of the items that are not suspended, in deck order.
pub open spec fn active_ids(items: Seq<Item>) -> Seq<ItemId>
    decreases items.len(),
{
    if items.len() == 0 {
        Seq::empty()
    } else {
        let rest = active_ids(items.drop_last());
        if items.last().suspended {
            rest
        } else {
            rest.push(items.last().id)
        }
    }
}

/// An identifier is active exactly when some item with it is not suspended.
pub proof fn lemma_active_ids_contains(items: Seq<Item>, id: ItemId)
    ensures
        active_ids(items).contains(id) <==> exists|i: int|
            0 <= i < items.len() && !(#[trigger] items[i]).suspended && items[i].id == id,
    decreases items.len(),
{
    if items.len() == 0 {
        assert(active_ids(items) =~= Seq::<ItemId>::empty());
    } else {
        let init = items.drop_last();
        let last = items.last();
        lemma_active_ids_contains(init, id);
        let a = active_ids(init);
        if last.suspended {
            assert(active_ids(items) == a);
        } else {
            assert(active_ids(items) == a.push(last.id));
        }
        if active_ids(items).contains(id) {
            let j = choose|j: int| 0 <= j < active_ids(items).len() && active_ids(items)[j] == id;
            if j < a.len() {
                assert(a[j] == id);
                assert(a.contains(id));
                let i = choose|i: int|
                    0 <= i < init.len() && !(#[trigger] init[i]).suspended && init[i].id == id;
                assert(items[i] == init[i]);
            } else {
                assert(items[items.len() - 1] == last);
            }
        }
        if exists|i: int| 0 <= i < items.len() && !(#[trigger] items[i]).suspended && items[i].id == id {
            let i = choose|i: int|
                0 <= i < items.len() && !(#[trigger] items[i]).suspended && items[i].id == id;
            if i < items.len() - 1 {
                assert(init[i] == items[i]);
                assert(a.contains(id));
                let j = choose|j: int| 0 <= j < a.len() && a[j] == id;
                if !last.suspended {
                    assert(active_ids(items)[j] == id);
                }
            } else {
                assert(items[i] == last);
                assert(active_ids(items)[a.len() as int] == id);
            }
        }
    }
}

/// The first item with a given identifier, if any.
pub open spec fn find_item(items: Seq<Item>, id: ItemId) -> Option<int> {
    if exists|i: int| 0 <= i < items.len() && (#[trigger] items[i]).id == id {
        Some(choose|i: int| 0 <= i < items.len() && (#[trigger] items[i]).id == id && forall|j: int|
            0 <= j < i ==> (#[trigger] items[j]).id != id)
    } else {
        None
    }
}

impl View for Deck {
    type V = Seq<Item>;

    closed spec fn view(&self) -> Seq<Item> {
        self.items@
    }
}

impl Deck {
    pub fn new(items: Vec<Item>) -> (r: Deck)
        ensures
            r@ == items@,
    {
        Deck { items }
    }

    pub fn items(&self) -> (r: &[Item])
        ensures
            r@ == self@,
    {
        self.items.as_slice()
    }

    /// Identifiers of the items that may appear on the lock surface: the non-suspended ones,
    /// in deck order.
    pub fn deck_items(&self) -> (r: Vec<ItemId>)
        ensures
            r@ == active_ids(self@),
    {
        let mut ids: Vec<ItemId> = Vec::new();
        let n = self.items.len();
        for i in 0..n
            invariant
                n == self.items@.len(),
                ids@ == active_ids(self.items@.take(i as int)),
        {
            assert(self.items@.take(i + 1).drop_last() == self.items@.take(i as int));
            if !self.items[i].suspended {
                ids.push(self.items[i].id);
            }
        }
        assert(self.items@.take(n as int) == self.items@);
        ids
    }

    /// A random non-suspended item, or `None` when every item is suspended (or there is none).
    pub fn pick_item(&self) -> (r: Option<ItemId>)
        ensures
            r is None <==> active_ids(self@).len() == 0,
            r matches Some(id) ==> active_ids(self@).contains(id),
    {
        let ids = self.deck_items();
        choose_random(ids.as_slice())
    }

    /// The first item with this identifier.
    pub fn get(&self, id: ItemId) -> (r: Option<&Item>)
        ensures
            match find_item(self@, id) {
                None => r is None,
                Some(i) => r matches Some(item) && *item == self@[i],
            },
    {
        let n = self.items.len();
        for i in 0..n
            invariant
                n == self.items@.len(),
                forall|j: int| 0 <= j < i ==> (#[trigger] self.items@[j]).id != id,
        {
            if self.items[i].id == id {
                proof {
                    let k = choose|k: int| 0 <= k < self.items@.len() && (#[trigger] self.items@[k]).id == id && forall|j: int|
                        0 <= j < k ==> (#[trigger] self.items@[j]).id != id;
                    assert(self.items@[i as int].id == id);
                    if k < i {
                    } else if k > i {
                        assert(self.items@[i as int].id != id);
                    }
                }
                return Some(&self.items[i]);
            }
        }
        None
    }
}

} // verus!
