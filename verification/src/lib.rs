//! Nightly inventory aging for a shop's stock.
//!
//! Each item carries a name, a countdown to its sell-by date (`sell_in`),
//! and a desirability score (`quality`). One update pass adjusts both
//! fields of every item according to the item's category, which is
//! resolved from the name by exact matching (unknown names age as
//! ordinary goods). The whole pass is specified by [`item_updated`],
//! and [`GildedRose::update_quality`] is proved to apply it to every
//! item of the stock.

use vstd::prelude::*;

verus! {

/// The closed set of aging policies, resolved from an item's name.
#[derive(Clone, Copy, Debug, PartialEq, Eq, Structural)]
pub enum Category {
    /// Ordinary goods: degrade by one per day, twice as fast once expired.
    Normal,
    /// Improves with age, faster once expired.
    AgedBrie,
    /// Gains value as the event nears, worthless once it has passed.
    BackstagePass,
    /// Exempt from aging: `sell_in` never moves, quality still rises to the ceiling.
    Legendary,
}

/// Mathematical image of an [`Item`]: the name as a character sequence
/// and the two counters as unbounded integers.
pub struct ItemModel {
    pub name: Seq<char>,
    pub sell_in: int,
    pub quality: int,
}

/// Which category a name resolves to. Matching is exact; every
/// unrecognised name falls back to [`Category::Normal`].
pub open spec fn category_of_name(name: Seq<char>) -> Category {
    if name == "Aged Brie"@ {
        Category::AgedBrie
    } else if name == "Backstage passes to a TAFKAL80ETC concert"@ {
        Category::BackstagePass
    } else if name == "Sulfuras, Hand of Ragnaros"@ {
        Category::Legendary
    } else {
        Category::Normal
    }
}

/// Raising quality `n` times, one point at a time, each step firing only
/// below the ceiling of 50. A value already at or above the ceiling is
/// left untouched, however large.
pub open spec fn upgraded(quality: int, n: int) -> int {
    if quality >= 50 || n <= 0 {
        quality
    } else if quality + n <= 50 {
        quality + n
    } else {
        50
    }
}

/// Lowering quality one point, firing only above the floor of 0. A value
/// at or below the floor is left untouched.
pub open spec fn downgraded(quality: int) -> int {
    if quality > 0 {
        quality - 1
    } else {
        quality
    }
}

/// One update pass over a single item: the full per-category rule table.
/// `sell_in` drops by one for every category but the legendary one, and
/// the quality change is decided by the post-decrement `sell_in`.
pub open spec fn item_updated(m: ItemModel) -> ItemModel {
    match category_of_name(m.name) {
        Category::Normal => {
            let sell_in = m.sell_in - 1;
            let quality = downgraded(m.quality);
            ItemModel {
                name: m.name,
                sell_in,
                quality: if sell_in < 0 {
                    downgraded(quality)
                } else {
                    quality
                },
            }
        },
        Category::AgedBrie => {
            let sell_in = m.sell_in - 1;
            ItemModel {
                name: m.name,
                sell_in,
                quality: upgraded(m.quality, if sell_in < 0 { 2 } else { 1 }),
            }
        },
        Category::BackstagePass => {
            let sell_in = m.sell_in - 1;
            ItemModel {
                name: m.name,
                sell_in,
                quality: if sell_in < 0 {
                    0
                } else {
                    upgraded(m.quality, if sell_in <= 4 { 3 } else if sell_in <= 9 { 2 } else { 1 })
                },
            }
        },
        Category::Legendary => ItemModel {
            name: m.name,
            sell_in: m.sell_in,
            quality: upgraded(m.quality, 1),
        },
    }
}

/// The item after `n` consecutive update passes.
pub open spec fn item_updated_n(m: ItemModel, n: nat) -> ItemModel
    decreases n,
{
    if n == 0 {
        m
    } else {
        item_updated(item_updated_n(m, (n - 1) as nat))
    }
}

/// An update pass never renames an item, so its category is stable
/// across any number of passes.
pub proof fn lemma_name_stable(m: ItemModel, n: nat)
    ensures
        item_updated_n(m, n).name == m.name,
    decreases n,
{
    if n > 0 {
        lemma_name_stable(m, (n - 1) as nat);
    }
}

/// Quality that starts inside the conventional range [0, 50] is still
/// inside it after an update pass, whatever the category.
pub proof fn lemma_quality_stays_bounded(m: ItemModel)
    requires
        0 <= m.quality <= 50,
    ensures
        0 <= item_updated(m).quality <= 50,
{
}

/// Untouched-value passthrough at the ceiling: when quality already sits
/// at or above 50, no raising primitive fires, so every category that
/// only raises quality leaves the value exactly as it was, however far
/// out of range. (The backstage reset on an expired pass, and the
/// ordinary lowering step, are the moves this statement leaves out.)
pub proof fn lemma_passthrough_at_ceiling(m: ItemModel)
    requires
        m.quality >= 50,
        category_of_name(m.name) != Category::Normal,
        category_of_name(m.name) == Category::BackstagePass ==> m.sell_in >= 1,
    ensures
        item_updated(m).quality == m.quality,
{
}

/// Untouched-value passthrough at the floor: quality at or below 0 on an
/// ordinary item is left exactly as it was, since the lowering primitive
/// only fires above 0.
pub proof fn lemma_passthrough_at_floor(m: ItemModel)
    requires
        m.quality <= 0,
        category_of_name(m.name) == Category::Normal,
    ensures
        item_updated(m).quality == m.quality,
{
}

/// A legendary item across any number of passes: `sell_in` never moves,
/// and quality climbs by one per pass until it reaches the ceiling of
/// 50, where it stays; a value already at or above 50 never changes.
pub proof fn lemma_legendary_trajectory(m: ItemModel, n: nat)
    requires
        category_of_name(m.name) == Category::Legendary,
    ensures
        item_updated_n(m, n).sell_in == m.sell_in,
        m.quality >= 50 ==> item_updated_n(m, n).quality == m.quality,
        m.quality < 50 ==> item_updated_n(m, n).quality == (if m.quality + n <= 50 {
            m.quality + n
        } else {
            50
        }),
    decreases n,
{
    if n > 0 {
        lemma_legendary_trajectory(m, (n - 1) as nat);
        lemma_name_stable(m, (n - 1) as nat);
    }
}

/// The update pass is deterministic: it is a pure function of the
/// starting state, so equal stocks follow equal trajectories for any
/// number of passes. (Repeating a pass is not the identity — the state
/// evolves every call — but it is the same evolution every time.)
pub proof fn lemma_update_deterministic(a: ItemModel, b: ItemModel, n: nat)
    requires
        a == b,
    ensures
        item_updated_n(a, n) == item_updated_n(b, n),
{
}

/// A single piece of stock. Fields are public and unvalidated: any
/// integer pair is accepted, and the update pass is total over them.
#[derive(Debug, PartialEq)]
pub struct Item {
    pub name: String,
    pub sell_in: i32,
    pub quality: i32,
}

impl View for Item {
    type V = ItemModel;

    open spec fn view(&self) -> ItemModel {
        ItemModel { name: self.name@, sell_in: self.sell_in as int, quality: self.quality as int }
    }
}

/// Resolves the category an item name falls under.
pub fn category_of(name: &str) -> (category: Category)
    ensures
        category == category_of_name(name@),
{
    let owned = name.to_owned();
    if owned == "Aged Brie".to_owned() {
        Category::AgedBrie
    } else if owned == "Backstage passes to a TAFKAL80ETC concert".to_owned() {
        Category::BackstagePass
    } else if owned == "Sulfuras, Hand of Ragnaros".to_owned() {
        Category::Legendary
    } else {
        Category::Normal
    }
}

impl Item {
    /// Builds an item from its three fields. No validation is performed.
    pub fn new(name: &str, sell_in: i32, quality: i32) -> (item: Item)
        ensures
            item@ == (ItemModel {
                name: name@,
                sell_in: sell_in as int,
                quality: quality as int,
            }),
    {
        Item { name: name.to_owned(), sell_in, quality }
    }

    /// Raises quality one point at a time, `quantity` times, never past
    /// the ceiling of 50.
    fn upgrade_quality(&mut self, quantity: i32)
        ensures
            final(self).name == old(self).name,
            final(self).sell_in == old(self).sell_in,
            final(self)@.quality == upgraded(old(self)@.quality, quantity as int),
    {
        let mut done: i32 = 0;
        while done < quantity
            invariant
                0 <= done,
                quantity >= 0 ==> done <= quantity,
                quantity < 0 ==> done == 0,
                self.name == old(self).name,
                self.sell_in == old(self).sell_in,
                self@.quality == upgraded(old(self)@.quality, done as int),
            decreases quantity - done,
        {
            if self.quality < 50 {
                self.quality = self.quality + 1;
            }
            done = done + 1;
        }
    }

    /// Lowers quality one point, never past the floor of 0.
    fn downgrade_quality(&mut self)
        ensures
            final(self).name == old(self).name,
            final(self).sell_in == old(self).sell_in,
            final(self)@.quality == downgraded(old(self)@.quality),
    {
        if self.quality > 0 {
            self.quality = self.quality - 1;
        }
    }

    /// Applies one update pass to this item alone, exactly as
    /// [`item_updated`] describes it.
    fn update(&mut self)
        requires
            category_of_name(old(self)@.name) != Category::Legendary ==> old(self).sell_in
                > i32::MIN,
        ensures
            final(self)@ == item_updated(old(self)@),
    {
        let category = category_of(self.name.as_str());
        match category {
            Category::Normal => {
                self.downgrade_quality();
                self.sell_in = self.sell_in - 1;
                if self.sell_in < 0 {
                    self.downgrade_quality();
                }
            },
            Category::AgedBrie => {
                self.sell_in = self.sell_in - 1;
                if self.sell_in < 0 {
                    self.upgrade_quality(2);
                } else {
                    self.upgrade_quality(1);
                }
            },
            Category::BackstagePass => {
                self.sell_in = self.sell_in - 1;
                if self.sell_in < 0 {
                    self.quality = 0;
                } else if self.sell_in <= 4 {
                    self.upgrade_quality(3);
                } else if self.sell_in <= 9 {
                    self.upgrade_quality(2);
                } else {
                    self.upgrade_quality(1);
                }
            },
            Category::Legendary => {
                self.upgrade_quality(1);
            },
        }
    }
}

/// The shop's stock: the full ordered collection of items, updated in
/// place once per simulated day.
pub struct GildedRose {
    pub items: Vec<Item>,
}

impl GildedRose {
    /// Takes ownership of the stock to age. The items are kept as given.
    pub fn new(items: Vec<Item>) -> (rose: GildedRose)
        ensures
            rose.items == items,
    {
        GildedRose { items }
    }

    /// One update pass: every item is aged exactly once, independently,
    /// according to [`item_updated`]; order and length of the stock are
    /// kept. The precondition only rules out the one machine-limit
    /// corner, a non-legendary `sell_in` that cannot be decremented.
    pub fn update_quality(&mut self)
        requires
            forall|i: int|
                0 <= i < old(self).items@.len() && category_of_name(
                    (#[trigger] old(self).items@[i])@.name,
                ) != Category::Legendary ==> old(self).items@[i].sell_in > i32::MIN,
        ensures
            final(self).items@.len() == old(self).items@.len(),
            forall|i: int|
                0 <= i < old(self).items@.len() ==> (#[trigger] final(self).items@[i])@
                    == item_updated(old(self).items@[i]@),
    {
        let stock = self.items.len();
        let mut idx: usize = 0;
        while idx < stock
            invariant
                stock == old(self).items@.len(),
                self.items@.len() == stock,
                idx <= stock,
                forall|i: int|
                    0 <= i < idx ==> (#[trigger] self.items@[i])@ == item_updated(
                        old(self).items@[i]@,
                    ),
                forall|i: int| idx <= i < stock ==> #[trigger] self.items@[i] == old(self).items@[i],
                forall|i: int|
                    0 <= i < stock && category_of_name((#[trigger] old(self).items@[i])@.name)
                        != Category::Legendary ==> old(self).items@[i].sell_in > i32::MIN,
            decreases stock - idx,
        {
            let item = &mut self.items[idx];
            item.update();
            idx = idx + 1;
        }
    }
}

} // verus!

