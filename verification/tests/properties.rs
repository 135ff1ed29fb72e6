use gildedrose::{category_of, Category, GildedRose, Item};

const AGED_BRIE: &str = "Aged Brie";
const ETC_CONCERT_TICKET: &str = "Backstage passes to a TAFKAL80ETC concert";
const SULFURAS: &str = "Sulfuras, Hand of Ragnaros";

fn after_one_update(name: &str, sell_in: i32, quality: i32) -> (i32, i32) {
    let mut rose = GildedRose::new(vec![Item::new(name, sell_in, quality)]);
    rose.update_quality();
    (rose.items[0].sell_in, rose.items[0].quality)
}

#[test]
fn quality_stays_in_range_from_in_range_start() {
    for name in [
        "ordinary goods",
        AGED_BRIE,
        ETC_CONCERT_TICKET,
        SULFURAS,
    ] {
        for sell_in in [-3, 0, 1, 5, 10, 11] {
            for quality in [0, 1, 25, 49, 50] {
                let (_, got) = after_one_update(name, sell_in, quality);
                assert!(
                    (0..=50).contains(&got),
                    "{name} ({sell_in}, {quality}) left the range: {got}"
                );
            }
        }
    }
}

#[test]
fn legendary_trajectory_over_many_days() {
    let mut rose = GildedRose::new(vec![Item::new(SULFURAS, 7, 46)]);
    let mut expected_quality = 46;
    for _ in 0..10 {
        rose.update_quality();
        if expected_quality < 50 {
            expected_quality += 1;
        }
        assert_eq!(7, rose.items[0].sell_in);
        assert_eq!(expected_quality, rose.items[0].quality);
    }
    assert_eq!(50, rose.items[0].quality);
}

#[test]
fn aged_brie_single_step_pairs() {
    assert_eq!((9, 49), after_one_update(AGED_BRIE, 10, 48));
    assert_eq!((-1, 50), after_one_update(AGED_BRIE, 0, 48));
}

#[test]
fn backstage_pass_single_step_pairs() {
    assert_eq!((4, 50), after_one_update(ETC_CONCERT_TICKET, 5, 49));
    assert_eq!((-1, 0), after_one_update(ETC_CONCERT_TICKET, 0, 40));
}

#[test]
fn normal_item_never_drops_below_zero() {
    assert_eq!((-1, 0), after_one_update("ordinary goods", 0, 1));
    assert_eq!((-1, 0), after_one_update("ordinary goods", 0, 2));
    assert_eq!((4, 9), after_one_update("ordinary goods", 5, 10));
}

#[test]
fn update_is_deterministic_across_runs() {
    let stock = || {
        vec![
            Item::new("ordinary goods", 3, 10),
            Item::new(AGED_BRIE, 0, 48),
            Item::new(ETC_CONCERT_TICKET, 1, 20),
            Item::new(SULFURAS, 5, 40),
        ]
    };
    let mut first = GildedRose::new(stock());
    let mut second = GildedRose::new(stock());
    for _ in 0..2 {
        first.update_quality();
        second.update_quality();
        assert_eq!(first.items, second.items);
    }
}

#[test]
fn unknown_names_age_as_normal() {
    assert_eq!(Category::Normal, category_of("foo"));
    assert_eq!(Category::Normal, category_of("aged brie"));
    assert_eq!(Category::Normal, category_of(""));
    assert_eq!((9, 19), after_one_update("Elixir of the Mongoose", 10, 20));
}

#[test]
fn known_names_resolve_exactly() {
    assert_eq!(Category::AgedBrie, category_of(AGED_BRIE));
    assert_eq!(Category::BackstagePass, category_of(ETC_CONCERT_TICKET));
    assert_eq!(Category::Legendary, category_of(SULFURAS));
}

#[test]
fn whole_stock_updates_in_order() {
    let mut rose = GildedRose::new(vec![
        Item::new("ordinary goods", 1, 7),
        Item::new(AGED_BRIE, 2, 3),
        Item::new(ETC_CONCERT_TICKET, 9, 20),
        Item::new(SULFURAS, 0, 80),
    ]);
    rose.update_quality();

    assert_eq!(4, rose.items.len());
    assert_eq!("ordinary goods", rose.items[0].name);
    assert_eq!((0, 6), (rose.items[0].sell_in, rose.items[0].quality));
    assert_eq!(AGED_BRIE, rose.items[1].name);
    assert_eq!((1, 4), (rose.items[1].sell_in, rose.items[1].quality));
    assert_eq!(ETC_CONCERT_TICKET, rose.items[2].name);
    assert_eq!((8, 22), (rose.items[2].sell_in, rose.items[2].quality));
    assert_eq!(SULFURAS, rose.items[3].name);
    assert_eq!((0, 80), (rose.items[3].sell_in, rose.items[3].quality));
}

#[test]
fn empty_stock_is_accepted() {
    let mut rose = GildedRose::new(Vec::new());
    rose.update_quality();
    assert!(rose.items.is_empty());
}

#[test]
fn negative_quality_passthrough_on_normal_item() {
    // The lowering primitive never fires at or below the floor.
    assert_eq!((4, -7), after_one_update("ordinary goods", 5, -7));
    assert_eq!((-2, 0), after_one_update("ordinary goods", -1, 0));
}

#[test]
fn item_new_keeps_its_fields() {
    let item = Item::new("ordinary goods", -4, 123);
    assert_eq!("ordinary goods", item.name);
    assert_eq!(-4, item.sell_in);
    assert_eq!(123, item.quality);
}
