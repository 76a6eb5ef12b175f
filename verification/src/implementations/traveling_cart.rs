//! The traveling cart, which is open on Fridays and Sundays, and as the night market's boat
//! on three days of the winter. It sells ten random objects, a random piece of furniture
//! and up to two special items.

use std::collections::HashSet;
use vstd::prelude::*;
use crate::binary64::{THRESHOLD_0_1, THRESHOLD_0_25, THRESHOLD_0_4};
use crate::calendar::{
    day_number, day_of_week, season_number, spec_day_number, spec_day_of_week,
    spec_season_number,
};
use crate::catalog::{spec_lookup, Catalog, CatalogModel, ObjectInformation};
use crate::components::message::{get_messages, spec_messages, MessageProperties};
use crate::components::stock_table::{get_stock, spec_get_stock, spec_table_result};
use crate::components::table::TableCell;
use crate::configuration::{Configuration, Platform};
use crate::error::StockError;
use crate::implementations::util::{
    get_random_furniture, spec_furniture_search, spec_wrapping_sum, wrapping_sum,
    Implementation, Item, StockItem,
};
use crate::prng::{Prng, PrngModel};
use crate::text::{contains, equals, spec_contains};

verus! {

/// The number of days shown where no filter is set.
pub const NON_FILTER_ITERATIONS: u16 = 28;

/// The number of random objects on sale.
pub const RANDOM_OBJECTS: usize = 10;

/// The random objects have ids below this.
pub const OBJECT_ID_LIMIT: u16 = 790;

/// The random piece of furniture has an id below this.
pub const FURNITURE_ID_LIMIT: u16 = 1613;

/// The traveling cart's table.
pub struct TravelingCartImpl {}

/// Whether the cart is open: on a Friday, on a Sunday, and on the 15th, 16th and 17th of the
/// winter.
pub open spec fn spec_open(date: int) -> bool {
    spec_day_of_week(date) == 4 || spec_day_of_week(date) == 6 || (spec_season_number(date) == 3
        && 14 <= spec_day_number(date) <= 16)
}

/// The number of days on which the cart is open among the `days` days from `date` on.
pub open spec fn spec_open_days(date: int, days: nat) -> nat
    decreases days,
{
    if days == 0 {
        0
    } else {
        spec_open_days(date, (days - 1) as nat) + if spec_open(date + days - 1) {
            1nat
        } else {
            0nat
        }
    }
}

/// Whether the cart turns an object away: one without a category, one without a price, one
/// of the category -13, a quest item, weeds, a mineral or an artifact.
pub open spec fn spec_second_check(object_information: ObjectInformation) -> bool {
    ||| !spec_contains(object_information.type_and_category@, "-"@)
    ||| object_information.price == 0
    ||| spec_contains(object_information.type_and_category@, "-13"@)
    ||| object_information.type_and_category@ == "Quest"@
    ||| object_information.name@ == "Weeds"@
    ||| spec_contains(object_information.type_and_category@, "Minerals"@)
    ||| spec_contains(object_information.type_and_category@, "Arch"@)
}

/// The price of a random object: 100 times the first multiplier or the object's own price
/// times the second, whichever is more. The second product is taken in 32 bits and wraps
/// around.
pub open spec fn spec_object_price(constant_multiplier: int, variable_multiplier: int, price: u32)
    -> u32 {
    let constant = 100 * constant_multiplier;
    let variable = (price * variable_multiplier) % 4294967296;
    if constant >= variable {
        constant as u32
    } else {
        variable as u32
    }
}

/// The offer of an object by the three draws that follow the choice of its id: a multiplier
/// from 1 to 10, a multiplier from 3 to 5, and a draw that gives five of it with a chance of
/// 0.1.
pub open spec fn spec_offer(prng: PrngModel, id: u16, object_information: &'static ObjectInformation)
    -> StockItem {
    let second = prng.spec_advance();
    let third = second.spec_advance();
    StockItem {
        id,
        item: Item::ObjectInformation(object_information),
        price: spec_object_price(
            prng.spec_range(1, 11),
            second.spec_range(3, 6),
            object_information.price,
        ),
        quantity: if third.spec_fraction().numerator < THRESHOLD_0_1 {
            5
        } else {
            1
        },
    }
}

/// The generator after the three draws of an offer.
pub open spec fn spec_after_offer(prng: PrngModel) -> PrngModel {
    prng.spec_advance().spec_advance().spec_advance()
}

/// What the cart makes of one id and the generator after it. An id that the catalog lacks
/// or that is off limits is passed over. On the PC an object that the cart turns away is
/// passed over before the three draws of an offer are made, on the Switch after them. An
/// object that is on sale already is passed over after the draws.
pub open spec fn spec_candidate(
    platform: Platform,
    prng: PrngModel,
    id: u16,
    used: Set<u16>,
    catalog: CatalogModel,
) -> (Option<StockItem>, PrngModel) {
    if !catalog.spec_object_sellable(id) {
        (None, prng)
    } else {
        let object_information = spec_lookup(catalog.object_information, id)->0;
        match platform {
            Platform::PC => if spec_second_check(*object_information) {
                (None, prng)
            } else if used.contains(id) {
                (None, spec_after_offer(prng))
            } else {
                (Some(spec_offer(prng, id, object_information)), spec_after_offer(prng))
            },
            Platform::Switch => if spec_second_check(*object_information) || used.contains(id) {
                (None, spec_after_offer(prng))
            } else {
                (Some(spec_offer(prng, id, object_information)), spec_after_offer(prng))
            },
        }
    }
}

/// The first offer that the ids after `id` lead to, going round below 790, and the
/// generator after it; no offer where `steps` ids have been passed over.
pub open spec fn spec_search(
    platform: Platform,
    prng: PrngModel,
    id: u16,
    used: Set<u16>,
    catalog: CatalogModel,
    steps: nat,
) -> (Option<StockItem>, PrngModel)
    decreases steps,
{
    if steps == 0 {
        (None, prng)
    } else {
        let next = ((id + 1) % 790) as u16;
        let (offer, after) = spec_candidate(platform, prng, next, used, catalog);
        if offer is Some {
            (offer, after)
        } else {
            spec_search(platform, after, next, used, catalog, (steps - 1) as nat)
        }
    }
}

/// One random object: a draw from 2 to 789 gives the id to start after, and the search
/// goes once round all ids.
pub open spec fn spec_random_object(
    platform: Platform,
    prng: PrngModel,
    used: Set<u16>,
    catalog: CatalogModel,
) -> (Option<StockItem>, PrngModel) {
    spec_search(platform, prng.spec_advance(), prng.spec_range(2, 790) as u16, used, catalog, 790)
}

/// The ids of a row of offers.
pub open spec fn spec_ids(stock_items: Seq<StockItem>) -> Set<u16>
    decreases stock_items.len(),
{
    if stock_items.len() == 0 {
        Set::empty()
    } else {
        spec_ids(stock_items.drop_last()).insert(stock_items.last().id)
    }
}

/// The ids of a row of offers hold the id of each offer of the row.
pub proof fn lemma_ids_contain(stock_items: Seq<StockItem>, i: int)
    requires
        0 <= i < stock_items.len(),
    ensures
        spec_ids(stock_items).contains(stock_items[i].id),
    decreases stock_items.len(),
{
    if i < stock_items.len() - 1 {
        lemma_ids_contain(stock_items.drop_last(), i);
    }
}

/// The first `count` random objects and the generator after them. The cart has nothing to
/// sell where a search comes to no object.
pub open spec fn spec_random_objects(
    platform: Platform,
    prng: PrngModel,
    catalog: CatalogModel,
    count: nat,
) -> Result<(Seq<StockItem>, PrngModel), StockError>
    decreases count,
{
    if count == 0 {
        Ok((Seq::empty(), prng))
    } else {
        match spec_random_objects(platform, prng, catalog, (count - 1) as nat) {
            Ok((before, after)) => match spec_random_object(
                platform,
                after,
                spec_ids(before),
                catalog,
            ) {
                (Some(offer), last) => Ok((before.push(offer), last)),
                (None, _) => Err(StockError::ObjectInformation),
            },
            Err(error) => Err(error),
        }
    }
}

/// The offer of a piece of furniture at 250 times a multiplier.
pub open spec fn spec_furniture_offer(found: Option<u16>, multiplier: int, catalog: CatalogModel)
    -> Result<StockItem, StockError> {
    match found {
        Some(id) => match spec_lookup(catalog.furniture, id) {
            Some(furniture) => Ok(
                StockItem {
                    id,
                    item: Item::Furniture(furniture),
                    price: (multiplier * 250) as u32,
                    quantity: 1,
                },
            ),
            None => Err(StockError::Furniture),
        },
        None => Err(StockError::Furniture),
    }
}

/// The random piece of furniture and the generator after it. On the PC the piece is
/// searched first and the multiplier of its price, from 1 to 10, is drawn after it; on the
/// Switch the multiplier is drawn first.
pub open spec fn spec_random_furniture_offer(
    platform: Platform,
    prng: PrngModel,
    catalog: CatalogModel,
) -> (Result<StockItem, StockError>, PrngModel) {
    match platform {
        Platform::PC => {
            let (found, after) = spec_furniture_search(prng, 0, 1613, catalog);
            (spec_furniture_offer(found, after.spec_range(1, 11), catalog), after.spec_advance())
        },
        Platform::Switch => {
            let (found, after) = spec_furniture_search(prng.spec_advance(), 0, 1613, catalog);
            (spec_furniture_offer(found, prng.spec_range(1, 11), catalog), after)
        },
    }
}

/// The offer of an object at a fixed price.
pub open spec fn spec_fixed_offer(catalog: CatalogModel, id: u16, price: u32, quantity: u8)
    -> Result<StockItem, StockError> {
    match spec_lookup(catalog.object_information, id) {
        Some(object_information) => Ok(
            StockItem { id, item: Item::ObjectInformation(object_information), price, quantity },
        ),
        None => Err(StockError::ObjectInformation),
    }
}

/// The rare seed of spring and summer, by one draw: five of it with a chance of 0.1.
pub open spec fn spec_rare_seed(prng: PrngModel, catalog: CatalogModel) -> Result<
    Option<StockItem>,
    StockError,
> {
    match spec_fixed_offer(
        catalog,
        347,
        1000,
        if prng.spec_fraction().numerator < THRESHOLD_0_1 {
            5
        } else {
            1
        },
    ) {
        Ok(offer) => Ok(Some(offer)),
        Err(error) => Err(error),
    }
}

/// The coffee maker of fall and winter, by one draw: with a chance of 0.4 there is one.
pub open spec fn spec_coffee_maker(prng: PrngModel, catalog: CatalogModel) -> Result<
    Option<StockItem>,
    StockError,
> {
    if prng.spec_fraction().numerator < THRESHOLD_0_4 {
        match spec_lookup(catalog.big_craftables_information, 136) {
            Some(big_craftables_information) => Ok(
                Some(
                    StockItem {
                        id: 136,
                        item: Item::BigCraftablesInformation(big_craftables_information),
                        price: 4000,
                        quantity: 1,
                    },
                ),
            ),
            None => Err(StockError::BigCraftablesInformation),
        }
    } else {
        Ok(None)
    }
}

/// The item of the season, by one draw: in spring and summer a rare seed, five of it with
/// a chance of 0.1; in fall and winter, with a chance of 0.4, a coffee maker.
pub open spec fn spec_seasonal_offer(prng: PrngModel, season: int, catalog: CatalogModel)
    -> Result<Option<StockItem>, StockError> {
    if season < 2 {
        spec_rare_seed(prng, catalog)
    } else {
        spec_coffee_maker(prng, catalog)
    }
}

/// The rare item, by one draw: with a chance of 0.25 a coffee bean.
pub open spec fn spec_rare_offer(prng: PrngModel, catalog: CatalogModel) -> Result<
    Option<StockItem>,
    StockError,
> {
    if prng.spec_fraction().numerator < THRESHOLD_0_25 {
        match spec_fixed_offer(catalog, 433, 2500, 1) {
            Ok(offer) => Ok(Some(offer)),
            Err(error) => Err(error),
        }
    } else {
        Ok(None)
    }
}

/// A row of offers with one more behind it, where there is one more.
pub open spec fn spec_with(stock_items: Seq<StockItem>, offer: Option<StockItem>) -> Seq<StockItem> {
    match offer {
        Some(stock_item) => stock_items.push(stock_item),
        None => stock_items,
    }
}

/// The cart's stock from a fresh generator: ten random objects, the random piece of
/// furniture, the item of the season and the rare item, in this order, or the first
/// failure on the way.
pub open spec fn spec_stock(
    platform: Platform,
    prng: PrngModel,
    season: int,
    catalog: CatalogModel,
) -> Result<Seq<StockItem>, StockError> {
    match spec_random_objects(platform, prng, catalog, 10) {
        Ok((objects, after_objects)) => match spec_random_furniture_offer(
            platform,
            after_objects,
            catalog,
        ) {
            (Ok(furniture), after_furniture) => match spec_seasonal_offer(
                after_furniture,
                season,
                catalog,
            ) {
                Ok(seasonal) => match spec_rare_offer(after_furniture.spec_advance(), catalog) {
                    Ok(rare) => Ok(spec_with(spec_with(objects.push(furniture), seasonal), rare)),
                    Err(error) => Err(error),
                },
                Err(error) => Err(error),
            },
            (Err(error), _) => Err(error),
        },
        Err(error) => Err(error),
    }
}

/// The cart's stock on a day, nothing on a day on which it is closed. The seed of a day's
/// generator is the world's seed and the date.
pub open spec fn spec_day_stock(configuration: Configuration, date: int, catalog: CatalogModel)
    -> Result<Option<Seq<StockItem>>, StockError> {
    if !spec_open(date) {
        Ok(None)
    } else {
        match spec_stock(
            configuration.platform,
            PrngModel::spec_from_seed(
                configuration.platform,
                spec_wrapping_sum(configuration.seed as int, date),
            ),
            spec_season_number(date),
            catalog,
        ) {
            Ok(stock_items) => Ok(Some(stock_items)),
            Err(error) => Err(error),
        }
    }
}

/// A search leaves the generator well formed, and the object that it finds is none of
/// those on sale already.
pub proof fn lemma_search(
    platform: Platform,
    prng: PrngModel,
    id: u16,
    used: Set<u16>,
    catalog: CatalogModel,
    steps: nat,
)
    requires
        prng.wf(),
    ensures
        spec_search(platform, prng, id, used, catalog, steps).1.wf(),
        spec_search(platform, prng, id, used, catalog, steps).0 matches Some(offer)
            ==> !used.contains(offer.id) && offer.id < 790 && catalog.spec_object_sellable(
            offer.id,
        ) && offer.item == Item::ObjectInformation(
            spec_lookup(catalog.object_information, offer.id)->0,
        ) && !spec_second_check(*spec_lookup(catalog.object_information, offer.id)->0),
    decreases steps,
{
    if steps > 0 {
        let next = ((id + 1) % 790) as u16;
        prng.lemma_draw(1, 11);
        prng.spec_advance().lemma_draw(3, 6);
        prng.spec_advance().spec_advance().lemma_draw(0, 1);
        let (offer, after) = spec_candidate(platform, prng, next, used, catalog);
        if offer is None {
            lemma_search(platform, after, next, used, catalog, (steps - 1) as nat);
        }
    }
}

/// No two of the random objects of a day are the same object, and each of them is one that
/// the cart may sell.
pub proof fn lemma_random_objects_distinct(
    platform: Platform,
    prng: PrngModel,
    catalog: CatalogModel,
    count: nat,
)
    requires
        prng.wf(),
    ensures
        spec_random_objects(platform, prng, catalog, count) matches Ok((objects, after)) ==> {
            &&& after.wf()
            &&& objects.len() == count
            &&& forall|i: int, j: int|
                0 <= i < j < objects.len() ==> (#[trigger] objects[i]).id != (
                #[trigger] objects[j]).id
            &&& forall|i: int|
                0 <= i < objects.len() ==> catalog.spec_object_sellable((#[trigger] objects[i]).id)
                    && objects[i].id < 790
        },
    decreases count,
{
    if count > 0 {
        lemma_random_objects_distinct(platform, prng, catalog, (count - 1) as nat);
        match spec_random_objects(platform, prng, catalog, (count - 1) as nat) {
            Ok((before, after)) => {
                after.lemma_draw(2, 790);
                lemma_search(
                    platform,
                    after.spec_advance(),
                    after.spec_range(2, 790) as u16,
                    spec_ids(before),
                    catalog,
                    790,
                );
                match spec_random_object(platform, after, spec_ids(before), catalog) {
                    (Some(offer), last) => {
                        let objects = before.push(offer);
                        assert forall|i: int, j: int| 0 <= i < j < objects.len() implies (
                        #[trigger] objects[i]).id != (#[trigger] objects[j]).id by {
                            if j == before.len() {
                                lemma_ids_contain(before, i);
                            }
                        }
                    },
                    (None, _) => {},
                }
            },
            Err(_) => {},
        }
    }
}

/// Within any day's stock of the cart, no two of the ten random objects are the same.
pub proof fn lemma_day_objects_distinct(
    configuration: Configuration,
    date: int,
    catalog: CatalogModel,
)
    ensures
        spec_day_stock(configuration, date, catalog) matches Ok(Some(stock_items)) ==> {
            &&& stock_items.len() >= 11
            &&& forall|i: int, j: int|
                0 <= i < j < 10 ==> (#[trigger] stock_items[i]).id != (#[trigger] stock_items[j]).id
        },
{
    if spec_open(date) {
        let seed = spec_wrapping_sum(configuration.seed as int, date);
        PrngModel::lemma_from_seed_wf(configuration.platform, seed);
        lemma_random_objects_distinct(
            configuration.platform,
            PrngModel::spec_from_seed(configuration.platform, seed),
            catalog,
            10,
        );
    }
}

/// Every run of 28 days that starts with a season has eight open days, and the winter's has
/// three more.
pub proof fn lemma_open_days_of_season(seasons: int)
    requires
        seasons >= 0,
    ensures
        spec_open_days(1 + 28 * seasons, 28) == if seasons % 4 == 3 {
            11nat
        } else {
            8nat
        },
{
    let first = 1 + 28 * seasons;
    reveal_with_fuel(spec_open_days, 29);
    lemma_day_of_season(seasons, 0);
    lemma_day_of_season(seasons, 1);
    lemma_day_of_season(seasons, 2);
    lemma_day_of_season(seasons, 3);
    lemma_day_of_season(seasons, 4);
    lemma_day_of_season(seasons, 5);
    lemma_day_of_season(seasons, 6);
    lemma_day_of_season(seasons, 7);
    lemma_day_of_season(seasons, 8);
    lemma_day_of_season(seasons, 9);
    lemma_day_of_season(seasons, 10);
    lemma_day_of_season(seasons, 11);
    lemma_day_of_season(seasons, 12);
    lemma_day_of_season(seasons, 13);
    lemma_day_of_season(seasons, 14);
    lemma_day_of_season(seasons, 15);
    lemma_day_of_season(seasons, 16);
    lemma_day_of_season(seasons, 17);
    lemma_day_of_season(seasons, 18);
    lemma_day_of_season(seasons, 19);
    lemma_day_of_season(seasons, 20);
    lemma_day_of_season(seasons, 21);
    lemma_day_of_season(seasons, 22);
    lemma_day_of_season(seasons, 23);
    lemma_day_of_season(seasons, 24);
    lemma_day_of_season(seasons, 25);
    lemma_day_of_season(seasons, 26);
    lemma_day_of_season(seasons, 27);
}

/// On the day `offset` days after the first of a season the cart is open if the day is a
/// Friday or a Sunday, counted from the Monday that starts the season, and in the winter on
/// the 15th, 16th and 17th.
pub proof fn lemma_day_of_season(seasons: int, offset: int)
    requires
        seasons >= 0,
        0 <= offset < 28,
    ensures
        spec_day_number(1 + 28 * seasons + offset) == offset,
        spec_season_number(1 + 28 * seasons + offset) == seasons % 4,
        spec_open(1 + 28 * seasons + offset) == (offset % 7 == 4 || offset % 7 == 6 || (seasons % 4
            == 3 && 14 <= offset <= 16)),
{
}

/// Whether the cart is open on a day.
pub fn is_open(date: i32) -> (open: bool)
    ensures
        open == spec_open(date as int),
{
    let weekday: u8 = day_of_week(date);
    let day: u8 = day_number(date);
    weekday == 4 || weekday == 6 || (season_number(date) == 3 && 14 <= day && day <= 16)
}

/// The number of days on which the cart is open among the `days` days from `date` on.
pub fn open_days(date: i32, days: u16) -> (count: u16)
    requires
        date + days <= i32::MAX,
    ensures
        count == spec_open_days(date as int, days as nat),
        count <= days,
{
    let mut count: u16 = 0;
    let mut day: u16 = 0;
    while day < days
        invariant
            0 <= day <= days,
            date + days <= i32::MAX,
            count <= day,
            count == spec_open_days(date as int, day as nat),
        decreases days - day,
    {
        if is_open(date + day as i32) {
            count = count + 1;
        }
        day = day + 1;
    }
    count
}

/// Whether the cart turns an object away.
pub fn second_check(object_information: &ObjectInformation) -> (turned_away: bool)
    ensures
        turned_away == spec_second_check(*object_information),
{
    !contains(object_information.type_and_category, "-") || object_information.price == 0
        || contains(object_information.type_and_category, "-13") || equals(
        object_information.type_and_category,
        "Quest",
    ) || equals(object_information.name, "Weeds") || contains(
        object_information.type_and_category,
        "Minerals",
    ) || contains(object_information.type_and_category, "Arch")
}

fn object_price(constant_multiplier: i32, variable_multiplier: i32, price: u32) -> (offer: u32)
    requires
        1 <= constant_multiplier < 11,
        3 <= variable_multiplier < 6,
    ensures
        offer == spec_object_price(constant_multiplier as int, variable_multiplier as int, price),
{
    let constant: u32 = 100 * constant_multiplier as u32;
    assert(0 <= price * variable_multiplier <= 4294967295 * 5) by (nonlinear_arith)
        requires
            0 <= price <= 4294967295,
            3 <= variable_multiplier < 6,
    ;
    let variable: u32 = ((price as u64 * variable_multiplier as u64) % 4294967296) as u32;
    if constant >= variable {
        constant
    } else {
        variable
    }
}

fn second_rng(prng: &mut Prng, id: u16, object_information: &'static ObjectInformation) -> (offer:
    StockItem)
    requires
        old(prng)@.wf(),
    ensures
        offer == spec_offer(old(prng)@, id, object_information),
        final(prng)@ == spec_after_offer(old(prng)@),
        final(prng)@.wf(),
{
    let constant_multiplier: i32 = prng.gen_range(1, 11);
    let variable_multiplier: i32 = prng.gen_range(3, 6);
    let quantity: u8 = if prng.gen_float().below(THRESHOLD_0_1) {
        5
    } else {
        1
    };
    StockItem {
        id,
        item: Item::ObjectInformation(object_information),
        price: object_price(constant_multiplier, variable_multiplier, object_information.price),
        quantity,
    }
}

fn candidate(
    platform: Platform,
    prng: &mut Prng,
    id: u16,
    used: &mut HashSet<u16>,
    catalog: &Catalog,
) -> (offer: Option<StockItem>)
    requires
        old(prng)@.wf(),
    ensures
        (offer, final(prng)@) == spec_candidate(platform, old(prng)@, id, old(used)@, catalog@),
        final(prng)@.wf(),
        final(used)@ == (if offer is Some {
            old(used)@.insert(id)
        } else {
            old(used)@
        }),
{
    broadcast use vstd::std_specs::hash::group_hash_axioms;

    if !catalog.object_sellable(id) {
        return None;
    }
    match catalog.object_information(id) {
        Some(object_information) => match platform {
            Platform::PC => {
                if second_check(object_information) {
                    return None;
                }
                let offer: StockItem = second_rng(prng, id, object_information);
                if !used.insert(id) {
                    assert(used@ =~= old(used)@);
                    None
                } else {
                    Some(offer)
                }
            },
            Platform::Switch => {
                let offer: StockItem = second_rng(prng, id, object_information);
                if second_check(object_information) {
                    return None;
                }
                if !used.insert(id) {
                    assert(used@ =~= old(used)@);
                    None
                } else {
                    Some(offer)
                }
            },
        },
        None => None,
    }
}

fn search(
    platform: Platform,
    prng: &mut Prng,
    start: u16,
    used: &mut HashSet<u16>,
    catalog: &Catalog,
) -> (offer: Option<StockItem>)
    requires
        old(prng)@.wf(),
        start < 790,
    ensures
        (offer, final(prng)@) == spec_search(
            platform,
            old(prng)@,
            start,
            old(used)@,
            catalog@,
            790,
        ),
        final(prng)@.wf(),
        final(used)@ == (match offer {
            Some(stock_item) => old(used)@.insert(stock_item.id),
            None => old(used)@,
        }),
{
    let mut id: u16 = start;
    let mut steps: u16 = 0;
    while steps < OBJECT_ID_LIMIT
        invariant
            0 <= steps <= 790,
            id < 790,
            prng@.wf(),
            used@ == old(used)@,
            spec_search(platform, prng@, id, used@, catalog@, (790 - steps) as nat) == spec_search(
                platform,
                old(prng)@,
                start,
                used@,
                catalog@,
                790,
            ),
        decreases 790 - steps,
    {
        id = (id + 1) % OBJECT_ID_LIMIT;
        match candidate(platform, prng, id, used, catalog) {
            Some(offer) => {
                return Some(offer);
            },
            None => {},
        }
        steps = steps + 1;
    }
    None
}

fn random_object(
    platform: Platform,
    prng: &mut Prng,
    used: &mut HashSet<u16>,
    catalog: &Catalog,
) -> (offer: Option<StockItem>)
    requires
        old(prng)@.wf(),
    ensures
        (offer, final(prng)@) == spec_random_object(platform, old(prng)@, old(used)@, catalog@),
        final(prng)@.wf(),
        final(used)@ == (match offer {
            Some(stock_item) => old(used)@.insert(stock_item.id),
            None => old(used)@,
        }),
{
    let start: u16 = prng.gen_range(2, 790) as u16;
    search(platform, prng, start, used, catalog)
}

fn furniture_offer(id: u16, multiplier: i32, catalog: &Catalog) -> (result: Result<
    StockItem,
    StockError,
>)
    requires
        1 <= multiplier < 11,
    ensures
        result == spec_furniture_offer(Some(id), multiplier as int, catalog@),
{
    match catalog.furniture(id) {
        Some(furniture) => Ok(
            StockItem {
                id,
                item: Item::Furniture(furniture),
                price: multiplier as u32 * 250,
                quantity: 1,
            },
        ),
        None => Err(StockError::Furniture),
    }
}

/// Draws the multiplier of a price, from 1 to 10.
fn price_multiplier(prng: &mut Prng) -> (multiplier: i32)
    requires
        old(prng)@.wf(),
    ensures
        multiplier == old(prng)@.spec_range(1, 11),
        1 <= multiplier < 11,
        final(prng)@ == old(prng)@.spec_advance(),
        final(prng)@.wf(),
{
    prng.gen_range(1, 11)
}

fn random_furniture_offer(platform: Platform, prng: &mut Prng, catalog: &Catalog) -> (result:
    Result<StockItem, StockError>)
    requires
        old(prng)@.wf(),
    ensures
        result == spec_random_furniture_offer(platform, old(prng)@, catalog@).0,
        result is Ok ==> final(prng)@ == spec_random_furniture_offer(
            platform,
            old(prng)@,
            catalog@,
        ).1 && final(prng)@.wf(),
{
    match platform {
        Platform::PC => {
            match get_random_furniture(prng, 0, FURNITURE_ID_LIMIT, catalog) {
                Ok(id) => {
                    let multiplier: i32 = price_multiplier(prng);
                    furniture_offer(id, multiplier, catalog)
                },
                Err(error) => Err(error),
            }
        },
        Platform::Switch => {
            let multiplier: i32 = price_multiplier(prng);
            match get_random_furniture(prng, 0, FURNITURE_ID_LIMIT, catalog) {
                Ok(id) => furniture_offer(id, multiplier, catalog),
                Err(error) => Err(error),
            }
        },
    }
}

fn fixed_offer(catalog: &Catalog, id: u16, price: u32, quantity: u8) -> (result: Result<
    StockItem,
    StockError,
>)
    ensures
        result == spec_fixed_offer(catalog@, id, price, quantity),
{
    match catalog.object_information(id) {
        Some(object_information) => Ok(
            StockItem { id, item: Item::ObjectInformation(object_information), price, quantity },
        ),
        None => Err(StockError::ObjectInformation),
    }
}

fn rare_seed(prng: &mut Prng, catalog: &Catalog) -> (result: Result<Option<StockItem>, StockError>)
    requires
        old(prng)@.wf(),
    ensures
        result == spec_rare_seed(old(prng)@, catalog@),
        final(prng)@ == old(prng)@.spec_advance(),
        final(prng)@.wf(),
{
    let quantity: u8 = if prng.gen_float().below(THRESHOLD_0_1) {
        5
    } else {
        1
    };
    match fixed_offer(catalog, 347, 1000, quantity) {
        Ok(offer) => Ok(Some(offer)),
        Err(error) => Err(error),
    }
}

fn coffee_maker(prng: &mut Prng, catalog: &Catalog) -> (result: Result<
    Option<StockItem>,
    StockError,
>)
    requires
        old(prng)@.wf(),
    ensures
        result == spec_coffee_maker(old(prng)@, catalog@),
        final(prng)@ == old(prng)@.spec_advance(),
        final(prng)@.wf(),
{
    if prng.gen_float().below(THRESHOLD_0_4) {
        match catalog.big_craftables_information(136) {
            Some(big_craftables_information) => Ok(
                Some(
                    StockItem {
                        id: 136,
                        item: Item::BigCraftablesInformation(big_craftables_information),
                        price: 4000,
                        quantity: 1,
                    },
                ),
            ),
            None => Err(StockError::BigCraftablesInformation),
        }
    } else {
        Ok(None)
    }
}

fn seasonal_offer(prng: &mut Prng, season: u8, catalog: &Catalog) -> (result: Result<
    Option<StockItem>,
    StockError,
>)
    requires
        old(prng)@.wf(),
    ensures
        result == spec_seasonal_offer(old(prng)@, season as int, catalog@),
        final(prng)@ == old(prng)@.spec_advance(),
        final(prng)@.wf(),
{
    if season < 2 {
        rare_seed(prng, catalog)
    } else {
        coffee_maker(prng, catalog)
    }
}

fn rare_offer(prng: &mut Prng, catalog: &Catalog) -> (result: Result<Option<StockItem>, StockError>)
    requires
        old(prng)@.wf(),
    ensures
        result == spec_rare_offer(old(prng)@, catalog@),
        final(prng)@.wf(),
{
    if prng.gen_float().below(THRESHOLD_0_25) {
        match fixed_offer(catalog, 433, 2500, 1) {
            Ok(offer) => Ok(Some(offer)),
            Err(error) => Err(error),
        }
    } else {
        Ok(None)
    }
}

fn random_objects(platform: Platform, prng: &mut Prng, catalog: &Catalog) -> (result: Result<
    Vec<StockItem>,
    StockError,
>)
    requires
        old(prng)@.wf(),
    ensures
        match result {
            Ok(objects) => spec_random_objects(platform, old(prng)@, catalog@, 10) == Ok::<
                (Seq<StockItem>, PrngModel),
                StockError,
            >((objects@, final(prng)@)) && final(prng)@.wf(),
            Err(error) => spec_random_objects(platform, old(prng)@, catalog@, 10) == Err::<
                (Seq<StockItem>, PrngModel),
                StockError,
            >(error),
        },
{
    let mut objects: Vec<StockItem> = Vec::new();
    let mut used: HashSet<u16> = HashSet::new();
    let mut count: usize = 0;
    while count < RANDOM_OBJECTS
        invariant
            0 <= count <= 10,
            prng@.wf(),
            used@ == spec_ids(objects@),
            spec_random_objects(platform, old(prng)@, catalog@, count as nat) == Ok::<
                (Seq<StockItem>, PrngModel),
                StockError,
            >((objects@, prng@)),
        decreases 10 - count,
    {
        let ghost before = objects@;
        match random_object(platform, prng, &mut used, catalog) {
            Some(offer) => {
                objects.push(offer);
                assert(objects@.drop_last() =~= before);
            },
            None => {
                proof {
                    lemma_random_objects_failure(
                        platform,
                        old(prng)@,
                        catalog@,
                        (count + 1) as nat,
                        10,
                    );
                }
                return Err(StockError::ObjectInformation);
            },
        }
        count = count + 1;
    }
    Ok(objects)
}

/// Where the cart fails to find one of its random objects, it fails to find all ten.
pub proof fn lemma_random_objects_failure(
    platform: Platform,
    prng: PrngModel,
    catalog: CatalogModel,
    failed: nat,
    count: nat,
)
    requires
        failed <= count,
        spec_random_objects(platform, prng, catalog, failed) is Err,
    ensures
        spec_random_objects(platform, prng, catalog, count) == spec_random_objects(
            platform,
            prng,
            catalog,
            failed,
        ),
    decreases count,
{
    if failed < count {
        lemma_random_objects_failure(platform, prng, catalog, failed, (count - 1) as nat);
    }
}

/// The cart's stock on a day, nothing on a day on which it is closed.
pub fn day_stock(configuration: &Configuration, date: i32, catalog: &Catalog) -> (result: Result<
    Option<Vec<StockItem>>,
    StockError,
>)
    ensures
        match result {
            Ok(Some(stock_items)) => spec_day_stock(*configuration, date as int, catalog@) == Ok::<
                Option<Seq<StockItem>>,
                StockError,
            >(Some(stock_items@)),
            Ok(None) => spec_day_stock(*configuration, date as int, catalog@) == Ok::<
                Option<Seq<StockItem>>,
                StockError,
            >(None),
            Err(error) => spec_day_stock(*configuration, date as int, catalog@) == Err::<
                Option<Seq<StockItem>>,
                StockError,
            >(error),
        },
        result matches Ok(Some(stock_items)) ==> stock_items.len() >= 11 && forall|i: int, j: int|
            0 <= i < j < 10 ==> (#[trigger] stock_items[i]).id != (#[trigger] stock_items[j]).id,
{
    proof {
        lemma_day_objects_distinct(*configuration, date as int, catalog@);
    }
    if !is_open(date) {
        return Ok(None);
    }
    let mut prng: Prng = Prng::from_seed(
        configuration.platform,
        wrapping_sum(configuration.seed, date),
    );
    let mut stock_items: Vec<StockItem> = match random_objects(
        configuration.platform,
        &mut prng,
        catalog,
    ) {
        Ok(objects) => objects,
        Err(error) => {
            return Err(error);
        },
    };
    match random_furniture_offer(configuration.platform, &mut prng, catalog) {
        Ok(offer) => {
            stock_items.push(offer);
        },
        Err(error) => {
            return Err(error);
        },
    }
    match seasonal_offer(&mut prng, season_number(date), catalog) {
        Ok(Some(offer)) => {
            stock_items.push(offer);
        },
        Ok(None) => {},
        Err(error) => {
            return Err(error);
        },
    }
    match rare_offer(&mut prng, catalog) {
        Ok(Some(offer)) => {
            stock_items.push(offer);
        },
        Ok(None) => {},
        Err(error) => {
            return Err(error);
        },
    }
    Ok(Some(stock_items))
}

impl TravelingCartImpl {
    /// The rows of the cart's stock from `date` on: of the next 28 days where no filter is set,
    /// else of the first eight days among the next 1120 on which the filter keeps an item.
    pub fn get_stock(configuration: &Configuration, date: i32, filter: &String, catalog: &Catalog)
        -> (result: Result<Vec<Vec<TableCell>>, StockError>)
        ensures
            spec_table_result(result) == spec_get_stock(
                Implementation::TravelingCart,
                *configuration,
                date as int,
                filter@,
                catalog@,
            ),
    {
        get_stock(Implementation::TravelingCart, configuration, date, filter, catalog)
    }

    /// The notes above the cart's table: what the table shows, and a warning where the
    /// configuration names no date to start from.
    pub fn get_messages(configuration: &Configuration) -> (messages: Vec<MessageProperties>)
        ensures
            messages.deep_view() == spec_messages(Implementation::TravelingCart, *configuration),
    {
        get_messages(Implementation::TravelingCart, configuration)
    }
}

} // verus!
