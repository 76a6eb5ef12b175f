//! What the shops share: the items they sell and the rows that show a day's stock.

use vstd::prelude::*;
use vstd::string::StringExecFns;
use crate::calendar::{format_date, spec_format_date};
use crate::catalog::{
    BigCraftablesInformation, Catalog, CatalogModel, ClothingInformation, Furniture, Hats,
    ObjectInformation,
};
use crate::components::table::{
    spec_text_cell, text_cell, TableAlign, TableCell, TableCellModel, TableValue, TableValueModel,
};
use crate::error::StockError;
use crate::prng::{Prng, PrngModel};
use crate::text::{
    append_decimal, equals, lemma_contains_empty_and_self, name_matches, spec_decimal,
    spec_lowercase, spec_name_matches,
};

verus! {

/// The shops this library knows.
#[derive(Clone, Copy, Debug, PartialEq, Eq, Structural)]
pub enum Implementation {
    TravelingCart,
    Krobus,
    Sandy,
    Joja,
    Geodes,
}

impl Implementation {
    /// The shop's display name.
    pub open spec fn spec_name(self) -> Seq<char> {
        match self {
            Implementation::TravelingCart => "Traveling Cart"@,
            Implementation::Krobus => "Krobus"@,
            Implementation::Sandy => "Sandy"@,
            Implementation::Joja => "Joja"@,
            Implementation::Geodes => "Geodes"@,
        }
    }

    /// The shop's display name.
    pub fn to_string(&self) -> (name: String)
        ensures
            name@ == self.spec_name(),
    {
        String::from_str(
            match self {
                Implementation::TravelingCart => "Traveling Cart",
                Implementation::Krobus => "Krobus",
                Implementation::Sandy => "Sandy",
                Implementation::Joja => "Joja",
                Implementation::Geodes => "Geodes",
            },
        )
    }
}

/// An item by its catalog entry. Wallpaper and flooring have no entries: an item of these
/// only says which of the two it is.
#[derive(Clone, Copy, Debug)]
pub enum Item {
    ObjectInformation(&'static ObjectInformation),
    BigCraftablesInformation(&'static BigCraftablesInformation),
    Furniture(&'static Furniture),
    ClothingInformation(&'static ClothingInformation),
    Hats(&'static Hats),
    /// Wallpaper, or flooring where the flag is set.
    Wallpaper(bool),
}

/// A whole number as 16-bit arithmetic that wraps around gives it.
pub open spec fn spec_wrap16(value: int) -> u16 {
    (value % 65536) as u16
}

/// The number behind the name of a piece of clothing: shirts are counted from 1000.
pub open spec fn spec_clothing_number(id: u16) -> nat {
    if id >= 1000 {
        (id - 1000) as nat
    } else {
        id as nat
    }
}

/// The place of a piece of clothing on its sprite sheet: the generic shirt stands for all
/// shirts without an entry and takes the place from the id, counted from 1000; every other
/// entry names its own place.
pub open spec fn spec_clothing_index(clothing_information: ClothingInformation, id: u16) -> u16 {
    if clothing_information.name@ == "Shirt"@ {
        spec_wrap16(id - 1000)
    } else {
        clothing_information.male_index
    }
}

/// The picture of an object: 24 cells of 16 by 16 to a row.
pub open spec fn spec_object_sprite(id: u16) -> TableValueModel {
    TableValueModel::Sprite(
        "springobjects.png"@,
        ((id % 24) * 16) as u16,
        ((id / 24) * 16) as u16,
        16,
        16,
        384,
        624,
    )
}

/// The picture of a big craftable: 8 cells of 16 by 32 to a row.
pub open spec fn spec_big_craftables_sprite(id: u16) -> TableValueModel {
    TableValueModel::Sprite(
        "Craftables.png"@,
        ((id % 8) * 16) as u16,
        spec_wrap16((id / 8) * 32),
        16,
        32,
        128,
        1152,
    )
}

/// The picture of a piece of furniture: 32 units of 16 by 16 to a row, and as many units
/// wide and high as the entry says.
pub open spec fn spec_furniture_sprite(furniture: Furniture, id: u16) -> TableValueModel {
    TableValueModel::Sprite(
        "furniture.png"@,
        ((id % 32) * 16) as u16,
        ((id / 32) * 16) as u16,
        (furniture.source_rectangle_width * 16) as u16,
        (furniture.source_rectangle_height * 16) as u16,
        512,
        1488,
    )
}

/// The picture of a piece of clothing by its place on the sheet: 16 cells of 8 by 8 to a
/// row, and four rows of cells to each row of places.
pub open spec fn spec_clothing_sprite(index: u16) -> TableValueModel {
    TableValueModel::Sprite(
        "shirts.png"@,
        ((index % 16) * 8) as u16,
        spec_wrap16((index / 16) * 8 * 4),
        8,
        8,
        256,
        608,
    )
}

fn object_sprite(id: u16) -> (sprite: TableValue)
    ensures
        sprite@ == spec_object_sprite(id),
{
    TableValue::Sprite(
        String::from_str("springobjects.png"),
        (id % 24) * 16,
        (id / 24) * 16,
        16,
        16,
        384,
        624,
    )
}

fn big_craftables_sprite(id: u16) -> (sprite: TableValue)
    ensures
        sprite@ == spec_big_craftables_sprite(id),
{
    let top: u32 = (id / 8) as u32 * 32;
    TableValue::Sprite(
        String::from_str("Craftables.png"),
        (id % 8) * 16,
        (top % 65536) as u16,
        16,
        32,
        128,
        1152,
    )
}

fn furniture_sprite(furniture: &Furniture, id: u16) -> (sprite: TableValue)
    ensures
        sprite@ == spec_furniture_sprite(*furniture, id),
{
    TableValue::Sprite(
        String::from_str("furniture.png"),
        (id % 32) * 16,
        (id / 32) * 16,
        furniture.source_rectangle_width as u16 * 16,
        furniture.source_rectangle_height as u16 * 16,
        512,
        1488,
    )
}

fn clothing_index(clothing_information: &ClothingInformation, id: u16) -> (index: u16)
    ensures
        index == spec_clothing_index(*clothing_information, id),
{
    if equals(clothing_information.name, "Shirt") {
        if id >= 1000 {
            id - 1000
        } else {
            id + 64536
        }
    } else {
        clothing_information.male_index
    }
}

fn clothing_sprite(index: u16) -> (sprite: TableValue)
    ensures
        sprite@ == spec_clothing_sprite(index),
{
    let top: u32 = (index / 16) as u32 * 32;
    TableValue::Sprite(
        String::from_str("shirts.png"),
        (index % 16) * 8,
        (top % 65536) as u16,
        8,
        8,
        256,
        608,
    )
}

impl Item {
    /// The name under which an item with this id is listed and found by a filter.
    pub open spec fn spec_name(self, id: u16) -> Seq<char> {
        match self {
            Item::ObjectInformation(object_information) => object_information.name@,
            Item::BigCraftablesInformation(big_craftables_information) => {
                big_craftables_information.name@
            },
            Item::Furniture(furniture) => furniture.name@,
            Item::ClothingInformation(clothing_information) => clothing_information.name@ + " ("@
                + spec_decimal(spec_clothing_number(id)) + ")"@,
            Item::Hats(hats) => hats.name@,
            Item::Wallpaper(flooring) => (if flooring {
                "Flooring"@
            } else {
                "Wallpaper"@
            }) + " ("@ + spec_decimal(id as nat) + ")"@,
        }
    }

    /// The name under which an item with this id is listed and found by a filter.
    pub fn name(&self, id: u16) -> (name: String)
        ensures
            name@ == self.spec_name(id),
    {
        match self {
            Item::ObjectInformation(object_information) => String::from_str(
                object_information.name,
            ),
            Item::BigCraftablesInformation(big_craftables_information) => String::from_str(
                big_craftables_information.name,
            ),
            Item::Furniture(furniture) => String::from_str(furniture.name),
            Item::ClothingInformation(clothing_information) => {
                let mut name: String = String::from_str(clothing_information.name);
                name.append(" (");
                append_decimal(
                    &mut name,
                    if id >= 1000 {
                        (id - 1000) as u32
                    } else {
                        id as u32
                    },
                );
                name.append(")");
                name
            },
            Item::Hats(hats) => String::from_str(hats.name),
            Item::Wallpaper(flooring) => {
                let mut name: String = String::from_str(
                    if *flooring {
                        "Flooring"
                    } else {
                        "Wallpaper"
                    },
                );
                name.append(" (");
                append_decimal(&mut name, id as u32);
                name.append(")");
                name
            },
        }
    }

    /// The picture of an item with this id: the part of its catalog's sprite sheet that
    /// its id, or for clothing its place on the sheet, points to. The sheets are laid out in
    /// rows of equal cells. Edges are computed in 16 bits and wrap around. Hats, wallpaper
    /// and flooring are listed without a picture.
    pub open spec fn spec_sprite(self, id: u16) -> TableValueModel {
        match self {
            Item::ObjectInformation(_) => spec_object_sprite(id),
            Item::BigCraftablesInformation(_) => spec_big_craftables_sprite(id),
            Item::Furniture(furniture) => spec_furniture_sprite(*furniture, id),
            Item::ClothingInformation(clothing_information) => spec_clothing_sprite(
                spec_clothing_index(*clothing_information, id),
            ),
            Item::Hats(_) => TableValueModel::Empty,
            Item::Wallpaper(_) => TableValueModel::Empty,
        }
    }

    /// The picture of an item with this id.
    pub fn sprite(&self, id: u16) -> (sprite: TableValue)
        ensures
            sprite@ == self.spec_sprite(id),
    {
        match self {
            Item::ObjectInformation(_) => object_sprite(id),
            Item::BigCraftablesInformation(_) => big_craftables_sprite(id),
            Item::Furniture(furniture) => furniture_sprite(furniture, id),
            Item::ClothingInformation(clothing_information) => clothing_sprite(
                clothing_index(clothing_information, id),
            ),
            Item::Hats(_) => TableValue::Empty,
            Item::Wallpaper(_) => TableValue::Empty,
        }
    }
}

/// One item of a shop's stock.
#[derive(Clone, Copy, Debug)]
pub struct StockItem {
    pub id: u16,
    pub item: Item,
    pub price: u32,
    pub quantity: u8,
}

/// Whether a filter keeps an item: whether the filter stands somewhere in the item's name
/// in lower case. The empty filter keeps every item.
pub open spec fn spec_item_matches(stock_item: StockItem, filter: Seq<char>) -> bool {
    spec_name_matches(stock_item.item.spec_name(stock_item.id), filter)
}

/// The cells of an item's row: its picture, its name, its price and its quantity.
pub open spec fn spec_item_row(stock_item: StockItem) -> Seq<TableCellModel> {
    seq![
        TableCellModel {
            value: stock_item.item.spec_sprite(stock_item.id),
            align: TableAlign::MiddleCenter,
            rows: 1,
            columns: 1,
        },
        spec_text_cell(stock_item.item.spec_name(stock_item.id), TableAlign::MiddleLeft, 1),
        spec_text_cell(spec_decimal(stock_item.price as nat) + "g"@, TableAlign::MiddleLeft, 1),
        spec_text_cell("x"@ + spec_decimal(stock_item.quantity as nat), TableAlign::MiddleLeft, 1),
    ]
}

/// The rows of the items that a filter keeps, in the items' order.
pub open spec fn spec_matching_rows(stock_items: Seq<StockItem>, filter: Seq<char>) -> Seq<
    Seq<TableCellModel>,
>
    decreases stock_items.len(),
{
    if stock_items.len() == 0 {
        Seq::empty()
    } else {
        let before = spec_matching_rows(stock_items.drop_last(), filter);
        if spec_item_matches(stock_items.last(), filter) {
            before.push(spec_item_row(stock_items.last()))
        } else {
            before
        }
    }
}

/// The number of rows that the cell of a day spans: the number of the day's rows, and 255,
/// the most that the cell can hold, for a day with more.
pub open spec fn spec_row_span(rows: nat) -> u8 {
    if rows > 255 {
        255
    } else {
        rows as u8
    }
}

/// The cell that names a day. It spans the rows of the day.
pub open spec fn spec_date_cell(date: int, rows: u8) -> TableCellModel {
    TableCellModel {
        value: TableValueModel::Text(spec_format_date(date)),
        align: TableAlign::MiddleLeft,
        rows,
        columns: 1,
    }
}

/// The rows that show a day's stock under a filter: one row for each item that the filter
/// keeps, and in front of the first row the cell that names the day. A day of which the
/// filter keeps nothing has no rows.
pub open spec fn spec_stock_items_rows(stock_items: Seq<StockItem>, date: int, filter: Seq<char>)
    -> Option<Seq<Seq<TableCellModel>>> {
    let rows = spec_matching_rows(stock_items, filter);
    if rows.len() == 0 {
        None
    } else {
        Some(rows.update(0, seq![spec_date_cell(date, spec_row_span(rows.len()))] + rows[0]))
    }
}

/// Whether a filter keeps none of the items.
pub open spec fn spec_no_item_matches(stock_items: Seq<StockItem>, filter: Seq<char>) -> bool {
    forall|i: int| 0 <= i < stock_items.len() ==> !spec_item_matches(#[trigger] stock_items[i], filter)
}

/// A day has no rows if and only if the filter keeps none of its items.
pub proof fn lemma_rows_where_an_item_matches(
    stock_items: Seq<StockItem>,
    date: int,
    filter: Seq<char>,
)
    ensures
        spec_matching_rows(stock_items, filter).len() == 0 <==> spec_no_item_matches(
            stock_items,
            filter,
        ),
        spec_stock_items_rows(stock_items, date, filter) is None <==> spec_no_item_matches(
            stock_items,
            filter,
        ),
        spec_matching_rows(stock_items, filter).len() <= stock_items.len(),
    decreases stock_items.len(),
{
    if stock_items.len() > 0 {
        let before = stock_items.drop_last();
        lemma_rows_where_an_item_matches(before, date, filter);
        if spec_no_item_matches(before, filter) && !spec_item_matches(stock_items.last(), filter) {
            assert forall|i: int| 0 <= i < stock_items.len() implies !spec_item_matches(
                #[trigger] stock_items[i],
                filter,
            ) by {
                if i < before.len() {
                    assert(before[i] == stock_items[i]);
                }
            }
        }
        if spec_no_item_matches(stock_items, filter) {
            assert forall|i: int| 0 <= i < before.len() implies !spec_item_matches(
                #[trigger] before[i],
                filter,
            ) by {
                assert(before[i] == stock_items[i]);
            }
            assert(!spec_item_matches(stock_items[stock_items.len() - 1], filter));
        }
    }
}

/// The empty filter keeps every item, so it keeps none only of a day without items.
pub proof fn lemma_empty_filter_keeps(stock_items: Seq<StockItem>, filter: Seq<char>)
    ensures
        filter.len() == 0 ==> (spec_no_item_matches(stock_items, filter) <==> stock_items.len()
            == 0),
{
    if filter.len() == 0 {
        assert(filter =~= Seq::<char>::empty());
        if stock_items.len() > 0 {
            lemma_contains_empty_and_self(
                spec_lowercase(stock_items[0].item.spec_name(stock_items[0].id)),
            );
            assert(spec_item_matches(stock_items[0], filter));
        }
    }
}

/// A filter that keeps nothing leaves no rows.
pub proof fn lemma_no_match_no_rows(stock_items: Seq<StockItem>, date: int, filter: Seq<char>)
    requires
        forall|i: int|
            0 <= i < stock_items.len() ==> !spec_item_matches(#[trigger] stock_items[i], filter),
    ensures
        spec_matching_rows(stock_items, filter).len() == 0,
        spec_stock_items_rows(stock_items, date, filter) is None,
{
    lemma_rows_where_an_item_matches(stock_items, date, filter);
}

fn item_row(stock_item: &StockItem, name: String) -> (row: Vec<TableCell>)
    requires
        name@ == stock_item.item.spec_name(stock_item.id),
    ensures
        row.deep_view() == spec_item_row(*stock_item),
{
    let mut row: Vec<TableCell> = Vec::new();
    row.push(
        TableCell {
            value: stock_item.item.sprite(stock_item.id),
            align: TableAlign::MiddleCenter,
            rows: 1,
            columns: 1,
        },
    );
    row.push(text_cell(name, TableAlign::MiddleLeft, 1));
    let mut price: String = String::new();
    append_decimal(&mut price, stock_item.price);
    price.append("g");
    row.push(text_cell(price, TableAlign::MiddleLeft, 1));
    let mut quantity: String = String::from_str("x");
    append_decimal(&mut quantity, stock_item.quantity as u32);
    row.push(text_cell(quantity, TableAlign::MiddleLeft, 1));
    row
}

/// The rows that show a day's stock under a filter, or nothing where, and only where, the
/// filter keeps none of the items.
pub fn stock_items_rows(stock_items: &Vec<StockItem>, date: i32, filter: &String) -> (result:
    Option<Vec<Vec<TableCell>>>)
    ensures
        match result {
            Some(rows) => spec_stock_items_rows(stock_items@, date as int, filter@) == Some(
                rows.deep_view(),
            ),
            None => spec_stock_items_rows(stock_items@, date as int, filter@) is None,
        },
        result is None <==> spec_no_item_matches(stock_items@, filter@),
        filter@.len() == 0 ==> (result is None <==> stock_items@.len() == 0),
{
    proof {
        lemma_rows_where_an_item_matches(stock_items@, date as int, filter@);
        lemma_empty_filter_keeps(stock_items@, filter@);
    }
    let mut rows: Vec<Vec<TableCell>> = Vec::new();
    let mut index: usize = 0;
    while index < stock_items.len()
        invariant
            0 <= index <= stock_items.len(),
            rows.deep_view() == spec_matching_rows(stock_items@.take(index as int), filter@),
        decreases stock_items.len() - index,
    {
        let stock_item: &StockItem = &stock_items[index];
        let name: String = stock_item.item.name(stock_item.id);
        proof {
            assert(stock_items@.take(index + 1).drop_last() =~= stock_items@.take(index as int));
        }
        if name_matches(name.as_str(), filter.as_str()) {
            let row: Vec<TableCell> = item_row(stock_item, name);
            rows.push(row);
        }
        index = index + 1;
    }
    assert(stock_items@.take(index as int) =~= stock_items@);
    if rows.len() == 0 {
        return None;
    }
    let count: u8 = if rows.len() > 255 {
        255
    } else {
        rows.len() as u8
    };
    let ghost matching = rows.deep_view();
    let mut first: Vec<TableCell> = rows.remove(0);
    first.insert(
        0,
        TableCell {
            value: TableValue::Text(format_date(date)),
            align: TableAlign::MiddleLeft,
            rows: count,
            columns: 1,
        },
    );
    rows.insert(0, first);
    assert(rows.deep_view() =~~= matching.update(
        0,
        seq![spec_date_cell(date as int, count)] + matching[0],
    ));
    Some(rows)
}

/// Half a seed, rounded towards zero.
pub open spec fn spec_half(seed: i32) -> int {
    if seed >= 0 {
        seed / 2
    } else {
        -((-seed) / 2)
    }
}

/// A sum as 32-bit arithmetic that wraps around gives it.
pub open spec fn spec_wrapping_sum(left: int, right: int) -> i32 {
    let sum = left + right;
    if sum > 2147483647 {
        (sum - 4294967296) as i32
    } else if sum < -2147483648 {
        (sum + 4294967296) as i32
    } else {
        sum as i32
    }
}

/// Half a seed, rounded towards zero.
pub fn half(seed: i32) -> (halved: i32)
    ensures
        halved == spec_half(seed),
{
    seed / 2
}

/// The sum of two 32-bit numbers, wrapping around as the game's arithmetic does.
pub fn wrapping_sum(left: i32, right: i32) -> (sum: i32)
    ensures
        sum == spec_wrapping_sum(left as int, right as int),
{
    left.wrapping_add(right)
}

/// The number of draws after which the search for a piece of furniture would give up:
/// 2^64 - 1, which no machine reaches.
pub const FURNITURE_DRAW_LIMIT: u64 = 18446744073709551615;

/// Whether some id from `lower_bound` up to but not including `upper_bound` is a piece of
/// furniture that may be sold.
pub open spec fn spec_furniture_in_bounds(
    lower_bound: u16,
    upper_bound: u16,
    catalog: CatalogModel,
) -> bool {
    exists|id: u16| lower_bound <= id < upper_bound && #[trigger] catalog.spec_furniture_sellable(id)
}

/// The piece of furniture that up to `draws` draws from `lower_bound` up to but not
/// including `upper_bound` come to, and the generator after the search: the first id drawn
/// that the catalog holds and that is not off limits.
pub open spec fn spec_random_furniture(
    prng: PrngModel,
    lower_bound: u16,
    upper_bound: u16,
    catalog: CatalogModel,
    draws: nat,
) -> (Option<u16>, PrngModel)
    decreases draws,
{
    if draws == 0 {
        (None, prng)
    } else {
        let id = prng.spec_range(lower_bound as int, upper_bound as int) as u16;
        if catalog.spec_furniture_sellable(id) {
            (Some(id), prng.spec_advance())
        } else {
            spec_random_furniture(
                prng.spec_advance(),
                lower_bound,
                upper_bound,
                catalog,
                (draws - 1) as nat,
            )
        }
    }
}

/// The piece of furniture that the search comes to, and the generator after it. Bounds
/// that hold no piece that may be sold give none and cost no draw; all other bounds are
/// drawn from until a piece comes.
pub open spec fn spec_furniture_search(
    prng: PrngModel,
    lower_bound: u16,
    upper_bound: u16,
    catalog: CatalogModel,
) -> (Option<u16>, PrngModel) {
    if spec_furniture_in_bounds(lower_bound, upper_bound, catalog) {
        spec_random_furniture(prng, lower_bound, upper_bound, catalog, 18446744073709551615)
    } else {
        (None, prng)
    }
}

/// A search for a piece of furniture that finds one finds one that may be sold, inside the
/// bounds; and every search leaves the generator well formed.
pub proof fn lemma_random_furniture(
    prng: PrngModel,
    lower_bound: u16,
    upper_bound: u16,
    catalog: CatalogModel,
    draws: nat,
)
    requires
        prng.wf(),
        lower_bound < upper_bound,
    ensures
        spec_random_furniture(prng, lower_bound, upper_bound, catalog, draws).1.wf(),
        spec_random_furniture(prng, lower_bound, upper_bound, catalog, draws).0 matches Some(id)
            ==> lower_bound <= id < upper_bound && catalog.spec_furniture_sellable(id),
    decreases draws,
{
    if draws > 0 {
        prng.lemma_draw(lower_bound as int, upper_bound as int);
        lemma_random_furniture(
            prng.spec_advance(),
            lower_bound,
            upper_bound,
            catalog,
            (draws - 1) as nat,
        );
    }
}

/// Whether some id from `lower_bound` up to but not including `upper_bound` is a piece of
/// furniture that may be sold.
pub fn furniture_in_bounds(lower_bound: u16, upper_bound: u16, catalog: &Catalog) -> (found: bool)
    ensures
        found == spec_furniture_in_bounds(lower_bound, upper_bound, catalog@),
{
    let mut id: u16 = lower_bound;
    while id < upper_bound
        invariant
            lower_bound <= id,
            forall|earlier: u16|
                lower_bound <= earlier < id ==> !#[trigger] catalog@.spec_furniture_sellable(earlier),
        decreases upper_bound - id,
    {
        if catalog.furniture_sellable(id) {
            return true;
        }
        id = id + 1;
    }
    false
}

/// Draws ids from `lower_bound` up to but not including `upper_bound` until one is a piece
/// of furniture that may be sold. Two things keep the search from going on for ever. Bounds
/// that hold no such piece are found out before the first draw, and the search fails. And
/// the draws are counted, so that the search would fail after 2^64 - 1 of them.
pub fn get_random_furniture(
    prng: &mut Prng,
    lower_bound: u16,
    upper_bound: u16,
    catalog: &Catalog,
) -> (result: Result<u16, StockError>)
    requires
        old(prng)@.wf(),
    ensures
        final(prng)@.wf(),
        final(prng)@ == spec_furniture_search(old(prng)@, lower_bound, upper_bound, catalog@).1,
        result == (match spec_furniture_search(old(prng)@, lower_bound, upper_bound, catalog@).0 {
            Some(id) => Ok::<u16, StockError>(id),
            None => Err::<u16, StockError>(StockError::Furniture),
        }),
        result matches Ok(id) ==> lower_bound <= id < upper_bound && catalog@.spec_furniture_sellable(
            id,
        ),
        !spec_furniture_in_bounds(lower_bound, upper_bound, catalog@) ==> result is Err,
{
    if !furniture_in_bounds(lower_bound, upper_bound, catalog) {
        return Err(StockError::Furniture);
    }
    proof {
        lemma_random_furniture(prng@, lower_bound, upper_bound, catalog@, 18446744073709551615);
    }
    let ghost start = prng@;
    let mut drawn: u64 = 0;
    while drawn < FURNITURE_DRAW_LIMIT
        invariant
            0 <= drawn <= 18446744073709551615,
            lower_bound < upper_bound,
            start == old(prng)@,
            prng@.wf(),
            spec_random_furniture(
                prng@,
                lower_bound,
                upper_bound,
                catalog@,
                (18446744073709551615 - drawn) as nat,
            ) == spec_random_furniture(
                start,
                lower_bound,
                upper_bound,
                catalog@,
                18446744073709551615,
            ),
        decreases 18446744073709551615 - drawn,
    {
        let id: u16 = prng.gen_range(lower_bound as i32, upper_bound as i32) as u16;
        if catalog.furniture_sellable(id) {
            return Ok(id);
        }
        drawn = drawn + 1;
    }
    Err(StockError::Furniture)
}

} // verus!
