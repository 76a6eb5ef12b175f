//! What the next geodes hold. Six kinds are shown side by side: geode, frozen geode, magma
//! geode, omni geode, artifact trove and golden coconut. The content of each depends on the
//! number of geodes cracked so far, and every kind starts from the same seed.

use vstd::prelude::*;
use vstd::string::StringExecFns;
use crate::binary64::{
    THRESHOLD_0_008, THRESHOLD_0_01, THRESHOLD_0_05, THRESHOLD_0_1, THRESHOLD_0_25,
    THRESHOLD_0_5,
};
use crate::catalog::{spec_lookup, Catalog, CatalogModel, ObjectInformationExtra};
use crate::components::message::{get_messages as notes, spec_messages, MessageProperties};
use crate::components::stock_table::{get_stock, spec_get_stock, spec_table_result, TableModel};
use crate::components::table::{
    spec_text_cell, text_cell, TableAlign, TableCell, TableCellModel, TableValue, TableValueModel,
};
use crate::configuration::Configuration;
use crate::error::StockError;
use crate::implementations::util::{
    half, spec_half, spec_wrapping_sum, wrapping_sum, Implementation, Item,
};
use crate::prng::{Prng, PrngModel};
use crate::text::{
    append_decimal, name_matches, signed_decimal, spec_decimal, spec_name_matches,
    spec_signed_decimal,
};

verus! {

/// The number of counts shown where no filter is set.
pub const NON_FILTER_ITERATIONS: u16 = 28;

/// The number of kinds shown side by side.
pub const KINDS: usize = 6;

/// What one geode holds.
#[derive(Clone, Copy, Debug)]
pub struct Geode {
    pub id: u16,
    pub item: Item,
    pub quantity: u8,
}

/// The seed of the generator for a count of cracked geodes: half the world's seed and the
/// count.
pub open spec fn spec_geode_seed(configuration: Configuration, geodes_cracked: int) -> i32 {
    spec_wrapping_sum(spec_half(configuration.seed), geodes_cracked)
}

/// A generator after it has been warmed up once: a draw from 1 to 9 says how many further
/// draws are thrown away.
pub open spec fn spec_warm_up(prng: PrngModel) -> PrngModel {
    prng.spec_advance().spec_skip(prng.spec_range(1, 10) as nat)
}

/// The ids of the objects whose entries list what the first five kinds can hold.
pub open spec fn spec_kind_id(kind: int) -> u16 {
    if kind == 0 {
        535
    } else if kind == 1 {
        536
    } else if kind == 2 {
        537
    } else if kind == 3 {
        749
    } else {
        275
    }
}

/// The list of what a kind can hold, where the catalog has the kind's entry and the entry
/// has a list that a draw can pick from.
pub open spec fn spec_treasure_list(catalog: CatalogModel, kind: int) -> Option<Seq<u16>> {
    match spec_lookup(catalog.object_information, spec_kind_id(kind)) {
        Some(entry) => match entry.extra {
            ObjectInformationExtra::Treasure(treasure) => if 0 < treasure@.len() < 2147483647 {
                Some(treasure@)
            } else {
                None
            },
            ObjectInformationExtra::Nothing => None,
        },
        None => None,
    }
}

/// The id that a draw picks from a kind's list. An omni geode beyond the fifteenth holds
/// with a chance of 0.008 another omni geode instead; the draw for it is made for every omni
/// geode.
pub open spec fn spec_treasure(prng: PrngModel, kind: int, geodes_cracked: int, treasure: Seq<u16>)
    -> u16 {
    let picked = treasure[prng.spec_range(0, treasure.len() as int)];
    if kind == 3 && prng.spec_advance().spec_fraction().numerator < THRESHOLD_0_008
        && geodes_cracked > 15 {
        74
    } else {
        picked
    }
}

/// The quantity of a mineral or ore: 1, 3 or 5 by the first draw, 10 with a chance of 0.1 by
/// the second, 20 with a chance of 0.01 by the third.
pub open spec fn spec_ore_quantity(prng: PrngModel) -> u8 {
    let second = prng.spec_advance();
    let third = second.spec_advance();
    if third.spec_fraction().numerator < THRESHOLD_0_01 {
        20
    } else if second.spec_fraction().numerator < THRESHOLD_0_1 {
        10
    } else {
        (prng.spec_range(0, 3) * 2 + 1) as u8
    }
}

/// The ore of the first kind by a draw from 0 to 2: copper, iron or coal. Copper takes
/// iron's place until the mine has been reached beyond level 25.
pub open spec fn spec_geode_ore(pick: int, mine_level: u8) -> u16 {
    if pick == 0 {
        378
    } else if pick == 1 {
        if mine_level > 25 {
            380
        } else {
            378
        }
    } else {
        382
    }
}

/// The ore of the second kind by a draw from 0 to 3: copper, iron, coal or gold. Iron takes
/// gold's place until the mine has been reached beyond level 75.
pub open spec fn spec_frozen_geode_ore(pick: int, mine_level: u8) -> u16 {
    if pick == 0 {
        378
    } else if pick == 1 {
        380
    } else if pick == 2 {
        382
    } else if mine_level > 75 {
        384
    } else {
        380
    }
}

/// The ore of the third and fourth kind by a draw from 0 to 4: copper, iron, coal, gold or
/// iridium.
pub open spec fn spec_magma_geode_ore(pick: int) -> u16 {
    if pick == 0 {
        378
    } else if pick == 1 {
        380
    } else if pick == 2 {
        382
    } else if pick == 3 {
        384
    } else {
        386
    }
}

/// Stone, clay or a mineral of the kind by a draw from 0 to 3: stone in the quantity drawn
/// before on 0 and 1, clay on 2, and on 3 the mineral of each of the first three kinds, or
/// for a later kind one of the three minerals by a further draw.
pub open spec fn spec_mineral(prng: PrngModel, kind: int, quantity: u8) -> (u16, u8) {
    let pick = prng.spec_range(0, 4);
    if pick == 0 || pick == 1 {
        (390, quantity)
    } else if pick == 2 {
        (330, 1)
    } else if kind == 0 {
        (86, 1)
    } else if kind == 1 {
        (84, 1)
    } else if kind == 2 {
        (82, 1)
    } else {
        ((82 + prng.spec_advance().spec_range(0, 3) * 2) as u16, 1)
    }
}

/// The ore of a kind by one draw, in the quantity drawn before. Of iridium there is one
/// more than half that quantity.
pub open spec fn spec_kind_ore(prng: PrngModel, kind: int, mine_level: u8, quantity: u8) -> (
    u16,
    u8,
) {
    if kind == 0 {
        (spec_geode_ore(prng.spec_range(0, 3), mine_level), quantity)
    } else if kind == 1 {
        (spec_frozen_geode_ore(prng.spec_range(0, 4), mine_level), quantity)
    } else {
        let pick = prng.spec_range(0, 5);
        (
            spec_magma_geode_ore(pick),
            if pick == 4 {
                (quantity / 2 + 1) as u8
            } else {
                quantity
            },
        )
    }
}

/// What one of the first four kinds holds where it holds no item of its list: after the
/// three draws for the quantity, one draw chooses between stone, clay and a mineral of the
/// kind on the one hand and an ore on the other, and one or two further draws say which.
pub open spec fn spec_ore(prng: PrngModel, kind: int, mine_level: u8) -> (u16, u8) {
    let quantity = spec_ore_quantity(prng);
    let chooser = prng.spec_advance().spec_advance().spec_advance();
    let picker = chooser.spec_advance();
    if chooser.spec_fraction().numerator < THRESHOLD_0_5 {
        spec_mineral(picker, kind, quantity)
    } else {
        spec_kind_ore(picker, kind, mine_level, quantity)
    }
}

/// What a golden coconut holds by a draw from 0 to 6, and how many of it.
pub open spec fn spec_coconut(pick: int) -> (u16, u8) {
    if pick == 0 {
        (69, 1)
    } else if pick == 1 {
        (835, 1)
    } else if pick == 2 {
        (833, 5)
    } else if pick == 3 {
        (831, 5)
    } else if pick == 4 {
        (820, 1)
    } else if pick == 5 {
        (292, 1)
    } else {
        (386, 5)
    }
}

/// A geode that holds an object, where the catalog has the object.
pub open spec fn spec_object_geode(catalog: CatalogModel, id: u16, quantity: u8) -> Result<
    Geode,
    StockError,
> {
    match spec_lookup(catalog.object_information, id) {
        Some(entry) => Ok(Geode { id, item: Item::ObjectInformation(entry), quantity }),
        None => Err(StockError::ObjectInformation),
    }
}

/// What a golden coconut holds where it holds no quest crop, from a generator whose next
/// draw comes after the draw for the quest crop: the golden helmet with a chance of 0.05
/// until it has been received, and one of seven items by a further draw otherwise.
pub open spec fn spec_coconut_content(
    prng: PrngModel,
    configuration: Configuration,
    catalog: CatalogModel,
) -> Result<Geode, StockError> {
    if prng.spec_fraction().numerator < THRESHOLD_0_05 && !spec_golden_helmet(configuration) {
        match spec_lookup(catalog.hats, 75) {
            Some(entry) => Ok(Geode { id: 75, item: Item::Hats(entry), quantity: 1 }),
            None => Err(StockError::Hats),
        }
    } else {
        let (id, quantity) = spec_coconut(prng.spec_advance().spec_range(0, 7));
        spec_object_geode(catalog, id, quantity)
    }
}

/// What one of the five kinds before the golden coconut holds where it holds no quest
/// crop, from a generator whose next draw comes after the draw for the quest crop: an
/// artifact trove always holds an item of its list, each of the four kinds before it does
/// so by a draw with a chance of 0.5 and holds a mineral or ore otherwise.
pub open spec fn spec_plain_content(
    prng: PrngModel,
    configuration: Configuration,
    geodes_cracked: int,
    kind: int,
    catalog: CatalogModel,
) -> Result<Geode, StockError> {
    let next = prng.spec_advance();
    if kind == 4 || prng.spec_fraction().numerator >= THRESHOLD_0_5 {
        match spec_treasure_list(catalog, kind) {
            Some(treasure) => spec_object_geode(
                catalog,
                spec_treasure(
                    if kind == 4 {
                        prng
                    } else {
                        next
                    },
                    kind,
                    geodes_cracked,
                    treasure,
                ),
                1,
            ),
            None => Err(StockError::ObjectInformation),
        }
    } else {
        let (id, quantity) = spec_ore(next, kind, spec_mine_level(configuration));
        spec_object_geode(catalog, id, quantity)
    }
}

/// What the geode of one kind holds, from a generator that has been warmed up twice.
///
/// The first draw gives, with a chance of 0.1 and while the quest for them runs, a quest
/// crop, one or with a further draw five. Else the geode holds what the draws after the
/// first give for its kind.
pub open spec fn spec_geode_content(
    prng: PrngModel,
    configuration: Configuration,
    geodes_cracked: int,
    kind: int,
    catalog: CatalogModel,
) -> Result<Geode, StockError> {
    let second = prng.spec_advance();
    if prng.spec_fraction().numerator <= THRESHOLD_0_1 && spec_qis_crop(configuration) {
        spec_object_geode(
            catalog,
            890,
            if second.spec_fraction().numerator < THRESHOLD_0_25 {
                5
            } else {
                1
            },
        )
    } else if kind == 5 {
        spec_coconut_content(second, configuration, catalog)
    } else {
        spec_plain_content(second, configuration, geodes_cracked, kind, catalog)
    }
}

/// The deepest mine level reached, 120 where none is given.
pub open spec fn spec_mine_level(configuration: Configuration) -> u8 {
    match configuration.mine_level {
        Some(level) => level,
        None => 120,
    }
}

/// Whether the quest for the special crop runs; not, where nothing is given.
pub open spec fn spec_qis_crop(configuration: Configuration) -> bool {
    match configuration.qis_crop {
        Some(active) => active,
        None => false,
    }
}

/// Whether the golden helmet has been received; it has, where nothing is given.
pub open spec fn spec_golden_helmet(configuration: Configuration) -> bool {
    match configuration.golden_helmet {
        Some(received) => received,
        None => true,
    }
}

/// What the geode of one kind holds after `geodes_cracked` geodes: the content from a
/// fresh generator of the count's seed, warmed up twice.
pub open spec fn spec_geode(
    configuration: Configuration,
    geodes_cracked: int,
    kind: int,
    catalog: CatalogModel,
) -> Result<Geode, StockError> {
    spec_geode_content(
        spec_warm_up(
            spec_warm_up(
                PrngModel::spec_from_seed(
                    configuration.platform,
                    spec_geode_seed(configuration, geodes_cracked),
                ),
            ),
        ),
        configuration,
        geodes_cracked,
        kind,
        catalog,
    )
}

/// What the geodes of the first `kinds` kinds hold after `geodes_cracked` geodes, or the
/// failure of the first kind that fails.
pub open spec fn spec_geodes(
    configuration: Configuration,
    geodes_cracked: int,
    catalog: CatalogModel,
    kinds: nat,
) -> Result<Seq<Geode>, StockError>
    decreases kinds,
{
    if kinds == 0 {
        Ok(Seq::empty())
    } else {
        match spec_geodes(configuration, geodes_cracked, catalog, (kinds - 1) as nat) {
            Ok(before) => match spec_geode(configuration, geodes_cracked, kinds - 1, catalog) {
                Ok(geode) => Ok(before.push(geode)),
                Err(error) => Err(error),
            },
            Err(error) => Err(error),
        }
    }
}

/// Whether a filter keeps a geode: whether the filter stands somewhere in the name of what
/// the geode holds, in lower case.
pub open spec fn spec_geode_matches(geode: Geode, filter: Seq<char>) -> bool {
    spec_name_matches(geode.item.spec_name(geode.id), filter)
}

/// A cell that shows nothing.
pub open spec fn spec_empty_cell(align: TableAlign) -> TableCellModel {
    TableCellModel { value: TableValueModel::Empty, align, rows: 1, columns: 1 }
}

/// The three cells of a geode: the picture, the name and the quantity of what it holds, or
/// three cells that show nothing where the filter does not keep the geode.
pub open spec fn spec_geode_cells(geode: Geode, filter: Seq<char>) -> Seq<TableCellModel> {
    if spec_geode_matches(geode, filter) {
        seq![
            TableCellModel {
                value: geode.item.spec_sprite(geode.id),
                align: TableAlign::MiddleCenter,
                rows: 1,
                columns: 1,
            },
            spec_text_cell(geode.item.spec_name(geode.id), TableAlign::MiddleLeft, 1),
            spec_text_cell("x"@ + spec_decimal(geode.quantity as nat), TableAlign::MiddleLeft, 1),
        ]
    } else {
        seq![
            spec_empty_cell(TableAlign::MiddleCenter),
            spec_empty_cell(TableAlign::MiddleLeft),
            spec_empty_cell(TableAlign::MiddleLeft),
        ]
    }
}

/// The cells of a row from the count on to the cells of the first `kinds` geodes.
pub open spec fn spec_geodes_cells(
    geodes: Seq<Geode>,
    geodes_cracked: int,
    filter: Seq<char>,
    kinds: nat,
) -> Seq<TableCellModel>
    decreases kinds,
{
    if kinds == 0 {
        seq![spec_text_cell(spec_signed_decimal(geodes_cracked), TableAlign::MiddleCenter, 1)]
    } else {
        spec_geodes_cells(geodes, geodes_cracked, filter, (kinds - 1) as nat) + spec_geode_cells(
            geodes[kinds - 1],
            filter,
        )
    }
}

/// Whether a filter keeps one of the first `kinds` geodes.
pub open spec fn spec_any_geode_matches(geodes: Seq<Geode>, filter: Seq<char>, kinds: nat) -> bool
    decreases kinds,
{
    if kinds == 0 {
        false
    } else {
        spec_any_geode_matches(geodes, filter, (kinds - 1) as nat) || spec_geode_matches(
            geodes[kinds - 1],
            filter,
        )
    }
}

/// The row of a count: the count and the cells of each geode, or nothing where the filter
/// keeps none of the geodes.
pub open spec fn spec_geodes_rows(geodes: Seq<Geode>, geodes_cracked: int, filter: Seq<char>)
    -> Option<Seq<Seq<TableCellModel>>> {
    if spec_any_geode_matches(geodes, filter, geodes.len()) {
        Some(seq![spec_geodes_cells(geodes, geodes_cracked, filter, geodes.len())])
    } else {
        None
    }
}

/// A filter that keeps none of the geodes leaves no row.
pub proof fn lemma_no_geode_matches(geodes: Seq<Geode>, filter: Seq<char>, kinds: nat)
    requires
        kinds <= geodes.len(),
        forall|kind: int| 0 <= kind < geodes.len() ==> !spec_geode_matches(#[trigger] geodes[kind], filter),
    ensures
        !spec_any_geode_matches(geodes, filter, kinds),
        kinds == geodes.len() ==> spec_geodes_rows(geodes, 0, filter) is None,
    decreases kinds,
{
    if kinds > 0 {
        lemma_no_geode_matches(geodes, filter, (kinds - 1) as nat);
    }
}

fn warm_up(prng: &mut Prng)
    requires
        old(prng)@.wf(),
    ensures
        final(prng)@ == spec_warm_up(old(prng)@),
        final(prng)@.wf(),
{
    let draws: i32 = prng.gen_range(1, 10);
    let ghost start = prng@;
    let mut drawn: i32 = 0;
    while drawn < draws
        invariant
            0 <= drawn <= draws,
            prng@.wf(),
            prng@.spec_skip((draws - drawn) as nat) == start.spec_skip(draws as nat),
        decreases draws - drawn,
    {
        let _ = prng.gen_float();
        drawn = drawn + 1;
    }
}

fn kind_id(kind: usize) -> (id: u16)
    ensures
        id == spec_kind_id(kind as int),
{
    if kind == 0 {
        535
    } else if kind == 1 {
        536
    } else if kind == 2 {
        537
    } else if kind == 3 {
        749
    } else {
        275
    }
}

fn treasure_list(catalog: &Catalog, kind: usize) -> (list: Option<&'static [u16]>)
    ensures
        match list {
            Some(treasure) => spec_treasure_list(catalog@, kind as int) == Some(treasure@),
            None => spec_treasure_list(catalog@, kind as int) is None,
        },
{
    match catalog.object_information(kind_id(kind)) {
        Some(entry) => match entry.extra {
            ObjectInformationExtra::Treasure(treasure) => if 0 < treasure.len() && treasure.len()
                < 2147483647 {
                Some(treasure)
            } else {
                None
            },
            ObjectInformationExtra::Nothing => None,
        },
        None => None,
    }
}

fn pick_treasure(prng: &mut Prng, kind: usize, geodes_cracked: i32, list: &[u16]) -> (id: u16)
    requires
        old(prng)@.wf(),
        0 < list@.len() < 2147483647,
    ensures
        id == spec_treasure(old(prng)@, kind as int, geodes_cracked as int, list@),
        final(prng)@.wf(),
{
    let picked: u16 = list[prng.gen_range(0, list.len() as i32) as usize];
    if kind == 3 && prng.gen_float().below(THRESHOLD_0_008) && geodes_cracked > 15 {
        74
    } else {
        picked
    }
}

fn ore_quantity(prng: &mut Prng) -> (quantity: u8)
    requires
        old(prng)@.wf(),
    ensures
        quantity == spec_ore_quantity(old(prng)@),
        final(prng)@ == old(prng)@.spec_advance().spec_advance().spec_advance(),
        final(prng)@.wf(),
        1 <= quantity <= 20,
{
    let mut quantity: u8 = (prng.gen_range(0, 3) * 2 + 1) as u8;
    if prng.gen_float().below(THRESHOLD_0_1) {
        quantity = 10;
    }
    if prng.gen_float().below(THRESHOLD_0_01) {
        quantity = 20;
    }
    quantity
}

fn geode_ore(pick: i32, mine_level: u8) -> (id: u16)
    ensures
        id == spec_geode_ore(pick as int, mine_level),
{
    if pick == 0 {
        378
    } else if pick == 1 {
        if mine_level > 25 {
            380
        } else {
            378
        }
    } else {
        382
    }
}

fn frozen_geode_ore(pick: i32, mine_level: u8) -> (id: u16)
    ensures
        id == spec_frozen_geode_ore(pick as int, mine_level),
{
    if pick == 0 {
        378
    } else if pick == 1 {
        380
    } else if pick == 2 {
        382
    } else if mine_level > 75 {
        384
    } else {
        380
    }
}

fn magma_geode_ore(pick: i32) -> (id: u16)
    ensures
        id == spec_magma_geode_ore(pick as int),
{
    if pick == 0 {
        378
    } else if pick == 1 {
        380
    } else if pick == 2 {
        382
    } else if pick == 3 {
        384
    } else {
        386
    }
}

fn mineral(prng: &mut Prng, kind: usize, quantity: u8) -> (content: (u16, u8))
    requires
        old(prng)@.wf(),
    ensures
        content == spec_mineral(old(prng)@, kind as int, quantity),
{
    let pick: i32 = prng.gen_range(0, 4);
    if pick == 0 || pick == 1 {
        (390, quantity)
    } else if pick == 2 {
        (330, 1)
    } else if kind == 0 {
        (86, 1)
    } else if kind == 1 {
        (84, 1)
    } else if kind == 2 {
        (82, 1)
    } else {
        ((82 + prng.gen_range(0, 3) * 2) as u16, 1)
    }
}

fn kind_ore(prng: &mut Prng, kind: usize, mine_level: u8, quantity: u8) -> (content: (u16, u8))
    requires
        old(prng)@.wf(),
    ensures
        content == spec_kind_ore(old(prng)@, kind as int, mine_level, quantity),
{
    if kind == 0 {
        (geode_ore(prng.gen_range(0, 3), mine_level), quantity)
    } else if kind == 1 {
        (frozen_geode_ore(prng.gen_range(0, 4), mine_level), quantity)
    } else {
        let pick: i32 = prng.gen_range(0, 5);
        (
            magma_geode_ore(pick),
            if pick == 4 {
                quantity / 2 + 1
            } else {
                quantity
            },
        )
    }
}

fn ore(prng: &mut Prng, kind: usize, mine_level: u8) -> (content: (u16, u8))
    requires
        old(prng)@.wf(),
    ensures
        content == spec_ore(old(prng)@, kind as int, mine_level),
{
    let quantity: u8 = ore_quantity(prng);
    if prng.gen_float().below(THRESHOLD_0_5) {
        mineral(prng, kind, quantity)
    } else {
        kind_ore(prng, kind, mine_level, quantity)
    }
}

fn coconut(pick: i32) -> (content: (u16, u8))
    ensures
        content == spec_coconut(pick as int),
{
    if pick == 0 {
        (69, 1)
    } else if pick == 1 {
        (835, 1)
    } else if pick == 2 {
        (833, 5)
    } else if pick == 3 {
        (831, 5)
    } else if pick == 4 {
        (820, 1)
    } else if pick == 5 {
        (292, 1)
    } else {
        (386, 5)
    }
}

fn object_geode(catalog: &Catalog, id: u16, quantity: u8) -> (result: Result<Geode, StockError>)
    ensures
        result == spec_object_geode(catalog@, id, quantity),
{
    match catalog.object_information(id) {
        Some(entry) => Ok(Geode { id, item: Item::ObjectInformation(entry), quantity }),
        None => Err(StockError::ObjectInformation),
    }
}

/// What a golden coconut holds where it holds no quest crop.
fn coconut_content(prng: &mut Prng, configuration: &Configuration, catalog: &Catalog) -> (result:
    Result<Geode, StockError>)
    requires
        old(prng)@.wf(),
    ensures
        result == spec_coconut_content(old(prng)@, *configuration, catalog@),
{
    if prng.gen_float().below(THRESHOLD_0_05) && !configuration.golden_helmet_or_default() {
        match catalog.hats(75) {
            Some(entry) => Ok(Geode { id: 75, item: Item::Hats(entry), quantity: 1 }),
            None => Err(StockError::Hats),
        }
    } else {
        let content: (u16, u8) = coconut(prng.gen_range(0, 7));
        object_geode(catalog, content.0, content.1)
    }
}

/// What one of the five kinds before the golden coconut holds where it holds no quest crop.
fn plain_content(
    prng: &mut Prng,
    configuration: &Configuration,
    geodes_cracked: i32,
    kind: usize,
    catalog: &Catalog,
) -> (result: Result<Geode, StockError>)
    requires
        old(prng)@.wf(),
        kind < 5,
    ensures
        result == spec_plain_content(
            old(prng)@,
            *configuration,
            geodes_cracked as int,
            kind as int,
            catalog@,
        ),
{
    if kind == 4 || prng.gen_float().at_least(THRESHOLD_0_5) {
        match treasure_list(catalog, kind) {
            Some(list) => {
                let id: u16 = pick_treasure(prng, kind, geodes_cracked, list);
                object_geode(catalog, id, 1)
            },
            None => Err(StockError::ObjectInformation),
        }
    } else {
        let content: (u16, u8) = ore(prng, kind, configuration.mine_level_or_default());
        object_geode(catalog, content.0, content.1)
    }
}

/// What the geode of one kind holds, from a generator that has been warmed up twice.
fn geode_content(
    prng: &mut Prng,
    configuration: &Configuration,
    geodes_cracked: i32,
    kind: usize,
    catalog: &Catalog,
) -> (result: Result<Geode, StockError>)
    requires
        old(prng)@.wf(),
        kind < 6,
    ensures
        result == spec_geode_content(
            old(prng)@,
            *configuration,
            geodes_cracked as int,
            kind as int,
            catalog@,
        ),
{
    if prng.gen_float().at_most(THRESHOLD_0_1) && configuration.qis_crop_or_default() {
        let quantity: u8 = if prng.gen_float().below(THRESHOLD_0_25) {
            5
        } else {
            1
        };
        object_geode(catalog, 890, quantity)
    } else if kind == 5 {
        coconut_content(prng, configuration, catalog)
    } else {
        plain_content(prng, configuration, geodes_cracked, kind, catalog)
    }
}

/// What the geode of one kind holds after `geodes_cracked` geodes.
pub fn geode(configuration: &Configuration, geodes_cracked: i32, kind: usize, catalog: &Catalog)
    -> (result: Result<Geode, StockError>)
    requires
        kind < 6,
    ensures
        result == spec_geode(*configuration, geodes_cracked as int, kind as int, catalog@),
{
    let seed: i32 = wrapping_sum(half(configuration.seed), geodes_cracked);
    let mut prng: Prng = Prng::from_seed(configuration.platform, seed);
    warm_up(&mut prng);
    warm_up(&mut prng);
    geode_content(&mut prng, configuration, geodes_cracked, kind, catalog)
}

/// What the geodes of all six kinds hold after `geodes_cracked` geodes.
pub fn geodes(configuration: &Configuration, geodes_cracked: i32, catalog: &Catalog) -> (result:
    Result<Vec<Geode>, StockError>)
    ensures
        match result {
            Ok(geodes) => spec_geodes(*configuration, geodes_cracked as int, catalog@, 6) == Ok::<
                Seq<Geode>,
                StockError,
            >(geodes@),
            Err(error) => spec_geodes(*configuration, geodes_cracked as int, catalog@, 6) == Err::<
                Seq<Geode>,
                StockError,
            >(error),
        },
{
    let mut geodes: Vec<Geode> = Vec::new();
    let mut kind: usize = 0;
    while kind < KINDS
        invariant
            0 <= kind <= 6,
            spec_geodes(*configuration, geodes_cracked as int, catalog@, kind as nat) == Ok::<
                Seq<Geode>,
                StockError,
            >(geodes@),
        decreases 6 - kind,
    {
        match geode(configuration, geodes_cracked, kind, catalog) {
            Ok(content) => {
                geodes.push(content);
            },
            Err(error) => {
                proof {
                    lemma_geodes_failure(
                        *configuration,
                        geodes_cracked as int,
                        catalog@,
                        (kind + 1) as nat,
                        6,
                    );
                }
                return Err(error);
            },
        }
        kind = kind + 1;
    }
    Ok(geodes)
}

/// A failure among the first kinds is the failure of every longer row of kinds.
pub proof fn lemma_geodes_failure(
    configuration: Configuration,
    geodes_cracked: int,
    catalog: CatalogModel,
    failed: nat,
    kinds: nat,
)
    requires
        failed <= kinds,
        spec_geodes(configuration, geodes_cracked, catalog, failed) is Err,
    ensures
        spec_geodes(configuration, geodes_cracked, catalog, kinds) == spec_geodes(
            configuration,
            geodes_cracked,
            catalog,
            failed,
        ),
    decreases kinds,
{
    if failed < kinds {
        lemma_geodes_failure(configuration, geodes_cracked, catalog, failed, (kinds - 1) as nat);
    }
}

fn empty_cell(align: TableAlign) -> (cell: TableCell)
    ensures
        cell@ == spec_empty_cell(align),
{
    TableCell { value: TableValue::Empty, align, rows: 1, columns: 1 }
}

/// The row of a count, or nothing where the filter keeps none of the geodes.
pub fn geodes_rows(geodes: &Vec<Geode>, geodes_cracked: i32, filter: &String) -> (result: Option<
    Vec<Vec<TableCell>>,
>)
    ensures
        match result {
            Some(rows) => spec_geodes_rows(geodes@, geodes_cracked as int, filter@) == Some(
                rows.deep_view(),
            ),
            None => spec_geodes_rows(geodes@, geodes_cracked as int, filter@) is None,
        },
{
    let mut row: Vec<TableCell> = Vec::new();
    row.push(text_cell(signed_decimal(geodes_cracked), TableAlign::MiddleCenter, 1));
    let mut any: bool = false;
    let mut kind: usize = 0;
    while kind < geodes.len()
        invariant
            0 <= kind <= geodes.len(),
            any == spec_any_geode_matches(geodes@, filter@, kind as nat),
            row.deep_view() == spec_geodes_cells(
                geodes@,
                geodes_cracked as int,
                filter@,
                kind as nat,
            ),
        decreases geodes.len() - kind,
    {
        let geode: &Geode = &geodes[kind];
        let name: String = geode.item.name(geode.id);
        if name_matches(name.as_str(), filter.as_str()) {
            any = true;
            row.push(
                TableCell {
                    value: geode.item.sprite(geode.id),
                    align: TableAlign::MiddleCenter,
                    rows: 1,
                    columns: 1,
                },
            );
            row.push(text_cell(name, TableAlign::MiddleLeft, 1));
            let mut quantity: String = String::from_str("x");
            append_decimal(&mut quantity, geode.quantity as u32);
            row.push(text_cell(quantity, TableAlign::MiddleLeft, 1));
        } else {
            row.push(empty_cell(TableAlign::MiddleCenter));
            row.push(empty_cell(TableAlign::MiddleLeft));
            row.push(empty_cell(TableAlign::MiddleLeft));
        }
        kind = kind + 1;
    }
    if any {
        let mut rows: Vec<Vec<TableCell>> = Vec::new();
        rows.push(row);
        Some(rows)
    } else {
        None
    }
}

/// The rows of what the next geodes hold from a count of cracked geodes on: one row for
/// each of the next 28 counts where no filter is set, else for the first eight counts among
/// the next 1120 at which the filter keeps what one of the geodes holds.
pub fn get_geodes(
    configuration: &Configuration,
    geodes_cracked: i32,
    filter: &String,
    catalog: &Catalog,
) -> (result: Result<Vec<Vec<TableCell>>, StockError>)
    ensures
        spec_table_result(result) == spec_get_stock(
            Implementation::Geodes,
            *configuration,
            geodes_cracked as int,
            filter@,
            catalog@,
        ),
{
    get_stock(Implementation::Geodes, configuration, geodes_cracked, filter, catalog)
}

/// The notes above the table of geodes: what the table shows, and a warning for each of
/// the four hints that the configuration lacks.
pub fn get_messages(configuration: &Configuration) -> (messages: Vec<MessageProperties>)
    ensures
        messages.deep_view() == spec_messages(Implementation::Geodes, *configuration),
{
    notes(Implementation::Geodes, configuration)
}

/// The name of a kind as the head of the table shows it.
pub open spec fn spec_kind_name(kind: int) -> Seq<char> {
    if kind == 0 {
        "Geode"@
    } else if kind == 1 {
        "Frozen Geode"@
    } else if kind == 2 {
        "Magma Geode"@
    } else if kind == 3 {
        "Omni Geode"@
    } else if kind == 4 {
        "Artifact Trove"@
    } else {
        "Golden Coconut"@
    }
}

/// A cell of the table's head.
pub open spec fn spec_header_cell(text: Seq<char>, rows: u8, columns: u8) -> TableCellModel {
    TableCellModel { value: TableValueModel::Text(text), align: TableAlign::MiddleLeft, rows, columns }
}

/// The head of the table of geodes. Its first row names the count, over both rows, and
/// each kind over its three columns. Its second row names under each kind the item, over the
/// two columns of its picture and its name, and the quantity.
pub open spec fn spec_geodes_table_header() -> TableModel {
    seq![
        Seq::new(
            7,
            |column: int|
                if column == 0 {
                    spec_header_cell("Cracked"@, 2, 1)
                } else {
                    spec_header_cell(spec_kind_name(column - 1), 1, 3)
                },
        ),
        Seq::new(
            12,
            |column: int|
                if column % 2 == 0 {
                    spec_header_cell("Item"@, 1, 2)
                } else {
                    spec_header_cell("Quantity"@, 1, 1)
                },
        ),
    ]
}

fn header_cell(text: &str, rows: u8, columns: u8) -> (cell: TableCell)
    ensures
        cell@ == spec_header_cell(text@, rows, columns),
{
    TableCell {
        value: TableValue::Text(String::from_str(text)),
        align: TableAlign::MiddleLeft,
        rows,
        columns,
    }
}

/// The head of the table of geodes.
pub fn geodes_table_header() -> (header: Vec<Vec<TableCell>>)
    ensures
        header.deep_view() == spec_geodes_table_header(),
{
    let mut first_row: Vec<TableCell> = Vec::new();
    first_row.push(header_cell("Cracked", 2, 1));
    first_row.push(header_cell("Geode", 1, 3));
    first_row.push(header_cell("Frozen Geode", 1, 3));
    first_row.push(header_cell("Magma Geode", 1, 3));
    first_row.push(header_cell("Omni Geode", 1, 3));
    first_row.push(header_cell("Artifact Trove", 1, 3));
    first_row.push(header_cell("Golden Coconut", 1, 3));
    assert(first_row.deep_view() =~= spec_geodes_table_header()[0]);
    let mut second_row: Vec<TableCell> = Vec::new();
    let mut kind: usize = 0;
    while kind < KINDS
        invariant
            0 <= kind <= 6,
            second_row@.len() == 2 * kind,
            forall|column: int|
                0 <= column < 2 * kind ==> (#[trigger] second_row@[column])@
                    == spec_geodes_table_header()[1][column],
        decreases 6 - kind,
    {
        second_row.push(header_cell("Item", 1, 2));
        second_row.push(header_cell("Quantity", 1, 1));
        kind = kind + 1;
    }
    assert(second_row.deep_view() =~= spec_geodes_table_header()[1]);
    let mut header: Vec<Vec<TableCell>> = Vec::new();
    header.push(first_row);
    header.push(second_row);
    header
}

} // verus!
