//! Krobus, who sells a random fish on Wednesdays and a random dish on Saturdays.

use vstd::prelude::*;
use crate::calendar::{day_of_week, spec_day_of_week};
use crate::catalog::{spec_lookup, Catalog, CatalogModel};
use crate::components::message::{get_messages, spec_messages, MessageProperties};
use crate::components::stock_table::{get_stock, spec_get_stock, spec_table_result};
use crate::components::table::TableCell;
use crate::configuration::Configuration;
use crate::error::StockError;
use crate::implementations::util::{
    half, spec_wrapping_sum, wrapping_sum, Implementation, Item, StockItem,
};
use crate::prng::{Prng, PrngModel};

verus! {

/// The number of days shown where no filter is set.
pub const NON_FILTER_ITERATIONS: u16 = 112;

/// Krobus' table.
pub struct KrobusImpl {}

/// Whether Krobus has a random item on sale: on a Wednesday and on a Saturday.
pub open spec fn spec_open(date: int) -> bool {
    spec_day_of_week(date) == 2 || spec_day_of_week(date) == 5
}

/// Half a date, rounded towards zero.
pub open spec fn spec_date_half(date: int) -> int {
    if date >= 0 {
        date / 2
    } else {
        -((-date) / 2)
    }
}

/// The seed of a day's generator: the world's seed and half the date.
pub open spec fn spec_day_seed(configuration: Configuration, date: int) -> i32 {
    spec_wrapping_sum(configuration.seed as int, spec_date_half(date))
}

/// The id and the price of the day's item. A Wednesday's fish is drawn from the ids 698 to
/// 708 and costs 200. A Saturday's dish is drawn from the ids 194 to 244, with 216 in
/// place of 217, and costs ten times a second draw from 5 to 50.
pub open spec fn spec_choice(prng: PrngModel, day_of_week: int) -> (u16, u32) {
    if day_of_week == 2 {
        (prng.spec_range(698, 709) as u16, 200)
    } else {
        let drawn = prng.spec_range(194, 245);
        (
            if drawn == 217 {
                216
            } else {
                drawn as u16
            },
            (prng.spec_advance().spec_range(5, 51) * 10) as u32,
        )
    }
}

/// Krobus' stock on a day, nothing on a day without a random item: five of the day's item.
pub open spec fn spec_day_stock(configuration: Configuration, date: int, catalog: CatalogModel)
    -> Result<Option<Seq<StockItem>>, StockError> {
    if !spec_open(date) {
        Ok(None)
    } else {
        let prng = PrngModel::spec_from_seed(
            configuration.platform,
            spec_day_seed(configuration, date),
        );
        let (id, price) = spec_choice(prng, spec_day_of_week(date));
        match spec_lookup(catalog.object_information, id) {
            Some(object_information) => Ok(
                Some(
                    seq![
                        StockItem {
                            id,
                            item: Item::ObjectInformation(object_information),
                            price,
                            quantity: 5,
                        },
                    ],
                ),
            ),
            None => Err(StockError::ObjectInformation),
        }
    }
}

/// Whether Krobus has a random item on sale on a day.
pub fn is_open(date: i32) -> (open: bool)
    ensures
        open == spec_open(date as int),
{
    let weekday: u8 = day_of_week(date);
    weekday == 2 || weekday == 5
}

/// Krobus' stock on a day, nothing on a day without a random item.
pub fn day_stock(configuration: &Configuration, date: i32, catalog: &Catalog) -> (result: Result<
    Option<Vec<StockItem>>,
    StockError,
>)
    ensures
        match result {
            Ok(Some(stock_items)) => spec_day_stock(*configuration, date as int, catalog@) == Ok::<
                Option<Seq<StockItem>>,
                StockError,
            >(Some(stock_items@)),
            Ok(None) => spec_day_stock(*configuration, date as int, catalog@) == Ok::<
                Option<Seq<StockItem>>,
                StockError,
            >(None),
            Err(error) => spec_day_stock(*configuration, date as int, catalog@) == Err::<
                Option<Seq<StockItem>>,
                StockError,
            >(error),
        },
{
    let weekday: u8 = day_of_week(date);
    if weekday != 2 && weekday != 5 {
        return Ok(None);
    }
    let mut prng: Prng = Prng::from_seed(
        configuration.platform,
        wrapping_sum(configuration.seed, half(date)),
    );
    let id: u16 = if weekday == 2 {
        prng.gen_range(698, 709) as u16
    } else {
        let drawn: u16 = prng.gen_range(194, 245) as u16;
        if drawn == 217 {
            216
        } else {
            drawn
        }
    };
    match catalog.object_information(id) {
        Some(object_information) => {
            let price: u32 = if weekday == 2 {
                200
            } else {
                prng.gen_range(5, 51) as u32 * 10
            };
            let mut stock_items: Vec<StockItem> = Vec::new();
            stock_items.push(
                StockItem {
                    id,
                    item: Item::ObjectInformation(object_information),
                    price,
                    quantity: 5,
                },
            );
            Ok(Some(stock_items))
        },
        None => Err(StockError::ObjectInformation),
    }
}

impl KrobusImpl {
    /// The rows of Krobus' stock from `date` on: of the next 112 days where no filter is set,
    /// else of the first eight days among the next 1120 on which the filter keeps an item.
    pub fn get_stock(configuration: &Configuration, date: i32, filter: &String, catalog: &Catalog)
        -> (result: Result<Vec<Vec<TableCell>>, StockError>)
        ensures
            spec_table_result(result) == spec_get_stock(
                Implementation::Krobus,
                *configuration,
                date as int,
                filter@,
                catalog@,
            ),
    {
        get_stock(Implementation::Krobus, configuration, date, filter, catalog)
    }

    /// The notes above Krobus' table: what the table shows, and a warning where the
    /// configuration names no date to start from.
    pub fn get_messages(configuration: &Configuration) -> (messages: Vec<MessageProperties>)
        ensures
            messages.deep_view() == spec_messages(Implementation::Krobus, *configuration),
    {
        get_messages(Implementation::Krobus, configuration)
    }
}

} // verus!
