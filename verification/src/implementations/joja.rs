//! Joja, which sells a random wallpaper and a random flooring every day.

use vstd::prelude::*;
use crate::catalog::Catalog;
use crate::components::message::{get_messages, spec_messages, MessageProperties};
use crate::components::stock_table::{get_stock, spec_get_stock, spec_table_result};
use crate::components::table::TableCell;
use crate::configuration::Configuration;
use crate::error::StockError;
use crate::implementations::util::{
    half, spec_half, spec_wrapping_sum, wrapping_sum, Implementation, Item, StockItem,
};
use crate::prng::{Prng, PrngModel};

verus! {

/// The number of days shown where no filter is set.
pub const NON_FILTER_ITERATIONS: u16 = 28;

/// Joja's table.
pub struct JojaImpl {}

/// The seed of a day's generator: half the world's seed, the date and one.
pub open spec fn spec_day_seed(configuration: Configuration, date: int) -> i32 {
    spec_wrapping_sum(spec_wrapping_sum(spec_half(configuration.seed), date) as int, 1)
}

/// The day's wallpaper: a draw from 0 to 111, with 22 in place of 21.
pub open spec fn spec_wallpaper(prng: PrngModel) -> StockItem {
    let drawn = prng.spec_range(0, 112);
    StockItem {
        id: if drawn == 21 {
            22
        } else {
            drawn as u16
        },
        item: Item::Wallpaper(false),
        price: 250,
        quantity: 1,
    }
}

/// The day's flooring: a draw from 0 to 39.
pub open spec fn spec_flooring(prng: PrngModel) -> StockItem {
    StockItem {
        id: prng.spec_range(0, 40) as u16,
        item: Item::Wallpaper(true),
        price: 250,
        quantity: 1,
    }
}

/// Joja's stock on a day: the wallpaper by the first draw and the flooring by the second.
pub open spec fn spec_day_stock(configuration: Configuration, date: int) -> Result<
    Option<Seq<StockItem>>,
    StockError,
> {
    let prng = PrngModel::spec_from_seed(configuration.platform, spec_day_seed(configuration, date));
    Ok(Some(seq![spec_wallpaper(prng), spec_flooring(prng.spec_advance())]))
}

/// Joja's stock on a day.
pub fn day_stock(configuration: &Configuration, date: i32) -> (result: Result<
    Option<Vec<StockItem>>,
    StockError,
>)
    ensures
        match result {
            Ok(Some(stock_items)) => spec_day_stock(*configuration, date as int) == Ok::<
                Option<Seq<StockItem>>,
                StockError,
            >(Some(stock_items@)),
            Ok(None) => spec_day_stock(*configuration, date as int) == Ok::<
                Option<Seq<StockItem>>,
                StockError,
            >(None),
            Err(error) => spec_day_stock(*configuration, date as int) == Err::<
                Option<Seq<StockItem>>,
                StockError,
            >(error),
        },
{
    let mut prng: Prng = Prng::from_seed(
        configuration.platform,
        wrapping_sum(wrapping_sum(half(configuration.seed), date), 1),
    );
    let mut stock_items: Vec<StockItem> = Vec::new();
    let drawn: u16 = prng.gen_range(0, 112) as u16;
    stock_items.push(
        StockItem {
            id: if drawn == 21 {
                22
            } else {
                drawn
            },
            item: Item::Wallpaper(false),
            price: 250,
            quantity: 1,
        },
    );
    stock_items.push(
        StockItem {
            id: prng.gen_range(0, 40) as u16,
            item: Item::Wallpaper(true),
            price: 250,
            quantity: 1,
        },
    );
    assert(stock_items@ =~= seq![stock_items@[0], stock_items@[1]]);
    Ok(Some(stock_items))
}

impl JojaImpl {
    /// The rows of Joja's stock from `date` on: of the next 28 days where no filter is set,
    /// else of the first eight days among the next 1120 on which the filter keeps an item.
    pub fn get_stock(configuration: &Configuration, date: i32, filter: &String, catalog: &Catalog)
        -> (result: Result<Vec<Vec<TableCell>>, StockError>)
        ensures
            spec_table_result(result) == spec_get_stock(
                Implementation::Joja,
                *configuration,
                date as int,
                filter@,
                catalog@,
            ),
    {
        get_stock(Implementation::Joja, configuration, date, filter, catalog)
    }

    /// The notes above Joja's table: what the table shows, and a warning where the
    /// configuration names no date to start from.
    pub fn get_messages(configuration: &Configuration) -> (messages: Vec<MessageProperties>)
        ensures
            messages.deep_view() == spec_messages(Implementation::Joja, *configuration),
    {
        get_messages(Implementation::Joja, configuration)
    }
}

} // verus!
