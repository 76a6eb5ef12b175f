//! Sandy, who sells a random shirt every day and a random piece of furniture on Tuesdays.

use vstd::prelude::*;
use crate::calendar::{day_of_week, spec_day_of_week};
use crate::catalog::{get_clothing_information, spec_lookup, Catalog, CatalogModel};
use crate::components::message::{get_messages, spec_messages, MessageProperties};
use crate::components::stock_table::{get_stock, spec_get_stock, spec_table_result};
use crate::components::table::TableCell;
use crate::configuration::Configuration;
use crate::error::StockError;
use crate::implementations::util::{
    half, spec_half, spec_wrapping_sum, wrapping_sum, Implementation, Item, StockItem,
};
use crate::prng::{Prng, PrngModel};

verus! {

/// The number of days shown where no filter is set.
pub const NON_FILTER_ITERATIONS: u16 = 28;

/// Sandy's table.
pub struct SandyImpl {}

/// The seed of a day's generator: half the world's seed and the date.
pub open spec fn spec_day_seed(configuration: Configuration, date: int) -> i32 {
    spec_wrapping_sum(spec_half(configuration.seed), date)
}

/// The day's shirt: its id is 1000 and a draw from 0 to 126, and it costs 700.
pub open spec fn spec_shirt(prng: PrngModel, catalog: CatalogModel) -> Result<
    StockItem,
    StockError,
> {
    let id = (1000 + prng.spec_range(0, 127)) as u16;
    match catalog.spec_clothing_information(id) {
        Some(clothing_information) => Ok(
            StockItem {
                id,
                item: Item::ClothingInformation(clothing_information),
                price: 700,
                quantity: 1,
            },
        ),
        None => Err(StockError::ClothingInformation),
    }
}

/// A Tuesday's piece of furniture: its id is 2734 and twice a draw from 0 to 3, and it
/// costs 500.
pub open spec fn spec_furniture(prng: PrngModel, catalog: CatalogModel) -> Result<
    StockItem,
    StockError,
> {
    let id = (2734 + prng.spec_range(0, 4) * 2) as u16;
    match spec_lookup(catalog.furniture, id) {
        Some(furniture) => Ok(
            StockItem { id, item: Item::Furniture(furniture), price: 500, quantity: 1 },
        ),
        None => Err(StockError::Furniture),
    }
}

/// Sandy's stock on a day: the shirt, and on a Tuesday the piece of furniture by the next
/// draw.
pub open spec fn spec_day_stock(configuration: Configuration, date: int, catalog: CatalogModel)
    -> Result<Option<Seq<StockItem>>, StockError> {
    let prng = PrngModel::spec_from_seed(configuration.platform, spec_day_seed(configuration, date));
    match spec_shirt(prng, catalog) {
        Ok(shirt) => if spec_day_of_week(date) == 1 {
            match spec_furniture(prng.spec_advance(), catalog) {
                Ok(furniture) => Ok(Some(seq![shirt, furniture])),
                Err(error) => Err(error),
            }
        } else {
            Ok(Some(seq![shirt]))
        },
        Err(error) => Err(error),
    }
}

/// Sandy's stock on a day.
pub fn day_stock(configuration: &Configuration, date: i32, catalog: &Catalog) -> (result: Result<
    Option<Vec<StockItem>>,
    StockError,
>)
    ensures
        match result {
            Ok(Some(stock_items)) => spec_day_stock(*configuration, date as int, catalog@) == Ok::<
                Option<Seq<StockItem>>,
                StockError,
            >(Some(stock_items@)),
            Ok(None) => spec_day_stock(*configuration, date as int, catalog@) == Ok::<
                Option<Seq<StockItem>>,
                StockError,
            >(None),
            Err(error) => spec_day_stock(*configuration, date as int, catalog@) == Err::<
                Option<Seq<StockItem>>,
                StockError,
            >(error),
        },
{
    let mut prng: Prng = Prng::from_seed(
        configuration.platform,
        wrapping_sum(half(configuration.seed), date),
    );
    let mut stock_items: Vec<StockItem> = Vec::new();
    let shirt_id: u16 = 1000 + prng.gen_range(0, 127) as u16;
    match get_clothing_information(catalog, shirt_id) {
        Ok(clothing_information) => {
            stock_items.push(
                StockItem {
                    id: shirt_id,
                    item: Item::ClothingInformation(clothing_information),
                    price: 700,
                    quantity: 1,
                },
            );
        },
        Err(error) => {
            return Err(error);
        },
    }
    if day_of_week(date) == 1 {
        let furniture_id: u16 = 2734 + prng.gen_range(0, 4) as u16 * 2;
        match catalog.furniture(furniture_id) {
            Some(furniture) => {
                stock_items.push(
                    StockItem {
                        id: furniture_id,
                        item: Item::Furniture(furniture),
                        price: 500,
                        quantity: 1,
                    },
                );
                assert(stock_items@ =~= seq![stock_items@[0], stock_items@[1]]);
            },
            None => {
                return Err(StockError::Furniture);
            },
        }
    } else {
    }
    Ok(Some(stock_items))
}

impl SandyImpl {
    /// The rows of Sandy's stock from `date` on: of the next 28 days where no filter is set,
    /// else of the first eight days among the next 1120 on which the filter keeps an item.
    pub fn get_stock(configuration: &Configuration, date: i32, filter: &String, catalog: &Catalog)
        -> (result: Result<Vec<Vec<TableCell>>, StockError>)
        ensures
            spec_table_result(result) == spec_get_stock(
                Implementation::Sandy,
                *configuration,
                date as int,
                filter@,
                catalog@,
            ),
    {
        get_stock(Implementation::Sandy, configuration, date, filter, catalog)
    }

    /// The notes above Sandy's table: what the table shows, and a warning where the
    /// configuration names no date to start from.
    pub fn get_messages(configuration: &Configuration) -> (messages: Vec<MessageProperties>)
        ensures
            messages.deep_view() == spec_messages(Implementation::Sandy, *configuration),
    {
        get_messages(Implementation::Sandy, configuration)
    }
}

} // verus!
