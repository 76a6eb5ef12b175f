//! The table of a shop's stock over a window of days: which days are searched, how many
//! of them are shown, and what stands in the table's head.

use vstd::prelude::*;
use crate::catalog::{Catalog, CatalogModel};
use crate::components::table::{spec_text_cell, text_cell, TableAlign, TableCell, TableCellModel};
use crate::configuration::Configuration;
use crate::error::StockError;
use crate::implementations::geodes::{
    self, geodes, geodes_rows, lemma_no_geode_matches, spec_geode_matches, spec_geodes,
    spec_geodes_rows,
};
use crate::implementations::joja;
use crate::implementations::krobus;
use crate::implementations::sandy;
use crate::implementations::traveling_cart;
use crate::implementations::util::{
    lemma_no_match_no_rows, spec_item_matches, spec_stock_items_rows, spec_wrapping_sum,
    stock_items_rows, wrapping_sum, Implementation, StockItem,
};

verus! {

/// The number of days searched where a filter is set.
pub const FILTER_ITERATIONS: u16 = 1120;

/// The number of days shown where a filter is set.
pub const FILTER_DAYS: u8 = 8;

/// A table as rows of cells.
pub type TableModel = Seq<Seq<TableCellModel>>;

/// The number of days that a query looks at: a shop's own number where no filter is set,
/// 28 for all but Krobus with 112, and 1120 where one is.
pub open spec fn spec_iterations(implementation: Implementation, filter: Seq<char>) -> nat {
    if filter.len() > 0 {
        1120
    } else if implementation == Implementation::Krobus {
        112
    } else {
        28
    }
}

/// The day, or the count of cracked geodes, that stands `offset` places after `start` in a
/// window: days and counts are 32-bit numbers, so that the place after the largest is the
/// smallest.
pub open spec fn spec_window_day(start: int, offset: nat) -> int {
    spec_wrapping_sum(start, offset as int) as int
}

/// The rows of a day's stock under a filter: nothing on a day on which the shop is closed
/// or on which the filter keeps none of its items.
pub open spec fn spec_rows_of(
    stock: Result<Option<Seq<StockItem>>, StockError>,
    date: int,
    filter: Seq<char>,
) -> Result<Option<TableModel>, StockError> {
    match stock {
        Ok(Some(stock_items)) => Ok(spec_stock_items_rows(stock_items, date, filter)),
        Ok(None) => Ok(None),
        Err(error) => Err(error),
    }
}

/// The stock of one of the four shops on a day, nothing on a day on which it is closed.
pub open spec fn spec_shop_stock(
    implementation: Implementation,
    configuration: Configuration,
    date: int,
    catalog: CatalogModel,
) -> Result<Option<Seq<StockItem>>, StockError> {
    match implementation {
        Implementation::TravelingCart => traveling_cart::spec_day_stock(
            configuration,
            date,
            catalog,
        ),
        Implementation::Krobus => krobus::spec_day_stock(configuration, date, catalog),
        Implementation::Sandy => sandy::spec_day_stock(configuration, date, catalog),
        _ => joja::spec_day_stock(configuration, date),
    }
}

/// The rows that a shop shows for one day, or for one count of cracked geodes. A proof
/// that goes into one day reveals this; the window's own proof does not need to.
#[verifier::opaque]
pub open spec fn spec_day_rows(
    implementation: Implementation,
    configuration: Configuration,
    index: int,
    filter: Seq<char>,
    catalog: CatalogModel,
) -> Result<Option<TableModel>, StockError> {
    if implementation == Implementation::Geodes {
        match spec_geodes(configuration, index, catalog, 6) {
            Ok(contents) => Ok(spec_geodes_rows(contents, index, filter)),
            Err(error) => Err(error),
        }
    } else {
        spec_rows_of(spec_shop_stock(implementation, configuration, index, catalog), index, filter)
    }
}

/// The rows of the `remaining` days from the place `offset` of the window on, where `found`
/// days have been shown already. A day that fails makes the query fail. With a filter the
/// eighth day shown is the last.
pub open spec fn spec_scan(
    implementation: Implementation,
    configuration: Configuration,
    start: int,
    offset: nat,
    filter: Seq<char>,
    catalog: CatalogModel,
    remaining: nat,
    found: nat,
) -> Result<TableModel, StockError>
    decreases remaining,
{
    if remaining == 0 {
        Ok(Seq::empty())
    } else {
        match spec_day_rows(
            implementation,
            configuration,
            spec_window_day(start, offset),
            filter,
            catalog,
        ) {
            Ok(Some(rows)) => if filter.len() > 0 && found + 1 >= 8 {
                Ok(rows)
            } else {
                match spec_scan(
                    implementation,
                    configuration,
                    start,
                    offset + 1,
                    filter,
                    catalog,
                    (remaining - 1) as nat,
                    found + 1,
                ) {
                    Ok(later) => Ok(rows + later),
                    Err(error) => Err(error),
                }
            },
            Ok(None) => spec_scan(
                implementation,
                configuration,
                start,
                offset + 1,
                filter,
                catalog,
                (remaining - 1) as nat,
                found,
            ),
            Err(error) => Err(error),
        }
    }
}

/// The table of a shop's stock from `start` on under a filter.
pub open spec fn spec_get_stock(
    implementation: Implementation,
    configuration: Configuration,
    start: int,
    filter: Seq<char>,
    catalog: CatalogModel,
) -> Result<TableModel, StockError> {
    spec_scan(
        implementation,
        configuration,
        start,
        0,
        filter,
        catalog,
        spec_iterations(implementation, filter),
        0,
    )
}

/// What a query gave, with its table as rows of cells.
pub open spec fn spec_table_result(result: Result<Vec<Vec<TableCell>>, StockError>) -> Result<
    TableModel,
    StockError,
> {
    match result {
        Ok(table) => Ok(table.deep_view()),
        Err(error) => Err(error),
    }
}

/// Rows in front of what a search gives.
pub open spec fn spec_prepend(rows: TableModel, later: Result<TableModel, StockError>) -> Result<
    TableModel,
    StockError,
> {
    match later {
        Ok(table) => Ok(rows + table),
        Err(error) => Err(error),
    }
}

/// The rows that a shop shows for one day, or for one count of cracked geodes.
pub fn day_rows(
    implementation: Implementation,
    configuration: &Configuration,
    index: i32,
    filter: &String,
    catalog: &Catalog,
) -> (result: Result<Option<Vec<Vec<TableCell>>>, StockError>)
    ensures
        match result {
            Ok(Some(rows)) => spec_day_rows(
                implementation,
                *configuration,
                index as int,
                filter@,
                catalog@,
            ) == Ok::<Option<TableModel>, StockError>(Some(rows.deep_view())),
            Ok(None) => spec_day_rows(
                implementation,
                *configuration,
                index as int,
                filter@,
                catalog@,
            ) == Ok::<Option<TableModel>, StockError>(None),
            Err(error) => spec_day_rows(
                implementation,
                *configuration,
                index as int,
                filter@,
                catalog@,
            ) == Err::<Option<TableModel>, StockError>(error),
        },
{
    proof {
        reveal(spec_day_rows);
    }
    let stock: Result<Option<Vec<StockItem>>, StockError> = match implementation {
        Implementation::TravelingCart => traveling_cart::day_stock(configuration, index, catalog),
        Implementation::Krobus => krobus::day_stock(configuration, index, catalog),
        Implementation::Sandy => sandy::day_stock(configuration, index, catalog),
        Implementation::Joja => joja::day_stock(configuration, index),
        Implementation::Geodes => {
            return match geodes(configuration, index, catalog) {
                Ok(contents) => Ok(geodes_rows(&contents, index, filter)),
                Err(error) => Err(error),
            };
        },
    };
    match stock {
        Ok(Some(stock_items)) => Ok(stock_items_rows(&stock_items, index, filter)),
        Ok(None) => Ok(None),
        Err(error) => Err(error),
    }
}

/// The number of days that a query looks at.
pub fn iterations(implementation: Implementation, filter: &String) -> (days: u16)
    ensures
        days == spec_iterations(implementation, filter@),
{
    if !filter.as_str().is_empty() {
        FILTER_ITERATIONS
    } else {
        match implementation {
            Implementation::TravelingCart => traveling_cart::NON_FILTER_ITERATIONS,
            Implementation::Krobus => krobus::NON_FILTER_ITERATIONS,
            Implementation::Sandy => sandy::NON_FILTER_ITERATIONS,
            Implementation::Joja => joja::NON_FILTER_ITERATIONS,
            Implementation::Geodes => geodes::NON_FILTER_ITERATIONS,
        }
    }
}

/// The table of a shop's stock from `start` on: the rows of each day of the window on
/// which the shop sells something that the filter keeps, in the days' order. Without a
/// filter the window is the shop's own, with one it is 1120 days long and ends with the
/// eighth day shown. The query fails where one of its days fails. A window that passes
/// the largest 32-bit day goes on at the smallest.
pub fn get_stock(
    implementation: Implementation,
    configuration: &Configuration,
    start: i32,
    filter: &String,
    catalog: &Catalog,
) -> (result: Result<Vec<Vec<TableCell>>, StockError>)
    ensures
        spec_table_result(result) == spec_get_stock(
            implementation,
            *configuration,
            start as int,
            filter@,
            catalog@,
        ),
{
    let days: u16 = iterations(implementation, filter);
    let filtering: bool = !filter.as_str().is_empty();
    let mut table: Vec<Vec<TableCell>> = Vec::new();
    let mut found: u8 = 0;
    let mut day: u16 = 0;
    while day < days
        invariant
            0 <= day <= days,
            days == spec_iterations(implementation, filter@),
            filtering == (filter@.len() > 0),
            found <= day,
            filtering ==> found < 8,
            spec_get_stock(implementation, *configuration, start as int, filter@, catalog@)
                == spec_prepend(
                table.deep_view(),
                spec_scan(
                    implementation,
                    *configuration,
                    start as int,
                    day as nat,
                    filter@,
                    catalog@,
                    (days - day) as nat,
                    found as nat,
                ),
            ),
        decreases days - day,
    {
        let index: i32 = wrapping_sum(start, day as i32);
        let ghost before = table.deep_view();
        let ghost later_found = spec_scan(
            implementation,
            *configuration,
            start as int,
            (day + 1) as nat,
            filter@,
            catalog@,
            (days - day - 1) as nat,
            (found + 1) as nat,
        );
        match day_rows(implementation, configuration, index, filter, catalog) {
            Ok(Some(rows)) => {
                let mut rows = rows;
                let ghost shown = rows.deep_view();
                table.append(&mut rows);
                assert(table.deep_view() =~= before + shown);
                found = found + 1;
                if filtering && found >= FILTER_DAYS {
                    return Ok(table);
                }
                proof {
                    match later_found {
                        Ok(rest) => {
                            assert(before + (shown + rest) =~= (before + shown) + rest);
                        },
                        Err(_) => {},
                    }
                }
            },
            Ok(None) => {},
            Err(error) => {
                return Err(error);
            },
        }
        day = day + 1;
    }
    Ok(table)
}

/// The head of a shop's table.
pub open spec fn spec_stock_items_table_header() -> TableModel {
    seq![
        seq![
            spec_text_cell("Date"@, TableAlign::MiddleLeft, 1),
            spec_text_cell("Item"@, TableAlign::MiddleLeft, 2),
            spec_text_cell("Price"@, TableAlign::MiddleLeft, 1),
            spec_text_cell("Quantity"@, TableAlign::MiddleLeft, 1),
        ],
    ]
}

/// The head of a shop's table: the date, the item over the two columns of its picture and
/// its name, the price and the quantity.
pub fn stock_items_table_header() -> (header: Vec<Vec<TableCell>>)
    ensures
        header.deep_view() == spec_stock_items_table_header(),
{
    let mut row: Vec<TableCell> = Vec::new();
    row.push(text_cell(String::from_str("Date"), TableAlign::MiddleLeft, 1));
    row.push(text_cell(String::from_str("Item"), TableAlign::MiddleLeft, 2));
    row.push(text_cell(String::from_str("Price"), TableAlign::MiddleLeft, 1));
    row.push(text_cell(String::from_str("Quantity"), TableAlign::MiddleLeft, 1));
    let mut header: Vec<Vec<TableCell>> = Vec::new();
    header.push(row);
    assert(header.deep_view() =~~= spec_stock_items_table_header());
    header
}

/// Two queries with the same configuration, start and filter on the same catalogs give the
/// same table, row for row, or the same failure.
pub proof fn lemma_get_stock_deterministic(
    first: Result<Vec<Vec<TableCell>>, StockError>,
    second: Result<Vec<Vec<TableCell>>, StockError>,
    implementation: Implementation,
    configuration: Configuration,
    start: int,
    filter: Seq<char>,
    catalog: CatalogModel,
)
    requires
        spec_table_result(first) == spec_get_stock(
            implementation,
            configuration,
            start,
            filter,
            catalog,
        ),
        spec_table_result(second) == spec_get_stock(
            implementation,
            configuration,
            start,
            filter,
            catalog,
        ),
    ensures
        spec_table_result(first) == spec_table_result(second),
{
}

/// Whether a filter keeps nothing of what a shop sells on a day, or of what the geodes hold
/// at a count, and the day does not fail.
pub open spec fn spec_nothing_kept(
    implementation: Implementation,
    configuration: Configuration,
    index: int,
    filter: Seq<char>,
    catalog: CatalogModel,
) -> bool {
    if implementation == Implementation::Geodes {
        spec_geodes(configuration, index, catalog, 6) matches Ok(contents) && forall|kind: int|
            0 <= kind < contents.len() ==> !spec_geode_matches(#[trigger] contents[kind], filter)
    } else {
        match spec_shop_stock(implementation, configuration, index, catalog) {
            Ok(Some(stock_items)) => forall|i: int|
                0 <= i < stock_items.len() ==> !spec_item_matches(
                    #[trigger] stock_items[i],
                    filter,
                ),
            Ok(None) => true,
            Err(_) => false,
        }
    }
}

/// A search through days of which none fails and of which the filter keeps nothing gives no
/// rows.
pub proof fn lemma_scan_without_match(
    implementation: Implementation,
    configuration: Configuration,
    start: int,
    offset: nat,
    filter: Seq<char>,
    catalog: CatalogModel,
    remaining: nat,
    found: nat,
)
    requires
        forall|place: nat|
            offset <= place < offset + remaining ==> spec_nothing_kept(
                implementation,
                configuration,
                #[trigger] spec_window_day(start, place),
                filter,
                catalog,
            ),
    ensures
        spec_scan(implementation, configuration, start, offset, filter, catalog, remaining, found)
            == Ok::<TableModel, StockError>(Seq::empty()),
    decreases remaining,
{
    if remaining > 0 {
        reveal(spec_day_rows);
        let index = spec_window_day(start, offset);
        assert(spec_nothing_kept(implementation, configuration, index, filter, catalog));
        if implementation == Implementation::Geodes {
            let contents = spec_geodes(configuration, index, catalog, 6)->Ok_0;
            lemma_no_geode_matches(contents, filter, contents.len());
        } else {
            match spec_shop_stock(implementation, configuration, index, catalog) {
                Ok(Some(stock_items)) => {
                    lemma_no_match_no_rows(stock_items, index, filter);
                },
                _ => {},
            }
        }
        lemma_scan_without_match(
            implementation,
            configuration,
            start,
            offset + 1,
            filter,
            catalog,
            (remaining - 1) as nat,
            found,
        );
    }
}

/// A query with a filter that keeps nothing on any day of its window gives the empty table
/// and no failure, where none of the days fails by itself.
pub proof fn lemma_get_stock_without_match(
    implementation: Implementation,
    configuration: Configuration,
    start: int,
    filter: Seq<char>,
    catalog: CatalogModel,
)
    requires
        forall|place: nat|
            place < spec_iterations(implementation, filter) ==> spec_nothing_kept(
                implementation,
                configuration,
                #[trigger] spec_window_day(start, place),
                filter,
                catalog,
            ),
    ensures
        spec_get_stock(implementation, configuration, start, filter, catalog) == Ok::<
            TableModel,
            StockError,
        >(Seq::empty()),
{
    lemma_scan_without_match(
        implementation,
        configuration,
        start,
        0,
        filter,
        catalog,
        spec_iterations(implementation, filter),
        0,
    );
}

} // verus!
