use stock_predictor::catalog::{
    BigCraftablesInformation, ClothingInformation, Furniture, Hats, ObjectInformation,
    ObjectInformationExtra,
};
use stock_predictor::components::table::{TableAlign, TableCell, TableValue};
use stock_predictor::implementations::util::{
    half, stock_items_rows, wrapping_sum, Implementation, Item, StockItem,
};

static PARSNIP: ObjectInformation = ObjectInformation {
    name: "Parsnip",
    price: 35,
    edibility: 10,
    type_and_category: "Basic -75",
    display_name: "Parsnip",
    description: "A spring tuber.",
    extra: ObjectInformationExtra::Nothing,
};

static COFFEE_MAKER: BigCraftablesInformation = BigCraftablesInformation {
    name: "Coffee Maker",
    price: 0,
    edibility: -300,
    type_and_category: "Crafting -9",
    description: "It brews.",
    can_be_set_outdoors: true,
    can_be_set_indoors: true,
    fragility: 0,
    display_name: "Coffee Maker",
};

static OAK_CHAIR: Furniture = Furniture {
    name: "Oak Chair",
    type_: "chair",
    source_rectangle_width: 1,
    source_rectangle_height: 2,
    bounding_box_width: 1,
    bounding_box_height: 1,
    rotations: 4,
    price: 350,
};

static WIDE_TABLE: Furniture = Furniture {
    name: "Wide Table",
    type_: "long table",
    source_rectangle_width: 255,
    source_rectangle_height: 3,
    bounding_box_width: 5,
    bounding_box_height: 2,
    rotations: 2,
    price: 350,
};

static GENERIC_SHIRT: ClothingInformation = ClothingInformation {
    name: "Shirt",
    display_name: "Shirt",
    description: "",
    male_index: 9999,
    female_index: 9999,
    price: 50,
    rgb: (255, 255, 255),
    dyeable: false,
    type_: "Shirt",
};

static SAILOR_SHIRT: ClothingInformation = ClothingInformation {
    name: "Sailor Shirt",
    display_name: "Sailor Shirt",
    description: "",
    male_index: 37,
    female_index: 38,
    price: 50,
    rgb: (255, 255, 255),
    dyeable: false,
    type_: "Shirt",
};

static FAR_SHIRT: ClothingInformation = ClothingInformation {
    name: "Far Shirt",
    display_name: "Far Shirt",
    description: "",
    male_index: 65535,
    female_index: 0,
    price: 50,
    rgb: (0, 0, 0),
    dyeable: true,
    type_: "Shirt",
};

static GOLDEN_HELMET: Hats = Hats {
    name: "Golden Helmet",
    description: "",
    hair_draw_type: 2,
    ignore_hairstyle_offset: false,
    is_prismatic: false,
};

fn sprite(file: &str, x: u16, y: u16, width: u16, height: u16, sheet: (u16, u16)) -> TableValue {
    TableValue::Sprite(file.to_string(), x, y, width, height, sheet.0, sheet.1)
}

fn words(value: &str) -> TableValue {
    TableValue::Text(value.to_string())
}

fn parsnips(id: u16, price: u32, quantity: u8) -> StockItem {
    StockItem { id, item: Item::ObjectInformation(&PARSNIP), price, quantity }
}

#[test]
fn names_of_items() {
    assert_eq!(Item::ObjectInformation(&PARSNIP).name(24), "Parsnip");
    assert_eq!(Item::BigCraftablesInformation(&COFFEE_MAKER).name(136), "Coffee Maker");
    assert_eq!(Item::Furniture(&OAK_CHAIR).name(0), "Oak Chair");
    assert_eq!(Item::Hats(&GOLDEN_HELMET).name(75), "Golden Helmet");
}

#[test]
fn names_of_clothing_carry_a_number() {
    assert_eq!(Item::ClothingInformation(&SAILOR_SHIRT).name(1037), "Sailor Shirt (37)");
    assert_eq!(Item::ClothingInformation(&GENERIC_SHIRT).name(1000), "Shirt (0)");
    assert_eq!(Item::ClothingInformation(&GENERIC_SHIRT).name(1126), "Shirt (126)");
    assert_eq!(Item::ClothingInformation(&GENERIC_SHIRT).name(999), "Shirt (999)");
    assert_eq!(Item::ClothingInformation(&GENERIC_SHIRT).name(65535), "Shirt (64535)");
}

#[test]
fn names_of_wallpaper_and_flooring_carry_their_id() {
    assert_eq!(Item::Wallpaper(false).name(22), "Wallpaper (22)");
    assert_eq!(Item::Wallpaper(true).name(0), "Flooring (0)");
}

#[test]
fn pictures_of_objects() {
    let sheet: (u16, u16) = (384, 624);
    let item: Item = Item::ObjectInformation(&PARSNIP);
    assert_eq!(item.sprite(0), sprite("springobjects.png", 0, 0, 16, 16, sheet));
    assert_eq!(item.sprite(24), sprite("springobjects.png", 0, 16, 16, 16, sheet));
    assert_eq!(item.sprite(347), sprite("springobjects.png", 176, 224, 16, 16, sheet));
    assert_eq!(item.sprite(65535), sprite("springobjects.png", 240, 43680, 16, 16, sheet));
}

#[test]
fn pictures_of_big_craftables() {
    let sheet: (u16, u16) = (128, 1152);
    let item: Item = Item::BigCraftablesInformation(&COFFEE_MAKER);
    assert_eq!(item.sprite(136), sprite("Craftables.png", 0, 544, 16, 32, sheet));
    assert_eq!(item.sprite(7), sprite("Craftables.png", 112, 0, 16, 32, sheet));
    assert_eq!(item.sprite(16383), sprite("Craftables.png", 112, 65504, 16, 32, sheet));
    assert_eq!(item.sprite(16384), sprite("Craftables.png", 0, 0, 16, 32, sheet));
    assert_eq!(item.sprite(65535), sprite("Craftables.png", 112, 65504, 16, 32, sheet));
}

#[test]
fn pictures_of_furniture() {
    let sheet: (u16, u16) = (512, 1488);
    assert_eq!(
        Item::Furniture(&OAK_CHAIR).sprite(0),
        sprite("furniture.png", 0, 0, 16, 32, sheet)
    );
    assert_eq!(
        Item::Furniture(&OAK_CHAIR).sprite(1369),
        sprite("furniture.png", 400, 672, 16, 32, sheet)
    );
    assert_eq!(
        Item::Furniture(&WIDE_TABLE).sprite(65535),
        sprite("furniture.png", 496, 32752, 4080, 48, sheet)
    );
}

#[test]
fn pictures_of_clothing() {
    let sheet: (u16, u16) = (256, 608);
    assert_eq!(
        Item::ClothingInformation(&SAILOR_SHIRT).sprite(1001),
        sprite("shirts.png", 40, 64, 8, 8, sheet)
    );
    assert_eq!(
        Item::ClothingInformation(&GENERIC_SHIRT).sprite(1000),
        sprite("shirts.png", 0, 0, 8, 8, sheet)
    );
    assert_eq!(
        Item::ClothingInformation(&GENERIC_SHIRT).sprite(1083),
        sprite("shirts.png", 24, 160, 8, 8, sheet)
    );
    assert_eq!(
        Item::ClothingInformation(&GENERIC_SHIRT).sprite(999),
        sprite("shirts.png", 120, 65504, 8, 8, sheet)
    );
    assert_eq!(
        Item::ClothingInformation(&FAR_SHIRT).sprite(1000),
        sprite("shirts.png", 120, 65504, 8, 8, sheet)
    );
}

#[test]
fn hats_wallpaper_and_flooring_have_no_picture() {
    assert_eq!(Item::Hats(&GOLDEN_HELMET).sprite(75), TableValue::Empty);
    assert_eq!(Item::Wallpaper(false).sprite(5), TableValue::Empty);
    assert_eq!(Item::Wallpaper(true).sprite(5), TableValue::Empty);
}

#[test]
fn rows_of_a_day() {
    let stock_items: Vec<StockItem> = vec![
        parsnips(24, 105, 1),
        StockItem { id: 1369, item: Item::Furniture(&OAK_CHAIR), price: 750, quantity: 1 },
        StockItem {
            id: 136,
            item: Item::BigCraftablesInformation(&COFFEE_MAKER),
            price: 4000,
            quantity: 5,
        },
    ];
    let rows = stock_items_rows(&stock_items, 5, &"".to_string()).unwrap();
    let left = |value: TableValue, rows: u8| TableCell {
        value,
        align: TableAlign::MiddleLeft,
        rows,
        columns: 1,
    };
    let centre = |value: TableValue| TableCell {
        value,
        align: TableAlign::MiddleCenter,
        rows: 1,
        columns: 1,
    };
    assert_eq!(
        rows,
        vec![
            vec![
                left(words("Friday Spring 5, Year 1"), 3),
                centre(sprite("springobjects.png", 0, 16, 16, 16, (384, 624))),
                left(words("Parsnip"), 1),
                left(words("105g"), 1),
                left(words("x1"), 1),
            ],
            vec![
                centre(sprite("furniture.png", 400, 672, 16, 32, (512, 1488))),
                left(words("Oak Chair"), 1),
                left(words("750g"), 1),
                left(words("x1"), 1),
            ],
            vec![
                centre(sprite("Craftables.png", 0, 544, 16, 32, (128, 1152))),
                left(words("Coffee Maker"), 1),
                left(words("4000g"), 1),
                left(words("x5"), 1),
            ],
        ]
    );
}

#[test]
fn rows_under_a_filter() {
    let stock_items: Vec<StockItem> = vec![
        parsnips(24, 105, 1),
        StockItem { id: 1369, item: Item::Furniture(&OAK_CHAIR), price: 750, quantity: 1 },
        StockItem { id: 1037, item: Item::ClothingInformation(&SAILOR_SHIRT), price: 700, quantity: 1 },
    ];
    let rows = stock_items_rows(&stock_items, 113, &"oak".to_string()).unwrap();
    assert_eq!(rows.len(), 1);
    assert_eq!(rows[0].len(), 5);
    assert_eq!(rows[0][0].value, words("Monday Spring 1, Year 2"));
    assert_eq!(rows[0][0].rows, 1);
    assert_eq!(rows[0][2].value, words("Oak Chair"));
    let rows = stock_items_rows(&stock_items, 113, &"(37)".to_string()).unwrap();
    assert_eq!(rows[0][2].value, words("Sailor Shirt (37)"));
    let rows = stock_items_rows(&stock_items, 113, &"a".to_string()).unwrap();
    assert_eq!(rows.len(), 3);
    assert_eq!(rows[0][0].rows, 3);
    assert_eq!(rows[1].len(), 4);
    assert_eq!(stock_items_rows(&stock_items, 113, &"Oak".to_string()), None);
    assert_eq!(stock_items_rows(&stock_items, 113, &"pear".to_string()), None);
    assert_eq!(stock_items_rows(&Vec::new(), 113, &"".to_string()), None);
}

#[test]
fn rows_before_the_calendar() {
    let rows = stock_items_rows(&vec![parsnips(24, 0, 0)], 0, &"".to_string()).unwrap();
    assert_eq!(rows[0][0].value, words("UNEXPECTED"));
    assert_eq!(rows[0][3].value, words("0g"));
    assert_eq!(rows[0][4].value, words("x0"));
}

#[test]
fn rows_of_a_long_day() {
    let many: Vec<StockItem> = (0u16..257).map(|id| parsnips(id, 1, 1)).collect();
    let rows = stock_items_rows(&many[0..255].to_vec(), 1, &"".to_string()).unwrap();
    assert_eq!(rows.len(), 255);
    assert_eq!(rows[0][0].rows, 255);
    let rows = stock_items_rows(&many[0..256].to_vec(), 1, &"".to_string()).unwrap();
    assert_eq!(rows.len(), 256);
    assert_eq!(rows[0][0].rows, 255);
    assert_eq!(rows[0].len(), 5);
    assert_eq!(rows[255].len(), 4);
    let rows = stock_items_rows(&many, 1, &"".to_string()).unwrap();
    assert_eq!(rows.len(), 257);
    assert_eq!(rows[0][0].rows, 255);
    let rows = stock_items_rows(&many, 1, &"parsnip".to_string()).unwrap();
    assert_eq!(rows.len(), 257);
    assert_eq!(stock_items_rows(&many, 1, &"pear".to_string()), None);
}

#[test]
fn rows_are_missing_only_where_nothing_matches() {
    for count in [0usize, 1, 2, 13, 255, 256, 257, 512, 600] {
        let items: Vec<StockItem> = (0..count).map(|id| parsnips(id as u16, 1, 1)).collect();
        for filter in ["", "p", "parsnip", "x", "Parsnip"] {
            let kept: usize = items
                .iter()
                .filter(|stock_item| stock_item.item.name(stock_item.id).to_lowercase().contains(filter))
                .count();
            let rows = stock_items_rows(&items, 3, &filter.to_string());
            assert_eq!(rows.is_none(), kept == 0);
            assert_eq!(rows.map_or(0, |rows| rows.len()), kept);
        }
    }
}

#[test]
fn seeds_are_halved_towards_zero() {
    assert_eq!(half(0), 0);
    assert_eq!(half(1), 0);
    assert_eq!(half(-1), 0);
    assert_eq!(half(7), 3);
    assert_eq!(half(-7), -3);
    assert_eq!(half(i32::MAX), 1073741823);
    assert_eq!(half(i32::MIN), -1073741824);
}

#[test]
fn seeds_are_added_round_the_clock() {
    assert_eq!(wrapping_sum(1, 2), 3);
    assert_eq!(wrapping_sum(i32::MAX, 1), i32::MIN);
    assert_eq!(wrapping_sum(i32::MIN, -1), i32::MAX);
    assert_eq!(wrapping_sum(i32::MAX, i32::MAX), -2);
    assert_eq!(wrapping_sum(-5, 5), 0);
}

#[test]
fn shops_have_names() {
    assert_eq!(Implementation::TravelingCart.to_string(), "Traveling Cart");
    assert_eq!(Implementation::Krobus.to_string(), "Krobus");
    assert_eq!(Implementation::Sandy.to_string(), "Sandy");
    assert_eq!(Implementation::Joja.to_string(), "Joja");
    assert_eq!(Implementation::Geodes.to_string(), "Geodes");
}
