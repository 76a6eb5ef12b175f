//! The game's item catalogs: what one entry of each holds, and the catalogs of one game
//! version put together. The catalogs are perfect hash tables that are built once and never
//! change; the algorithms only look entries up in them.

use vstd::prelude::*;
use crate::error::StockError;

verus! {

/// What an entry of the object catalog holds besides its plain fields.
#[derive(Clone, Copy, Debug)]
pub enum ObjectInformationExtra {
    Nothing,
    /// The ids of the items that a geode of this kind can hold.
    Treasure(&'static [u16]),
}

/// An entry of the object catalog.
#[derive(Clone, Copy, Debug)]
pub struct ObjectInformation {
    pub name: &'static str,
    pub price: u32,
    pub edibility: i16,
    pub type_and_category: &'static str,
    pub display_name: &'static str,
    pub description: &'static str,
    pub extra: ObjectInformationExtra,
}

/// An entry of the catalog of big craftables.
#[derive(Clone, Copy, Debug)]
pub struct BigCraftablesInformation {
    pub name: &'static str,
    pub price: u32,
    pub edibility: i16,
    pub type_and_category: &'static str,
    pub description: &'static str,
    pub can_be_set_outdoors: bool,
    pub can_be_set_indoors: bool,
    pub fragility: u8,
    pub display_name: &'static str,
}

/// An entry of the furniture catalog. The source rectangle is the size of the picture in
/// units of 16 pixels.
#[derive(Clone, Copy, Debug)]
pub struct Furniture {
    pub name: &'static str,
    pub type_: &'static str,
    pub source_rectangle_width: u8,
    pub source_rectangle_height: u8,
    pub bounding_box_width: u8,
    pub bounding_box_height: u8,
    pub rotations: u8,
    pub price: u32,
}

/// An entry of the clothing catalog. The male index is the place of the picture on the
/// sheet of shirts.
#[derive(Clone, Copy, Debug)]
pub struct ClothingInformation {
    pub name: &'static str,
    pub display_name: &'static str,
    pub description: &'static str,
    pub male_index: u16,
    pub female_index: u16,
    pub price: u32,
    pub rgb: (u8, u8, u8),
    pub dyeable: bool,
    pub type_: &'static str,
}

/// An entry of the catalog of hats.
#[derive(Clone, Copy, Debug)]
pub struct Hats {
    pub name: &'static str,
    pub description: &'static str,
    pub hair_draw_type: u8,
    pub ignore_hairstyle_offset: bool,
    pub is_prismatic: bool,
}

/// The key under which the clothing catalog holds the generic shirt.
pub const GENERIC_SHIRT_KEY: u16 = 65533;

/// The key under which the clothing catalog holds the generic pair of trousers.
pub const GENERIC_PANTS_KEY: u16 = 65534;

/// The lowest id of a shirt.
pub const FIRST_SHIRT_ID: u16 = 1000;

/// `phf::Map`, a hash table that is built once and never changes. Nothing is said of what
/// it is made of; what it holds is named for each catalog below.
#[verifier::external_type_specification]
#[verifier::external_body]
#[verifier::reject_recursive_types(K)]
#[verifier::reject_recursive_types(V)]
pub struct ExPhfMap<K: 'static, V: 'static>(phf::Map<K, V>);

/// `phf::Set`, a set that is built once and never changes. Nothing is said of what it is
/// made of; what it holds is named below.
#[verifier::external_type_specification]
#[verifier::external_body]
#[verifier::reject_recursive_types(T)]
pub struct ExPhfSet<T: 'static>(phf::Set<T>);

/// The entries that `phf::Map::get` finds in a catalog of objects, by their keys.
pub uninterp spec fn spec_object_information_entries(
    map: phf::Map<u16, ObjectInformation>,
) -> Map<u16, ObjectInformation>;

/// The entries that `phf::Map::get` finds in a catalog of big craftables, by their keys.
pub uninterp spec fn spec_big_craftables_information_entries(
    map: phf::Map<u16, BigCraftablesInformation>,
) -> Map<u16, BigCraftablesInformation>;

/// The entries that `phf::Map::get` finds in a catalog of furniture, by their keys.
pub uninterp spec fn spec_furniture_entries(map: phf::Map<u16, Furniture>) -> Map<u16, Furniture>;

/// The entries that `phf::Map::get` finds in a catalog of clothing, by their keys.
pub uninterp spec fn spec_clothing_information_entries(
    map: phf::Map<u16, ClothingInformation>,
) -> Map<u16, ClothingInformation>;

/// The entries that `phf::Map::get` finds in a catalog of hats, by their keys.
pub uninterp spec fn spec_hats_entries(map: phf::Map<u16, Hats>) -> Map<u16, Hats>;

/// The ids that `phf::Set::contains` finds in a set of ids.
pub uninterp spec fn spec_id_set_members(set: phf::Set<u16>) -> Set<u16>;

/// The entry of a catalog under a key, where there is one.
pub open spec fn spec_lookup<V>(entries: Map<u16, V>, id: u16) -> Option<&'static V> {
    if entries.contains_key(id) {
        Some(&entries[id])
    } else {
        None
    }
}

/// `phf::Map::get`: a reference to the entry that the key maps to, or nothing where the
/// table holds no entry under the key.
#[verifier::external_body]
fn object_information_get(map: &'static phf::Map<u16, ObjectInformation>, id: u16) -> (found:
    Option<&'static ObjectInformation>)
    ensures
        found == spec_lookup(spec_object_information_entries(*map), id),
{
    map.get(&id)
}

/// `phf::Map::get`: a reference to the entry that the key maps to, or nothing where the
/// table holds no entry under the key.
#[verifier::external_body]
fn big_craftables_information_get(
    map: &'static phf::Map<u16, BigCraftablesInformation>,
    id: u16,
) -> (found: Option<&'static BigCraftablesInformation>)
    ensures
        found == spec_lookup(spec_big_craftables_information_entries(*map), id),
{
    map.get(&id)
}

/// `phf::Map::get`: a reference to the entry that the key maps to, or nothing where the
/// table holds no entry under the key.
#[verifier::external_body]
fn furniture_get(map: &'static phf::Map<u16, Furniture>, id: u16) -> (found: Option<
    &'static Furniture,
>)
    ensures
        found == spec_lookup(spec_furniture_entries(*map), id),
{
    map.get(&id)
}

/// `phf::Map::get`: a reference to the entry that the key maps to, or nothing where the
/// table holds no entry under the key.
#[verifier::external_body]
fn clothing_information_get(map: &'static phf::Map<u16, ClothingInformation>, id: u16) -> (found:
    Option<&'static ClothingInformation>)
    ensures
        found == spec_lookup(spec_clothing_information_entries(*map), id),
{
    map.get(&id)
}

/// `phf::Map::get`: a reference to the entry that the key maps to, or nothing where the
/// table holds no entry under the key.
#[verifier::external_body]
fn hats_get(map: &'static phf::Map<u16, Hats>, id: u16) -> (found: Option<&'static Hats>)
    ensures
        found == spec_lookup(spec_hats_entries(*map), id),
{
    map.get(&id)
}

/// `phf::Set::contains`: whether the set holds the value.
#[verifier::external_body]
fn id_set_contains(set: &'static phf::Set<u16>, id: u16) -> (found: bool)
    ensures
        found == spec_id_set_members(*set).contains(id),
{
    set.contains(&id)
}

/// The catalogs of one game version, and with two of them the ids that a shop may come to
/// but must never sell.
#[derive(Clone, Copy)]
pub struct Catalog {
    pub object_information: &'static phf::Map<u16, ObjectInformation>,
    pub object_information_off_limit: &'static phf::Set<u16>,
    pub big_craftables_information: &'static phf::Map<u16, BigCraftablesInformation>,
    pub furniture: &'static phf::Map<u16, Furniture>,
    pub furniture_off_limit: &'static phf::Set<u16>,
    pub clothing_information: &'static phf::Map<u16, ClothingInformation>,
    pub hats: &'static phf::Map<u16, Hats>,
}

/// What the catalogs hold.
pub struct CatalogModel {
    pub object_information: Map<u16, ObjectInformation>,
    pub object_information_off_limit: Set<u16>,
    pub big_craftables_information: Map<u16, BigCraftablesInformation>,
    pub furniture: Map<u16, Furniture>,
    pub furniture_off_limit: Set<u16>,
    pub clothing_information: Map<u16, ClothingInformation>,
    pub hats: Map<u16, Hats>,
}

impl View for Catalog {
    type V = CatalogModel;

    open spec fn view(&self) -> CatalogModel {
        CatalogModel {
            object_information: spec_object_information_entries(*self.object_information),
            object_information_off_limit: spec_id_set_members(*self.object_information_off_limit),
            big_craftables_information: spec_big_craftables_information_entries(
                *self.big_craftables_information,
            ),
            furniture: spec_furniture_entries(*self.furniture),
            furniture_off_limit: spec_id_set_members(*self.furniture_off_limit),
            clothing_information: spec_clothing_information_entries(*self.clothing_information),
            hats: spec_hats_entries(*self.hats),
        }
    }
}

impl CatalogModel {
    /// Whether a shop may sell the object with this id: the catalog holds it and it is not
    /// off limits.
    pub open spec fn spec_object_sellable(self, id: u16) -> bool {
        self.object_information.contains_key(id) && !self.object_information_off_limit.contains(
            id,
        )
    }

    /// Whether a shop may sell the piece of furniture with this id: the catalog holds it and
    /// it is not off limits.
    pub open spec fn spec_furniture_sellable(self, id: u16) -> bool {
        self.furniture.contains_key(id) && !self.furniture_off_limit.contains(id)
    }

    /// The clothing entry for an id: its own where the catalog holds one, else the generic
    /// shirt for the ids from 1000 on and the generic pair of trousers below.
    pub open spec fn spec_clothing_information(self, id: u16) -> Option<
        &'static ClothingInformation,
    > {
        if self.clothing_information.contains_key(id) {
            Some(&self.clothing_information[id])
        } else if id >= 1000 {
            spec_lookup(self.clothing_information, 65533)
        } else {
            spec_lookup(self.clothing_information, 65534)
        }
    }
}

impl Catalog {
    /// The entry of an object.
    pub fn object_information(&self, id: u16) -> (found: Option<&'static ObjectInformation>)
        ensures
            found == spec_lookup(self@.object_information, id),
    {
        object_information_get(self.object_information, id)
    }

    /// The entry of a big craftable.
    pub fn big_craftables_information(&self, id: u16) -> (found: Option<
        &'static BigCraftablesInformation,
    >)
        ensures
            found == spec_lookup(self@.big_craftables_information, id),
    {
        big_craftables_information_get(self.big_craftables_information, id)
    }

    /// The entry of a piece of furniture.
    pub fn furniture(&self, id: u16) -> (found: Option<&'static Furniture>)
        ensures
            found == spec_lookup(self@.furniture, id),
    {
        furniture_get(self.furniture, id)
    }

    /// The entry of a piece of clothing under its own id.
    pub fn clothing_information(&self, id: u16) -> (found: Option<&'static ClothingInformation>)
        ensures
            found == spec_lookup(self@.clothing_information, id),
    {
        clothing_information_get(self.clothing_information, id)
    }

    /// The entry of a hat.
    pub fn hats(&self, id: u16) -> (found: Option<&'static Hats>)
        ensures
            found == spec_lookup(self@.hats, id),
    {
        hats_get(self.hats, id)
    }

    /// Whether no shop may sell the object with this id.
    pub fn object_information_off_limit(&self, id: u16) -> (off_limit: bool)
        ensures
            off_limit == self@.object_information_off_limit.contains(id),
    {
        id_set_contains(self.object_information_off_limit, id)
    }

    /// Whether no shop may sell the piece of furniture with this id.
    pub fn furniture_off_limit(&self, id: u16) -> (off_limit: bool)
        ensures
            off_limit == self@.furniture_off_limit.contains(id),
    {
        id_set_contains(self.furniture_off_limit, id)
    }

    /// Whether a shop may sell the object with this id.
    pub fn object_sellable(&self, id: u16) -> (sellable: bool)
        ensures
            sellable == self@.spec_object_sellable(id),
    {
        self.object_information(id).is_some() && !self.object_information_off_limit(id)
    }

    /// Whether a shop may sell the piece of furniture with this id.
    pub fn furniture_sellable(&self, id: u16) -> (sellable: bool)
        ensures
            sellable == self@.spec_furniture_sellable(id),
    {
        self.furniture(id).is_some() && !self.furniture_off_limit(id)
    }
}

/// The clothing entry for an id: its own where the catalog holds one, else the generic
/// shirt for the ids from 1000 on and the generic pair of trousers below. It fails where the
/// catalog holds neither.
pub fn get_clothing_information(catalog: &Catalog, id: u16) -> (result: Result<
    &'static ClothingInformation,
    StockError,
>)
    ensures
        result == (match catalog@.spec_clothing_information(id) {
            Some(entry) => Ok::<&'static ClothingInformation, StockError>(entry),
            None => Err::<&'static ClothingInformation, StockError>(StockError::ClothingInformation),
        }),
{
    let found: Option<&'static ClothingInformation> = match catalog.clothing_information(id) {
        Some(entry) => Some(entry),
        None => if id >= FIRST_SHIRT_ID {
            catalog.clothing_information(GENERIC_SHIRT_KEY)
        } else {
            catalog.clothing_information(GENERIC_PANTS_KEY)
        },
    };
    match found {
        Some(entry) => Ok(entry),
        None => Err(StockError::ClothingInformation),
    }
}

} // verus!
