//! The cells of a table.

use vstd::prelude::*;
use vstd::string::StringExecFns;
use crate::text::{append_decimal, spec_decimal};

verus! {

/// What a cell shows.
#[derive(Debug, PartialEq, Eq)]
pub enum TableValue {
    Empty,
    Text(String),
    /// A part of a sprite sheet: the sheet's file, the part's left and top edge, its width
    /// and height, and the sheet's width and height.
    Sprite(String, u16, u16, u16, u16, u16, u16),
}

/// What a cell shows, with its texts as sequences of characters.
pub enum TableValueModel {
    Empty,
    Text(Seq<char>),
    Sprite(Seq<char>, u16, u16, u16, u16, u16, u16),
}

impl View for TableValue {
    type V = TableValueModel;

    open spec fn view(&self) -> TableValueModel {
        match *self {
            TableValue::Empty => TableValueModel::Empty,
            TableValue::Text(text) => TableValueModel::Text(text@),
            TableValue::Sprite(file, x, y, width, height, sheet_width, sheet_height) => {
                TableValueModel::Sprite(file@, x, y, width, height, sheet_width, sheet_height)
            },
        }
    }
}

/// The height in pixels at which every sprite is shown.
pub const SPRITE_HEIGHT: u8 = 16;

/// A length on the sheet, scaled so that the sprite is 16 pixels high.
pub open spec fn spec_scaled(length: u16, height: u16) -> Seq<char> {
    "calc("@ + spec_decimal(length as nat) + "px * (16 / "@ + spec_decimal(height as nat) + "))"@
}

/// A sprite's edge on the sheet, scaled in the same way and turned round so that it moves
/// the sheet behind the sprite's frame.
pub open spec fn spec_scaled_back(length: u16, height: u16) -> Seq<char> {
    "calc(-"@ + spec_decimal(length as nat) + "px * (16 / "@ + spec_decimal(height as nat) + "))"@
}

/// The style rules that show a part of a sprite sheet 16 pixels high: the sheet as the
/// background, moved and sized by the part's edges and the sheet's size, and the frame as
/// wide and high as the part, all scaled alike.
pub open spec fn spec_sprite_style(
    file: Seq<char>,
    x: u16,
    y: u16,
    width: u16,
    height: u16,
    sheet_width: u16,
    sheet_height: u16,
) -> Seq<char> {
    "background: url(/assets/"@ + file + ") "@ + spec_scaled_back(x, height) + " "@
        + spec_scaled_back(y, height) + " / "@ + spec_scaled(sheet_width, height) + " "@
        + spec_scaled(sheet_height, height) + "; width: "@ + spec_scaled(width, height)
        + "; height: "@ + spec_scaled(height, height)
        + "; image-rendering: pixelated; display: inline-block;"@
}

fn append_scaled(target: &mut String, length: u16, height: u16)
    ensures
        final(target)@ == old(target)@ + spec_scaled(length, height),
{
    target.append("calc(");
    append_decimal(target, length as u32);
    target.append("px * (16 / ");
    append_decimal(target, height as u32);
    target.append("))");
}

fn append_scaled_back(target: &mut String, length: u16, height: u16)
    ensures
        final(target)@ == old(target)@ + spec_scaled_back(length, height),
{
    target.append("calc(-");
    append_decimal(target, length as u32);
    target.append("px * (16 / ");
    append_decimal(target, height as u32);
    target.append("))");
}

impl TableValue {
    /// The style rules that show a sprite, and nothing for a value that is no sprite.
    pub fn sprite_style(&self) -> (style: Option<String>)
        ensures
            match self@ {
                TableValueModel::Sprite(file, x, y, width, height, sheet_width, sheet_height) => {
                    style matches Some(rules) && rules@ == spec_sprite_style(
                        file,
                        x,
                        y,
                        width,
                        height,
                        sheet_width,
                        sheet_height,
                    )
                },
                _ => style is None,
            },
    {
        match self {
            TableValue::Sprite(file, x, y, width, height, sheet_width, sheet_height) => {
                let mut rules: String = String::from_str("background: url(/assets/");
                rules.append(file.as_str());
                rules.append(") ");
                append_scaled_back(&mut rules, *x, *height);
                rules.append(" ");
                append_scaled_back(&mut rules, *y, *height);
                rules.append(" / ");
                append_scaled(&mut rules, *sheet_width, *height);
                rules.append(" ");
                append_scaled(&mut rules, *sheet_height, *height);
                rules.append("; width: ");
                append_scaled(&mut rules, *width, *height);
                rules.append("; height: ");
                append_scaled(&mut rules, *height, *height);
                rules.append("; image-rendering: pixelated; display: inline-block;");
                Some(rules)
            },
            _ => None,
        }
    }
}

/// Where a cell's content stands in it.
#[derive(Clone, Copy, Debug, PartialEq, Eq, Structural)]
pub enum TableAlign {
    TopLeft,
    TopCenter,
    TopRight,
    MiddleLeft,
    MiddleCenter,
    MiddleRight,
    BottomLeft,
    BottomCenter,
    BottomRight,
}

impl TableAlign {
    /// The style rules of an alignment.
    pub open spec fn spec_style(self) -> Seq<char> {
        match self {
            TableAlign::TopLeft => "vertical-align: top; text-align: left;"@,
            TableAlign::TopCenter => "vertical-align: top; text-align: center;"@,
            TableAlign::TopRight => "vertical-align: top; text-align: right;"@,
            TableAlign::MiddleLeft => "vertical-align: middle; text-align: left;"@,
            TableAlign::MiddleCenter => "vertical-align: middle; text-align: center;"@,
            TableAlign::MiddleRight => "vertical-align: middle; text-align: right;"@,
            TableAlign::BottomLeft => "vertical-align: bottom; text-align: left;"@,
            TableAlign::BottomCenter => "vertical-align: bottom; text-align: center;"@,
            TableAlign::BottomRight => "vertical-align: bottom; text-align: right;"@,
        }
    }

    /// The style rules of an alignment.
    pub fn to_string(&self) -> (style: String)
        ensures
            style@ == self.spec_style(),
    {
        String::from_str(
            match self {
                TableAlign::TopLeft => "vertical-align: top; text-align: left;",
                TableAlign::TopCenter => "vertical-align: top; text-align: center;",
                TableAlign::TopRight => "vertical-align: top; text-align: right;",
                TableAlign::MiddleLeft => "vertical-align: middle; text-align: left;",
                TableAlign::MiddleCenter => "vertical-align: middle; text-align: center;",
                TableAlign::MiddleRight => "vertical-align: middle; text-align: right;",
                TableAlign::BottomLeft => "vertical-align: bottom; text-align: left;",
                TableAlign::BottomCenter => "vertical-align: bottom; text-align: center;",
                TableAlign::BottomRight => "vertical-align: bottom; text-align: right;",
            },
        )
    }
}

/// A cell: what it shows, where, and how many rows and columns it spans.
#[derive(Debug, PartialEq, Eq)]
pub struct TableCell {
    pub value: TableValue,
    pub align: TableAlign,
    pub rows: u8,
    pub columns: u8,
}

/// A cell with its texts as sequences of characters.
pub struct TableCellModel {
    pub value: TableValueModel,
    pub align: TableAlign,
    pub rows: u8,
    pub columns: u8,
}

impl View for TableCell {
    type V = TableCellModel;

    open spec fn view(&self) -> TableCellModel {
        TableCellModel {
            value: self.value@,
            align: self.align,
            rows: self.rows,
            columns: self.columns,
        }
    }
}

impl DeepView for TableCell {
    type V = TableCellModel;

    open spec fn deep_view(&self) -> TableCellModel {
        self@
    }
}

/// A cell that holds a text, one row high.
pub open spec fn spec_text_cell(text: Seq<char>, align: TableAlign, columns: u8) -> TableCellModel {
    TableCellModel { value: TableValueModel::Text(text), align, rows: 1, columns }
}

/// A cell that holds a text, one row high.
pub fn text_cell(text: String, align: TableAlign, columns: u8) -> (cell: TableCell)
    ensures
        cell@ == spec_text_cell(text@, align, columns),
{
    TableCell { value: TableValue::Text(text), align, rows: 1, columns }
}

} // verus!
