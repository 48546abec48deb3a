//! The geometry of a widget, and how it is kept in the store: one record for
//! each monitor, each field of it stored on its own.

use vstd::prelude::*;
use vstd::string::*;
use crate::text::{
    i32_string, lemma_signed_decimal_round_trip, parse_i32, parsed_i32, signed_decimal,
};

verus! {

/// The place of the records in the store.
pub const APP_REG_KEY: &'static str = "SOFTWARE\\amrbashir\\komorebi-switcher";

pub const WINDOW_POS_X_KEY: &'static str = "window-pos-x";

pub const WINDOW_POS_Y_KEY: &'static str = "window-pos-y";

pub const WINDOW_SIZE_WIDTH_KEY: &'static str = "window-size-width";

pub const WINDOW_SIZE_HEIGHT_KEY: &'static str = "window-size-height";

pub const WINDOW_SIZE_AUTO_WIDTH_KEY: &'static str = "window-size-auto-width";

pub const WINDOW_SIZE_AUTO_HEIGHT_KEY: &'static str = "window-size-auto-height";

/// Where a widget stands in its taskbar and how large it is. Where a size is
/// automatic, the field holds the size last seen, and the size that counts is
/// measured anew.
#[derive(Clone, Copy, Debug, PartialEq, Eq, Structural)]
pub struct WindowRegistryInfo {
    pub x: i32,
    pub y: i32,
    pub width: i32,
    pub height: i32,
    pub auto_width: bool,
    pub auto_height: bool,
}

/// The geometry of a widget that has no record yet.
pub open spec fn default_info() -> WindowRegistryInfo {
    WindowRegistryInfo { x: 5, y: 0, width: 200, height: 40, auto_width: true, auto_height: true }
}

impl Default for WindowRegistryInfo {
    fn default() -> (r: WindowRegistryInfo)
        ensures
            r == default_info(),
    {
        WindowRegistryInfo {
            x: 5,
            y: 0,
            width: 200,
            height: 40,
            auto_width: true,
            auto_height: true,
        }
    }
}

/// Where a host window is to stand, relative to its taskbar, and its size.
#[derive(Clone, Copy, Debug, PartialEq, Eq, Structural)]
pub struct Placement {
    pub x: i32,
    pub y: i32,
    pub width: i32,
    pub height: i32,
}

/// What the store holds of one record: a field that is missing, or of
/// another kind than the record's, is `None`.
#[derive(Debug)]
pub struct StoredFields {
    pub x: Option<String>,
    pub y: Option<String>,
    pub width: Option<String>,
    pub height: Option<String>,
    pub auto_width: Option<u32>,
    pub auto_height: Option<u32>,
}

/// The fields of a record as plain values.
pub struct StoredFieldsView {
    pub x: Option<Seq<char>>,
    pub y: Option<Seq<char>>,
    pub width: Option<Seq<char>>,
    pub height: Option<Seq<char>>,
    pub auto_width: Option<u32>,
    pub auto_height: Option<u32>,
}

/// The characters of a text that may be missing.
pub open spec fn text_view(s: Option<String>) -> Option<Seq<char>> {
    match s {
        Some(s) => Some(s@),
        None => None,
    }
}

impl View for StoredFields {
    type V = StoredFieldsView;

    open spec fn view(&self) -> StoredFieldsView {
        StoredFieldsView {
            x: text_view(self.x),
            y: text_view(self.y),
            width: text_view(self.width),
            height: text_view(self.height),
            auto_width: self.auto_width,
            auto_height: self.auto_height,
        }
    }
}

/// The number that a stored text holds, where it is there and writes one.
pub open spec fn stored_number(field: Option<Seq<char>>) -> Option<i32> {
    match field {
        Some(text) => parsed_i32(text),
        None => None,
    }
}

/// A number field as it is read: the stored number, else the default.
pub open spec fn number_or(field: Option<Seq<char>>, default: i32) -> i32 {
    match stored_number(field) {
        Some(v) => v,
        None => default,
    }
}

/// A switch as it is read: on where the stored number is not 0, the default
/// where there is none.
pub open spec fn switch_or(field: Option<u32>, default: bool) -> bool {
    match field {
        Some(v) => v != 0,
        None => default,
    }
}

/// The number that stands for a switch in the store.
pub open spec fn switch_number(on: bool) -> u32 {
    if on {
        1
    } else {
        0
    }
}

/// The record that the stored fields give. A field that is missing or does
/// not read falls back to its default, each on its own.
pub open spec fn loaded_info(fields: StoredFieldsView) -> WindowRegistryInfo {
    WindowRegistryInfo {
        x: number_or(fields.x, default_info().x),
        y: number_or(fields.y, default_info().y),
        width: number_or(fields.width, default_info().width),
        height: number_or(fields.height, default_info().height),
        auto_width: switch_or(fields.auto_width, default_info().auto_width),
        auto_height: switch_or(fields.auto_height, default_info().auto_height),
    }
}

/// The fields that a record is stored as: numbers in base ten, switches as 0
/// and 1.
pub open spec fn stored_fields(info: WindowRegistryInfo) -> StoredFieldsView {
    StoredFieldsView {
        x: Some(signed_decimal(info.x as int)),
        y: Some(signed_decimal(info.y as int)),
        width: Some(signed_decimal(info.width as int)),
        height: Some(signed_decimal(info.height as int)),
        auto_width: Some(switch_number(info.auto_width)),
        auto_height: Some(switch_number(info.auto_height)),
    }
}

/// The fields that fell back to their defaults on reading, and are to be
/// written with them: those with `None`.
pub open spec fn backfill(fields: StoredFieldsView) -> StoredFieldsView {
    StoredFieldsView {
        x: if stored_number(fields.x) is None {
            Some(signed_decimal(default_info().x as int))
        } else {
            None
        },
        y: if stored_number(fields.y) is None {
            Some(signed_decimal(default_info().y as int))
        } else {
            None
        },
        width: if stored_number(fields.width) is None {
            Some(signed_decimal(default_info().width as int))
        } else {
            None
        },
        height: if stored_number(fields.height) is None {
            Some(signed_decimal(default_info().height as int))
        } else {
            None
        },
        auto_width: if fields.auto_width is None {
            Some(switch_number(default_info().auto_width))
        } else {
            None
        },
        auto_height: if fields.auto_height is None {
            Some(switch_number(default_info().auto_height))
        } else {
            None
        },
    }
}

/// Whether no field is set.
pub open spec fn no_fields(fields: StoredFieldsView) -> bool {
    &&& fields.x is None
    &&& fields.y is None
    &&& fields.width is None
    &&& fields.height is None
    &&& fields.auto_width is None
    &&& fields.auto_height is None
}

/// A record that was saved is loaded again as it was, and nothing falls back
/// to a default.
pub proof fn lemma_save_then_load(info: WindowRegistryInfo)
    ensures
        loaded_info(stored_fields(info)) == info,
        no_fields(backfill(stored_fields(info))),
{
    lemma_signed_decimal_round_trip(info.x as int);
    lemma_signed_decimal_round_trip(info.y as int);
    lemma_signed_decimal_round_trip(info.width as int);
    lemma_signed_decimal_round_trip(info.height as int);
}

/// Once the fields that fell back are written, the record is loaded the same
/// again, and nothing falls back any more.
pub proof fn lemma_backfill_settles(fields: StoredFieldsView)
    ensures
        loaded_info(over(fields, backfill(fields))) == loaded_info(fields),
        no_fields(backfill(over(fields, backfill(fields)))),
{
    lemma_signed_decimal_round_trip(default_info().x as int);
    lemma_signed_decimal_round_trip(default_info().y as int);
    lemma_signed_decimal_round_trip(default_info().width as int);
    lemma_signed_decimal_round_trip(default_info().height as int);
}

/// `stored` with the fields that `written` sets written over it.
pub open spec fn over(stored: StoredFieldsView, written: StoredFieldsView) -> StoredFieldsView {
    StoredFieldsView {
        x: if written.x is Some {
            written.x
        } else {
            stored.x
        },
        y: if written.y is Some {
            written.y
        } else {
            stored.y
        },
        width: if written.width is Some {
            written.width
        } else {
            stored.width
        },
        height: if written.height is Some {
            written.height
        } else {
            stored.height
        },
        auto_width: if written.auto_width is Some {
            written.auto_width
        } else {
            stored.auto_width
        },
        auto_height: if written.auto_height is Some {
            written.auto_height
        } else {
            stored.auto_height
        },
    }
}

/// Reads one number field: the number and, where the default was taken, the
/// text to write back.
fn load_number(field: &Option<String>, default: i32) -> (r: (i32, Option<String>))
    ensures
        r.0 == number_or(text_view(*field), default),
        text_view(r.1) == if stored_number(text_view(*field)) is None {
            Some(signed_decimal(default as int))
        } else {
            None
        },
{
    let stored = match field {
        Some(text) => parse_i32(text.as_str()),
        None => None,
    };
    match stored {
        Some(v) => (v, None),
        None => (default, Some(i32_string(default))),
    }
}

/// Reads one switch: its value and, where the default was taken, the number
/// to write back.
fn load_switch(field: Option<u32>, default: bool) -> (r: (bool, Option<u32>))
    ensures
        r.0 == switch_or(field, default),
        r.1 == if field is None {
            Some(switch_number(default))
        } else {
            None
        },
{
    match field {
        Some(v) => (v != 0, None),
        None => (
            default,
            Some(
                if default {
                    1
                } else {
                    0
                },
            ),
        ),
    }
}

impl WindowRegistryInfo {
    /// The record that the stored fields give, and the fields to write back:
    /// those that fell back to their defaults. Loading never fails.
    pub fn load(fields: &StoredFields) -> (r: (WindowRegistryInfo, StoredFields))
        ensures
            r.0 == loaded_info(fields@),
            r.1@ == backfill(fields@),
    {
        let defaults = WindowRegistryInfo::default();
        let (x, write_x) = load_number(&fields.x, defaults.x);
        let (y, write_y) = load_number(&fields.y, defaults.y);
        let (width, write_width) = load_number(&fields.width, defaults.width);
        let (height, write_height) = load_number(&fields.height, defaults.height);
        let (auto_width, write_auto_width) = load_switch(fields.auto_width, defaults.auto_width);
        let (auto_height, write_auto_height) = load_switch(
            fields.auto_height,
            defaults.auto_height,
        );
        (
            WindowRegistryInfo { x, y, width, height, auto_width, auto_height },
            StoredFields {
                x: write_x,
                y: write_y,
                width: write_width,
                height: write_height,
                auto_width: write_auto_width,
                auto_height: write_auto_height,
            },
        )
    }

    /// The fields to write so that the record is stored: all six.
    pub fn save(&self) -> (r: StoredFields)
        ensures
            r@ == stored_fields(*self),
    {
        StoredFields {
            x: Some(i32_string(self.x)),
            y: Some(i32_string(self.y)),
            width: Some(i32_string(self.width)),
            height: Some(i32_string(self.height)),
            auto_width: Some(
                if self.auto_width {
                    1
                } else {
                    0
                },
            ),
            auto_height: Some(
                if self.auto_height {
                    1
                } else {
                    0
                },
            ),
        }
    }

    /// The record once the automatic sizes are measured: `content_width` is
    /// the width of what the widget shows, `container_height` the height of
    /// the taskbar inside.
    pub open spec fn resolved(self, content_width: i32, container_height: i32) -> WindowRegistryInfo {
        WindowRegistryInfo {
            x: self.x,
            y: self.y,
            width: if self.auto_width {
                content_width
            } else {
                self.width
            },
            height: if self.auto_height {
                container_height
            } else {
                self.height
            },
            auto_width: self.auto_width,
            auto_height: self.auto_height,
        }
    }

    /// Where the host window stands by this record.
    pub open spec fn placement(self) -> Placement {
        Placement { x: self.x, y: self.y, width: self.width, height: self.height }
    }

    /// Takes the measured sizes into the record where a size is automatic,
    /// and gives the placement of the host window.
    pub fn apply(&mut self, content_width: i32, container_height: i32) -> (r: Placement)
        ensures
            *final(self) == old(self).resolved(content_width, container_height),
            r == final(self).placement(),
    {
        if self.auto_width {
            self.width = content_width;
        }
        if self.auto_height {
            self.height = container_height;
        }
        Placement { x: self.x, y: self.y, width: self.width, height: self.height }
    }

    /// The placement of a host window that is made for this record in a
    /// taskbar of the height `container_height` inside.
    pub fn initial_placement(&self, container_height: i32) -> (r: Placement)
        ensures
            r == (Placement {
                x: self.x,
                y: self.y,
                width: self.width,
                height: if self.auto_height {
                    container_height
                } else {
                    self.height
                },
            }),
    {
        Placement {
            x: self.x,
            y: self.y,
            width: self.width,
            height: if self.auto_height {
                container_height
            } else {
                self.height
            },
        }
    }
}

} // verus!
