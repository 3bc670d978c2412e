//! The four text inputs backing "Custom rect" mode.
//!
//! The raw strings are kept as typed so that a half-edited value is shown as
//! is; `parse` is the strict reading used to activate, `value_or` the lenient
//! per-field reading used to persist. Padding applies to every mode and is
//! not part of this rectangle.

use crate::domain::Field;
use crate::geometry::{fits_i32, ScreenRect};
use crate::text::{i32_to_string, int_repr, parse_i32_trimmed, spec_parse_i32, trim};
use vstd::prelude::*;

verus! {

pub struct CustomRect {
    left: String,
    top: String,
    width: String,
    height: String,
}

/// The text of the four inputs.
pub struct CustomRectView {
    pub left: Seq<char>,
    pub top: Seq<char>,
    pub width: Seq<char>,
    pub height: Seq<char>,
}

impl View for CustomRect {
    type V = CustomRectView;

    closed spec fn view(&self) -> CustomRectView {
        CustomRectView {
            left: self.left@,
            top: self.top@,
            width: self.width@,
            height: self.height@,
        }
    }
}

/// The text of `field` in `v`; padding is not part of the rectangle and reads as empty.
pub open spec fn field_text(v: CustomRectView, field: Field) -> Seq<char> {
    match field {
        Field::Left => v.left,
        Field::Top => v.top,
        Field::Width => v.width,
        Field::Height => v.height,
        Field::Padding => Seq::<char>::empty(),
    }
}

/// The inputs after `field` is replaced by `text`; padding changes nothing.
pub open spec fn with_field(v: CustomRectView, field: Field, text: Seq<char>) -> CustomRectView {
    match field {
        Field::Left => CustomRectView { left: text, ..v },
        Field::Top => CustomRectView { top: text, ..v },
        Field::Width => CustomRectView { width: text, ..v },
        Field::Height => CustomRectView { height: text, ..v },
        Field::Padding => v,
    }
}

/// The number a field holds, read as `trim().parse::<i32>()`.
pub open spec fn field_value(text: Seq<char>) -> Option<i32> {
    spec_parse_i32(trim(text))
}

/// The strict reading: every field a number (checked left, top, width,
/// height, in that order, the first failure reported), and a positive extent.
pub open spec fn spec_parse_custom(v: CustomRectView) -> Result<ScreenRect, Seq<char>> {
    match field_value(v.left) {
        None => Err("left not a number"@),
        Some(l) => match field_value(v.top) {
            None => Err("top not a number"@),
            Some(t) => match field_value(v.width) {
                None => Err("width not a number"@),
                Some(w) => match field_value(v.height) {
                    None => Err("height not a number"@),
                    Some(h) => if w <= 0 || h <= 0 {
                        Err("width/height must be positive"@)
                    } else {
                        Ok(
                            ScreenRect {
                                left: l,
                                top: t,
                                right: (l + w) as i32,
                                bottom: (t + h) as i32,
                            },
                        )
                    },
                },
            },
        },
    }
}

/// Whether the strict reading stays in the `i32` range: when all four fields
/// are numbers and the extent is positive, `left + width` and `top + height` fit.
pub open spec fn custom_fits(v: CustomRectView) -> bool {
    match (field_value(v.left), field_value(v.top), field_value(v.width), field_value(v.height)) {
        (Some(l), Some(t), Some(w), Some(h)) => w > 0 && h > 0 ==> fits_i32(l + w) && fits_i32(
            t + h,
        ),
        _ => true,
    }
}

impl CustomRect {
    /// The inputs showing the given numbers.
    pub fn new(left: i32, top: i32, width: i32, height: i32) -> (r: Self)
        ensures
            r@ == (CustomRectView {
                left: int_repr(left as int),
                top: int_repr(top as int),
                width: int_repr(width as int),
                height: int_repr(height as int),
            }),
    {
        CustomRect {
            left: i32_to_string(left),
            top: i32_to_string(top),
            width: i32_to_string(width),
            height: i32_to_string(height),
        }
    }

    /// The current text of a rectangle field; padding yields the empty string.
    pub fn get(&self, field: Field) -> (s: &str)
        ensures
            s@ == field_text(self@, field),
    {
        match field {
            Field::Left => self.left.as_str(),
            Field::Top => self.top.as_str(),
            Field::Width => self.width.as_str(),
            Field::Height => self.height.as_str(),
            Field::Padding => {
                proof { reveal_strlit(""); }
                ""
            },
        }
    }

    /// Replaces one rectangle field's text; padding is ignored.
    pub fn set(&mut self, field: Field, value: String)
        ensures
            final(self)@ == with_field(old(self)@, field, value@),
    {
        match field {
            Field::Left => self.left = value,
            Field::Top => self.top = value,
            Field::Width => self.width = value,
            Field::Height => self.height = value,
            Field::Padding => {},
        }
    }

    /// Whether `parse` may be called.
    pub fn fits(&self) -> (b: bool)
        ensures
            b == custom_fits(self@),
    {
        match (
            parse_i32_trimmed(self.left.as_str()),
            parse_i32_trimmed(self.top.as_str()),
            parse_i32_trimmed(self.width.as_str()),
            parse_i32_trimmed(self.height.as_str()),
        ) {
            (Some(l), Some(t), Some(w), Some(h)) => {
                if w <= 0 || h <= 0 {
                    return true;
                }
                let r = l as i64 + w as i64;
                let b = t as i64 + h as i64;
                i32::MIN as i64 <= r && r <= i32::MAX as i64 && i32::MIN as i64 <= b && b
                    <= i32::MAX as i64
            },
            _ => true,
        }
    }

    /// The inputs showing the given texts.
    pub fn from_texts(left: &str, top: &str, width: &str, height: &str) -> (r: Self)
        ensures
            r@ == (CustomRectView { left: left@, top: top@, width: width@, height: height@ }),
    {
        CustomRect {
            left: String::from_str(left),
            top: String::from_str(top),
            width: String::from_str(width),
            height: String::from_str(height),
        }
    }

    /// The strict reading used when activating.
    pub fn parse(&self) -> (r: Result<ScreenRect, String>)
        requires
            custom_fits(self@),
        ensures
            match r {
                Ok(rect) => spec_parse_custom(self@) == Ok::<ScreenRect, Seq<char>>(rect),
                Err(e) => spec_parse_custom(self@) == Err::<ScreenRect, Seq<char>>(e@),
            },
    {
        let left = match parse_i32_trimmed(self.left.as_str()) {
            Some(v) => v,
            None => return Err(String::from_str("left not a number")),
        };
        let top = match parse_i32_trimmed(self.top.as_str()) {
            Some(v) => v,
            None => return Err(String::from_str("top not a number")),
        };
        let width = match parse_i32_trimmed(self.width.as_str()) {
            Some(v) => v,
            None => return Err(String::from_str("width not a number")),
        };
        let height = match parse_i32_trimmed(self.height.as_str()) {
            Some(v) => v,
            None => return Err(String::from_str("height not a number")),
        };
        if width <= 0 || height <= 0 {
            return Err(String::from_str("width/height must be positive"));
        }
        Ok(ScreenRect::from_xywh(left, top, width, height))
    }

    /// The lenient reading used when persisting: the field's number, or
    /// `default` while its text is not (yet) a number.
    pub fn value_or(&self, field: Field, default: i32) -> (v: i32)
        ensures
            v == match field_value(field_text(self@, field)) {
                Some(n) => n,
                None => default,
            },
    {
        match parse_i32_trimmed(self.get(field)) {
            Some(n) => n,
            None => default,
        }
    }
}

/// Showing numbers in the inputs and reading them back gives the same
/// rectangle as building it from those numbers directly.
pub proof fn lemma_custom_round_trip(left: i32, top: i32, width: i32, height: i32)
    requires
        width > 0,
        height > 0,
        fits_i32(left + width),
        fits_i32(top + height),
    ensures
        ({
            let v = CustomRectView {
                left: int_repr(left as int),
                top: int_repr(top as int),
                width: int_repr(width as int),
                height: int_repr(height as int),
            };
            &&& custom_fits(v)
            &&& spec_parse_custom(v) == Ok::<ScreenRect, Seq<char>>(
                ScreenRect {
                    left,
                    top,
                    right: (left + width) as i32,
                    bottom: (top + height) as i32,
                },
            )
        }),
{
    crate::text::lemma_i32_round_trip(left);
    crate::text::lemma_i32_round_trip(top);
    crate::text::lemma_i32_round_trip(width);
    crate::text::lemma_i32_round_trip(height);
}

/// Every rectangle field shows the number it was created with.
pub proof fn lemma_custom_values(left: i32, top: i32, width: i32, height: i32)
    ensures
        ({
            let v = CustomRectView {
                left: int_repr(left as int),
                top: int_repr(top as int),
                width: int_repr(width as int),
                height: int_repr(height as int),
            };
            &&& field_value(field_text(v, Field::Left)) == Some(left)
            &&& field_value(field_text(v, Field::Top)) == Some(top)
            &&& field_value(field_text(v, Field::Width)) == Some(width)
            &&& field_value(field_text(v, Field::Height)) == Some(height)
        }),
{
    crate::text::lemma_i32_round_trip(left);
    crate::text::lemma_i32_round_trip(top);
    crate::text::lemma_i32_round_trip(width);
    crate::text::lemma_i32_round_trip(height);
}

} // verus!
