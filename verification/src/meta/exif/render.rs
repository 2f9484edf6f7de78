//! The text of the value of a field.
//!
//! A few tags stand for one of a small set of choices and are printed by the
//! name of the choice. Every other field is printed by its format. A value
//! that cannot be printed in this way is shown as it is, for debugging.

use vstd::prelude::*;
use vstd::string::*;
use crate::meta::exif::field::{FieldView, IfdField};
use crate::meta::exif::format::{
    data_length, ASCII_STRING, SIGNED_BYTE, SIGNED_LONG, SIGNED_RATIONAL, SIGNED_SHORT, UNDEFINED,
    UNSIGNED_BYTE, UNSIGNED_LONG, UNSIGNED_RATIONAL, UNSIGNED_SHORT,
};
use crate::meta::exif::tag::contrast::{contrast_of, contrast_text, Contrast};
use crate::meta::exif::tag::gain::{gain_of, gain_text, Gain};
use crate::meta::exif::tag::metering::{metering_mode_of, metering_mode_text, MeteringMode};
use crate::meta::exif::tag::orientation::{orientation_of, orientation_text, Orientation};
use crate::meta::exif::tag::rational::{rational_text, Rational};
use crate::meta::exif::tag::resolution_unit::{
    resolution_unit_of, resolution_unit_text, ResolutionUnit,
};
use crate::meta::exif::tag::saturation::{saturation_of, saturation_text, Saturation};
use crate::meta::exif::tag::scene::{scene_of, scene_text, Scene};
use crate::meta::exif::tag::sharpness::{sharpness_of, sharpness_text, Sharpness};
use crate::meta::exif::tag::y_cb_cr_coefficients::{
    ycbcr_positioning_of, ycbcr_positioning_text, YCbCrPositioning,
};
use crate::meta::exif::tag::Tag;
use crate::meta::exif::value::{ascii_of, field_rationals, signed_of, unsigned_of};
use crate::text::{decimal, decimal_string, hex_list, join, joined, push_decimal, push_hex_list, texts_of};

verus! {

/// Whether a tag stands for one of a small set of choices.
pub open spec fn has_choices(tag: Tag) -> bool {
    tag == Tag::Orientation || tag == Tag::Sharpness || tag == Tag::Contrast || tag
        == Tag::Saturation || tag == Tag::SceneCaptureType || tag == Tag::GainControl || tag
        == Tag::ResolutionUnit || tag == Tag::YCbCrPositioning || tag == Tag::MeteringMode
}

/// The name of the choice that the number `v` stands for under a tag, where
/// it stands for one.
pub open spec fn choice_text(tag: Tag, v: int) -> Option<Seq<char>> {
    match tag {
        Tag::Orientation => match orientation_of(v) {
            Some(c) => Some(orientation_text(c)),
            None => None,
        },
        Tag::Sharpness => match sharpness_of(v) {
            Some(c) => Some(sharpness_text(c)),
            None => None,
        },
        Tag::Contrast => match contrast_of(v) {
            Some(c) => Some(contrast_text(c)),
            None => None,
        },
        Tag::Saturation => match saturation_of(v) {
            Some(c) => Some(saturation_text(c)),
            None => None,
        },
        Tag::SceneCaptureType => match scene_of(v) {
            Some(c) => Some(scene_text(c)),
            None => None,
        },
        Tag::GainControl => match gain_of(v) {
            Some(c) => Some(gain_text(c)),
            None => None,
        },
        Tag::ResolutionUnit => match resolution_unit_of(v) {
            Some(c) => Some(resolution_unit_text(c)),
            None => None,
        },
        Tag::YCbCrPositioning => match ycbcr_positioning_of(v) {
            Some(c) => Some(ycbcr_positioning_text(c)),
            None => None,
        },
        Tag::MeteringMode => match metering_mode_of(v) {
            Some(c) => Some(metering_mode_text(c)),
            None => None,
        },
        _ => None,
    }
}

/// The texts of rational numbers, with a comma and a space between each two.
pub open spec fn rationals_text(all: Seq<Rational>) -> Seq<char> {
    joined(all.map_values(|r: Rational| rational_text(r)), ", "@)
}

/// The text of the value of a field by its format, where the format is one
/// that can be printed and the data holds a value of it.
pub open spec fn format_text(f: FieldView) -> Option<Seq<char>> {
    if f.format == ASCII_STRING || f.format == UNDEFINED {
        match f.data {
            Some(d) => Some(ascii_of(d)),
            None => None,
        }
    } else if f.format == UNSIGNED_BYTE || f.format == UNSIGNED_SHORT || f.format
        == UNSIGNED_LONG {
        match unsigned_of(f) {
            Some(v) => Some(decimal(v as nat)),
            None => None,
        }
    } else if f.format == UNSIGNED_RATIONAL || f.format == SIGNED_RATIONAL {
        match field_rationals(f) {
            Ok(all) => Some(rationals_text(all)),
            Err(_) => None,
        }
    } else if f.format == SIGNED_BYTE || f.format == SIGNED_SHORT || f.format == SIGNED_LONG {
        match signed_of(f) {
            Some(v) => Some(decimal(v as nat)),
            None => None,
        }
    } else {
        None
    }
}

/// The text of the value of a field, where it can be printed: by the name of
/// a choice for the tags that have choices, and by the format otherwise.
pub open spec fn plain_text(f: FieldView) -> Option<Seq<char>> {
    if has_choices(f.tag) {
        match unsigned_of(f) {
            Some(v) => choice_text(f.tag, v as int),
            None => None,
        }
    } else {
        format_text(f)
    }
}

/// A field as it is shown for debugging: its format, the count of its
/// components, the length of its data, and the data in hexadecimal (one zero
/// byte where it has none).
pub open spec fn debug_text(f: FieldView) -> Seq<char> {
    "Debug [format: "@ + decimal(f.format as nat) + ", components: "@ + decimal(
        f.components as nat,
    ) + ", length: "@ + decimal(data_length(f.format, f.components) as nat) + "]\n  "@
        + "                                "@ + ": Data: "@ + hex_list(
        match f.data {
            Some(d) => d,
            None => seq![0u8],
        },
        true,
    )
}

/// The text of the value of a field.
pub open spec fn value_text(f: FieldView) -> Seq<char> {
    match plain_text(f) {
        Some(text) => text,
        None => debug_text(f),
    }
}

/// The name of the choice that a number stands for under a tag.
pub fn choice(tag: Tag, v: usize) -> (r: Option<String>)
    ensures
        match choice_text(tag, v as int) {
            Some(text) => r is Some && r->Some_0@ == text,
            None => r is None,
        },
{
    match tag {
        Tag::Orientation => match Orientation::try_from(v) {
            Some(c) => Some(c.to_string()),
            None => None,
        },
        Tag::Sharpness => match Sharpness::try_from(v) {
            Some(c) => Some(c.to_string()),
            None => None,
        },
        Tag::Contrast => match Contrast::try_from(v) {
            Some(c) => Some(c.to_string()),
            None => None,
        },
        Tag::Saturation => match Saturation::try_from(v) {
            Some(c) => Some(c.to_string()),
            None => None,
        },
        Tag::SceneCaptureType => match Scene::try_from(v) {
            Some(c) => Some(c.to_string()),
            None => None,
        },
        Tag::GainControl => match Gain::try_from(v) {
            Some(c) => Some(c.to_string()),
            None => None,
        },
        Tag::ResolutionUnit => match ResolutionUnit::try_from(v) {
            Some(c) => Some(c.to_string()),
            None => None,
        },
        Tag::YCbCrPositioning => match YCbCrPositioning::try_from(v) {
            Some(c) => Some(c.to_string()),
            None => None,
        },
        Tag::MeteringMode => match MeteringMode::try_from(v) {
            Some(c) => Some(c.to_string()),
            None => None,
        },
        _ => None,
    }
}

/// The texts of rational numbers, with a comma and a space between each two.
pub fn rationals_string(all: &Vec<Rational>) -> (r: String)
    ensures
        r@ == rationals_text(all@),
{
    let mut texts: Vec<String> = Vec::new();
    let mut i: usize = 0;
    while i < all.len()
        invariant
            i <= all.len(),
            texts@.len() == i,
            forall|k: int| 0 <= k < i ==> texts@[k]@ == rational_text(all@[k]),
        decreases all.len() - i,
    {
        texts.push(all[i].to_string());
        i = i + 1;
    }
    proof {
        assert(texts_of(texts@) =~= all@.map_values(|r: Rational| rational_text(r)));
    }
    join(&texts, ", ")
}

impl IfdField {
    /// The text of the value by the format of the field.
    pub fn format_string(&self) -> (r: Option<String>)
        ensures
            match format_text(self@) {
                Some(text) => r is Some && r->Some_0@ == text,
                None => r is None,
            },
    {
        let f = self.format;
        if f == ASCII_STRING || f == UNDEFINED {
            self.to_ascii()
        } else if f == UNSIGNED_BYTE || f == UNSIGNED_SHORT || f == UNSIGNED_LONG {
            match self.to_unsigned() {
                Some(v) => Some(decimal_string(v as u64)),
                None => None,
            }
        } else if f == UNSIGNED_RATIONAL || f == SIGNED_RATIONAL {
            match self.to_rationals() {
                Ok(all) => Some(rationals_string(&all)),
                Err(_) => None,
            }
        } else if f == SIGNED_BYTE || f == SIGNED_SHORT || f == SIGNED_LONG {
            match self.to_signed() {
                Some(v) => Some(decimal_string(v as u64)),
                None => None,
            }
        } else {
            None
        }
    }

    /// The field as it is shown for debugging.
    pub fn debug_string(&self) -> (r: String)
        ensures
            r@ == debug_text(self@),
    {
        let mut out = String::from_str("Debug [format: ");
        push_decimal(&mut out, self.format as u64);
        out.append(", components: ");
        push_decimal(&mut out, self.components as u64);
        out.append(", length: ");
        push_decimal(&mut out, self.length());
        out.append("]\n  ");
        out.append("                                ");
        out.append(": Data: ");
        match &self.data {
            Some(d) => {
                push_hex_list(&mut out, d.as_slice(), true);
            },
            None => {
                let zero: [u8; 1] = [0x00];
                assert(zero@ =~= seq![0u8]);
                push_hex_list(&mut out, zero.as_slice(), true);
            },
        }
        out
    }

    /// The text of the value of the field.
    pub fn to_string(&self) -> (r: String)
        ensures
            r@ == value_text(self@),
    {
        let plain = match self.tag {
            Tag::Orientation
            | Tag::Sharpness
            | Tag::Contrast
            | Tag::Saturation
            | Tag::SceneCaptureType
            | Tag::GainControl
            | Tag::ResolutionUnit
            | Tag::YCbCrPositioning
            | Tag::MeteringMode => match self.to_unsigned() {
                Some(v) => choice(self.tag, v),
                None => None,
            },
            _ => self.format_string(),
        };
        match plain {
            Some(text) => text,
            None => self.debug_string(),
        }
    }
}

} // verus!
