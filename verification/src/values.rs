//! Interpretation of the character content of elements.
//!
//! These are the few-line accessors of `autosar_data::CharacterData`, stated and
//! proved over [`CharData`]; parsing a number from text is left to the outside crate
//! through [`parse_integer_text`].

use vstd::prelude::*;
use autosar_data::Element;
use crate::elements::{
    CharData, character_data, get_sub_element, parse_integer_text, parse_signed_integer_text, parsed_integer,
    parsed_signed_integer,
};
use crate::text::text_equals;

verus! {

/// the string content, if the content is a string
pub open spec fn spec_string_value(c: CharData) -> Option<Seq<char>> {
    match c {
        CharData::Text(t) => Some(t@),
        _ => None,
    }
}

/// the XML text of the enum item, if the content is an enum item
pub open spec fn spec_enum_value(c: CharData) -> Option<Seq<char>> {
    match c {
        CharData::Enum(t) => Some(t@),
        _ => None,
    }
}

/// the content read as a boolean: "true" or "1" for true, "false" or "0" for false
pub open spec fn spec_parse_bool(c: CharData) -> Option<bool> {
    match c {
        CharData::Text(t) => if t@ == "true"@ || t@ == "1"@ {
            Some(true)
        } else if t@ == "false"@ || t@ == "0"@ {
            Some(false)
        } else {
            None
        },
        _ => None,
    }
}

/// the content read as an unsigned integer
pub open spec fn spec_parse_u64(c: CharData) -> Option<u64> {
    match c {
        CharData::Text(t) => parsed_integer(t@),
        CharData::Unsigned(v) => Some(v),
        _ => None,
    }
}

/// the content read as an unsigned integer that fits into `max`
pub open spec fn spec_parse_bounded(c: CharData, max: u64) -> Option<u64> {
    match spec_parse_u64(c) {
        Some(v) => if v <= max { Some(v) } else { None },
        None => None,
    }
}

/// the content read as a signed integer: an unsigned value that does not fit is no value
pub open spec fn spec_parse_i64(c: CharData) -> Option<i64> {
    match c {
        CharData::Text(t) => parsed_signed_integer(t@),
        CharData::Unsigned(v) => if v <= i64::MAX as u64 { Some(v as i64) } else { None },
        _ => None,
    }
}

/// `CharacterData::string_value`
pub fn string_value(c: CharData) -> (r: Option<String>)
    ensures
        r matches Some(s) ==> spec_string_value(c) == Some(s@),
        r is None <==> spec_string_value(c) is None,
{
    match c {
        CharData::Text(t) => Some(t),
        _ => None,
    }
}

/// `CharacterData::enum_value`, the item given by its XML text
pub fn enum_value(c: CharData) -> (r: Option<String>)
    ensures
        r matches Some(s) ==> spec_enum_value(c) == Some(s@),
        r is None <==> spec_enum_value(c) is None,
{
    match c {
        CharData::Enum(t) => Some(t),
        _ => None,
    }
}

/// `CharacterData::parse_bool`
pub fn parse_bool(c: &CharData) -> (r: Option<bool>)
    ensures
        r == spec_parse_bool(*c),
{
    match c {
        CharData::Text(t) => {
            if text_equals(t.as_str(), "true") || text_equals(t.as_str(), "1") {
                Some(true)
            } else if text_equals(t.as_str(), "false") || text_equals(t.as_str(), "0") {
                Some(false)
            } else {
                None
            }
        },
        _ => None,
    }
}

/// `CharacterData::parse_integer::<u64>`
pub fn parse_u64(c: &CharData) -> (r: Option<u64>)
    ensures
        r == spec_parse_u64(*c),
{
    match c {
        CharData::Text(t) => parse_integer_text(t.as_str()),
        CharData::Unsigned(v) => Some(*v),
        _ => None,
    }
}

/// `CharacterData::parse_integer::<u32>`: a value that does not fit is no value
pub fn parse_u32(c: &CharData) -> (r: Option<u32>)
    ensures
        r matches Some(v) ==> spec_parse_bounded(*c, u32::MAX as u64) == Some(v as u64),
        r is None <==> spec_parse_bounded(*c, u32::MAX as u64) is None,
{
    match parse_u64(c) {
        Some(v) => if v <= u32::MAX as u64 { Some(v as u32) } else { None },
        None => None,
    }
}

/// `CharacterData::parse_integer::<u16>`: a value that does not fit is no value
pub fn parse_u16(c: &CharData) -> (r: Option<u16>)
    ensures
        r matches Some(v) ==> spec_parse_bounded(*c, u16::MAX as u64) == Some(v as u64),
        r is None <==> spec_parse_bounded(*c, u16::MAX as u64) is None,
{
    match parse_u64(c) {
        Some(v) => if v <= u16::MAX as u64 { Some(v as u16) } else { None },
        None => None,
    }
}

/// `CharacterData::parse_integer::<u8>`: a value that does not fit is no value
pub fn parse_u8(c: &CharData) -> (r: Option<u8>)
    ensures
        r matches Some(v) ==> spec_parse_bounded(*c, u8::MAX as u64) == Some(v as u64),
        r is None <==> spec_parse_bounded(*c, u8::MAX as u64) is None,
{
    match parse_u64(c) {
        Some(v) => if v <= u8::MAX as u64 { Some(v as u8) } else { None },
        None => None,
    }
}

/// `CharacterData::parse_integer::<i64>`
pub fn parse_i64(c: &CharData) -> (r: Option<i64>)
    ensures
        r == spec_parse_i64(*c),
{
    match c {
        CharData::Text(t) => parse_signed_integer_text(t.as_str()),
        CharData::Unsigned(v) => if *v <= i64::MAX as u64 { Some(*v as i64) } else { None },
        _ => None,
    }
}

/// the character content of the sub element with the given element name, if there is one
pub fn sub_element_cdata(element: &Element, name: &str) -> Option<CharData> {
    match get_sub_element(element, name) {
        Some(sub) => character_data(&sub),
        None => None,
    }
}

/// the string content of the sub element with the given element name, if there is one
pub fn sub_element_string(element: &Element, name: &str) -> Option<String> {
    match sub_element_cdata(element, name) {
        Some(cdata) => string_value(cdata),
        None => None,
    }
}

} // verus!
