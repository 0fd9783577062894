//! Small accessors of sub elements: typed values, optional values and references.

use vstd::prelude::*;
use autosar_data::Element;
use crate::AutosarAbstractionError;
use crate::elements::{
    create_sub_element, is_model_or_name_error, get_or_create_sub_element, get_reference_target, get_sub_element, remove_sub_element_kind,
    set_character_data_bool, set_character_data_text, set_character_data_u64, set_reference_target, sub_elements,
};
use crate::values::{enum_value, parse_bool, parse_u32, sub_element_cdata};

verus! {

/// set a boolean sub element, or remove it for `None`
pub(crate) fn set_optional_bool(element: &Element, name: &str, value: Option<bool>) -> (r: Result<(), AutosarAbstractionError>)
    ensures
        r matches Err(e) ==> is_model_or_name_error(e, name@),
{
    match value {
        Some(v) => set_character_data_bool(&get_or_create_sub_element(element, name)?, v),
        None => {
            let _ = remove_sub_element_kind(element, name);
            Ok(())
        },
    }
}

/// set an unsigned integer sub element, or remove it for `None`
pub(crate) fn set_optional_u64(element: &Element, name: &str, value: Option<u64>) -> (r: Result<(), AutosarAbstractionError>)
    ensures
        r matches Err(e) ==> is_model_or_name_error(e, name@),
{
    match value {
        Some(v) => set_character_data_u64(&get_or_create_sub_element(element, name)?, v),
        None => {
            let _ = remove_sub_element_kind(element, name);
            Ok(())
        },
    }
}

/// set a string sub element, or remove it for `None`
pub(crate) fn set_optional_text(element: &Element, name: &str, value: Option<&str>) -> (r: Result<(), AutosarAbstractionError>)
    ensures
        r matches Err(e) ==> is_model_or_name_error(e, name@),
{
    match value {
        Some(v) => set_character_data_text(&get_or_create_sub_element(element, name)?, v),
        None => {
            let _ = remove_sub_element_kind(element, name);
            Ok(())
        },
    }
}

/// the boolean content of a sub element
pub(crate) fn sub_element_bool(element: &Element, name: &str) -> Option<bool> {
    match sub_element_cdata(element, name) {
        Some(cdata) => parse_bool(&cdata),
        None => None,
    }
}

/// the unsigned integer content of a sub element that fits into a `u32`
pub(crate) fn sub_element_u32(element: &Element, name: &str) -> Option<u32> {
    match sub_element_cdata(element, name) {
        Some(cdata) => parse_u32(&cdata),
        None => None,
    }
}

//#########################################################

/// set an unsigned integer sub element, created if needed
pub(crate) fn set_u32_value(element: &Element, name: &str, value: u32) -> (r: Result<(), AutosarAbstractionError>)
    ensures
        r matches Err(e) ==> is_model_or_name_error(e, name@),
{
    set_character_data_u64(&get_or_create_sub_element(element, name)?, value as u64)
}

/// set a boolean sub element, created if needed
pub(crate) fn set_bool_value(element: &Element, name: &str, value: bool) -> (r: Result<(), AutosarAbstractionError>)
    ensures
        r matches Err(e) ==> is_model_or_name_error(e, name@),
{
    set_character_data_bool(&get_or_create_sub_element(element, name)?, value)
}

/// the XML text of the enum item in the sub element with the given name
pub(crate) fn sub_element_enum_text(element: &Element, name: &str) -> Option<String> {
    enum_value(sub_element_cdata(element, name)?)
}

/// the element that the sub element with the given name refers to
pub(crate) fn sub_element_target(element: &Element, name: &str) -> Option<Element> {
    let ref_elem = get_sub_element(element, name)?;
    match get_reference_target(&ref_elem) {
        Ok(target) => Some(target),
        Err(_) => None,
    }
}

/// set the reference target of the sub element with the given name, created if needed
pub(crate) fn set_sub_element_target(element: &Element, name: &str, target: &Element) -> (r: Result<(), AutosarAbstractionError>)
    ensures
        r matches Err(e) ==> is_model_or_name_error(e, name@),
{
    let ref_elem = get_or_create_sub_element(element, name)?;
    set_reference_target(&ref_elem, target)
}

/// add a reference to `target` as a new sub element `ref_name` of the list `list_name`
pub(crate) fn add_list_reference(element: &Element, list_name: &str, ref_name: &str, target: &Element) -> (r: Result<
    (),
    AutosarAbstractionError,
>)
    ensures
        r matches Err(e) ==> e is ModelError || e is InvalidParameter,
{
    let list = get_or_create_sub_element(element, list_name)?;
    let ref_elem = create_sub_element(&list, ref_name)?;
    set_reference_target(&ref_elem, target)
}

/// the targets of the references in the list `list_name` that can be resolved
pub(crate) fn list_reference_targets(element: &Element, list_name: &str) -> Vec<Element> {
    let mut result: Vec<Element> = Vec::new();
    if let Some(list) = get_sub_element(element, list_name) {
        let refs = sub_elements(&list);
        for i in 0..refs.len() {
            if let Ok(target) = get_reference_target(&refs[i]) {
                result.push(target);
            }
        }
    }
    result
}

/// the sub elements of the sub element `list_name`, if it exists
pub(crate) fn list_elements(element: &Element, list_name: &str) -> Vec<Element> {
    match get_sub_element(element, list_name) {
        Some(list) => sub_elements(&list),
        None => Vec::new(),
    }
}

} // verus!
