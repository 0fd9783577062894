//! The trusted boundary to the `autosar_data` model.
//!
//! Every call into the outside crate stands in this module. An element handle of the
//! model is opaque to the verifier: it is a shared, mutable node of the model, so what a
//! read returns depends on the state of the whole model and is not a function of the
//! handle. Reads and writes of the model therefore carry no claim about the content they
//! see; the wrappers only convert between the outside types and plain values. Element
//! names and enum items are passed by their XML text.

use vstd::prelude::*;
use autosar_data::{ArxmlFile, AutosarModel, AutosarVersion, CharacterData, Element, ElementName, EnumItem};
use std::str::FromStr;
use crate::AutosarAbstractionError;

verus! {

#[verifier::external_type_specification]
#[verifier::external_body]
pub struct ExElement(autosar_data::Element);

#[verifier::external_type_specification]
#[verifier::external_body]
pub struct ExAutosarDataError(autosar_data::AutosarDataError);

#[verifier::external_type_specification]
#[verifier::external_body]
pub struct ExAutosarModel(autosar_data::AutosarModel);

#[verifier::external_type_specification]
#[verifier::external_body]
pub struct ExAutosarVersion(autosar_data::AutosarVersion);

#[verifier::external_type_specification]
#[verifier::external_body]
pub struct ExEnumItem(autosar_data::EnumItem);

#[verifier::external_type_specification]
#[verifier::external_body]
pub struct ExArxmlFile(autosar_data::ArxmlFile);

/// The character content of an element, as plain values.
///
/// Enum items are held by their XML text. Floating point content is only marked:
/// its value is not held here.
#[derive(Debug, Clone, PartialEq, Eq)]
pub enum CharData {
    /// an enum item, given by its XML text
    Enum(String),
    /// a string
    Text(String),
    /// an unsigned integer
    Unsigned(u64),
    /// a floating point number
    Float,
}

/// What holds of every error that a write of the model returns: an error of the model, or
/// `InvalidParameter` with the element name or the enum item text that was handed to the model.
///
/// A setter that states this of its errors over an element name and the item text of its value
/// thereby names the element that it writes and the item that it writes there.
pub open spec fn is_model_or_name_error(e: AutosarAbstractionError, name: Seq<char>) -> bool {
    ||| e is ModelError
    ||| e matches AutosarAbstractionError::InvalidParameter(t) && t@ == name
}

/// Name for what `CharacterData::parse_integer::<u64>` returns for string content with the given text.
pub uninterp spec fn parsed_integer(text: Seq<char>) -> Option<u64>;

/// `CharacterData::parse_integer::<u64>` on string content.
///
/// The result is named by `parsed_integer` over the text: the outside function reads
/// nothing but the text (decimal, `0x`/`0X` hex, `0b`/`0B` binary, leading-`0` octal).
#[verifier::external_body]
pub(crate) fn parse_integer_text(text: &str) -> (r: Option<u64>)
    ensures
        r == parsed_integer(text@),
{
    CharacterData::String(text.to_string()).parse_integer::<u64>()
}

/// Name for what `CharacterData::parse_integer::<i64>` returns for string content with the given text.
pub uninterp spec fn parsed_signed_integer(text: Seq<char>) -> Option<i64>;

/// `CharacterData::parse_integer::<i64>` on string content.
///
/// The result is named by `parsed_signed_integer` over the text: the outside function reads
/// nothing but the text (signed decimal, `0x`/`0X` hex, `0b`/`0B` binary, leading-`0` octal).
#[verifier::external_body]
pub(crate) fn parse_signed_integer_text(text: &str) -> (r: Option<i64>)
    ensures
        r == parsed_signed_integer(text@),
{
    CharacterData::String(text.to_string()).parse_integer::<i64>()
}

/// `Element::character_data`, converted to [`CharData`].
///
/// Nothing is stated of the result: it is the current content of the model.
#[verifier::external_body]
pub(crate) fn character_data(element: &Element) -> Option<CharData> {
    match element.character_data() {
        Some(CharacterData::Enum(item)) => Some(CharData::Enum(item.to_str().to_string())),
        Some(CharacterData::String(text)) => Some(CharData::Text(text)),
        Some(CharacterData::UnsignedInteger(value)) => Some(CharData::Unsigned(value)),
        Some(CharacterData::Float(_)) => Some(CharData::Float),
        None => None,
    }
}

/// `Element::set_character_data` with string content.
#[verifier::external_body]
pub(crate) fn set_character_data_text(element: &Element, value: &str) -> (r: Result<(), AutosarAbstractionError>)
    ensures
        r matches Err(e) ==> e is ModelError,
{
    element.set_character_data(value).map_err(AutosarAbstractionError::ModelError)
}

/// `Element::set_character_data` with an unsigned integer.
#[verifier::external_body]
pub(crate) fn set_character_data_u64(element: &Element, value: u64) -> (r: Result<(), AutosarAbstractionError>)
    ensures
        r matches Err(e) ==> e is ModelError,
{
    element.set_character_data(value).map_err(AutosarAbstractionError::ModelError)
}

/// `Element::set_character_data` with a boolean.
#[verifier::external_body]
pub(crate) fn set_character_data_bool(element: &Element, value: bool) -> (r: Result<(), AutosarAbstractionError>)
    ensures
        r matches Err(e) ==> e is ModelError,
{
    element.set_character_data(value).map_err(AutosarAbstractionError::ModelError)
}

/// `Element::set_character_data` with an enum item given by its XML text.
///
/// A text that names no enum item is reported as `InvalidParameter` with the text.
#[verifier::external_body]
pub(crate) fn set_character_data_enum(element: &Element, item: &str) -> (r: Result<(), AutosarAbstractionError>)
    ensures
        r matches Err(e) ==> is_model_or_name_error(e, item@),
{
    match EnumItem::from_str(item) {
        Ok(value) => element.set_character_data(value).map_err(AutosarAbstractionError::ModelError),
        Err(_) => Err(AutosarAbstractionError::InvalidParameter(item.to_string())),
    }
}

/// Name for the XML text of the element name of a node (`Element::element_name` and
/// `ElementName::to_str`). The element name of a node is fixed when the node is created,
/// so it is a function of the handle.
pub uninterp spec fn spec_element_name(element: Element) -> Seq<char>;

/// `Element::element_name`, given by its XML text.
#[verifier::external_body]
pub(crate) fn element_name(element: &Element) -> (r: String)
    ensures
        r@ == spec_element_name(*element),
{
    element.element_name().to_str().to_string()
}

/// `Element::item_name`.
#[verifier::external_body]
pub(crate) fn item_name(element: &Element) -> Option<String> {
    element.item_name()
}

/// `Element::set_item_name`.
#[verifier::external_body]
pub(crate) fn set_item_name(element: &Element, name: &str) -> (r: Result<(), AutosarAbstractionError>)
    ensures
        r matches Err(e) ==> e is ModelError,
{
    element.set_item_name(name).map_err(AutosarAbstractionError::ModelError)
}

/// `Element::get_sub_element`, the element name given by its XML text.
///
/// The result is `None` for a text that names no element.
#[verifier::external_body]
pub(crate) fn get_sub_element(element: &Element, name: &str) -> (r: Option<Element>)
    ensures
        r matches Some(sub) ==> spec_element_name(sub) == name@,
{
    ElementName::from_str(name).ok().and_then(|n| element.get_sub_element(n))
}

/// `Element::get_or_create_sub_element`, the element name given by its XML text.
///
/// A text that names no element is reported as `InvalidParameter` with the text.
#[verifier::external_body]
pub(crate) fn get_or_create_sub_element(element: &Element, name: &str) -> (r: Result<Element, AutosarAbstractionError>)
    ensures
        r matches Ok(sub) ==> spec_element_name(sub) == name@,
        r matches Err(e) ==> is_model_or_name_error(e, name@),
{
    match ElementName::from_str(name) {
        Ok(n) => element.get_or_create_sub_element(n).map_err(AutosarAbstractionError::ModelError),
        Err(_) => Err(AutosarAbstractionError::InvalidParameter(name.to_string())),
    }
}

/// `Element::create_sub_element`, the element name given by its XML text.
///
/// A text that names no element is reported as `InvalidParameter` with the text.
#[verifier::external_body]
pub(crate) fn create_sub_element(element: &Element, name: &str) -> (r: Result<Element, AutosarAbstractionError>)
    ensures
        r matches Ok(sub) ==> spec_element_name(sub) == name@,
        r matches Err(e) ==> is_model_or_name_error(e, name@),
{
    match ElementName::from_str(name) {
        Ok(n) => element.create_sub_element(n).map_err(AutosarAbstractionError::ModelError),
        Err(_) => Err(AutosarAbstractionError::InvalidParameter(name.to_string())),
    }
}

/// `Element::create_named_sub_element`, the element name given by its XML text.
///
/// A text that names no element is reported as `InvalidParameter` with the text.
#[verifier::external_body]
pub(crate) fn create_named_sub_element(element: &Element, name: &str, item_name: &str) -> (r: Result<Element, AutosarAbstractionError>)
    ensures
        r matches Ok(sub) ==> spec_element_name(sub) == name@,
        r matches Err(e) ==> is_model_or_name_error(e, name@),
{
    match ElementName::from_str(name) {
        Ok(n) => element.create_named_sub_element(n, item_name).map_err(AutosarAbstractionError::ModelError),
        Err(_) => Err(AutosarAbstractionError::InvalidParameter(name.to_string())),
    }
}

/// `Element::get_or_create_named_sub_element`, the element name given by its XML text.
///
/// A text that names no element is reported as `InvalidParameter` with the text.
#[verifier::external_body]
pub(crate) fn get_or_create_named_sub_element(element: &Element, name: &str, item_name: &str) -> (r: Result<Element, AutosarAbstractionError>)
    ensures
        r matches Ok(sub) ==> spec_element_name(sub) == name@,
        r matches Err(e) ==> is_model_or_name_error(e, name@),
{
    match ElementName::from_str(name) {
        Ok(n) => element.get_or_create_named_sub_element(n, item_name).map_err(AutosarAbstractionError::ModelError),
        Err(_) => Err(AutosarAbstractionError::InvalidParameter(name.to_string())),
    }
}

/// `Element::remove_sub_element_kind`, the element name given by its XML text.
///
/// A text that names no element is reported as `InvalidParameter` with the text.
#[verifier::external_body]
pub(crate) fn remove_sub_element_kind(element: &Element, name: &str) -> (r: Result<(), AutosarAbstractionError>)
    ensures
        r matches Err(e) ==> is_model_or_name_error(e, name@),
{
    match ElementName::from_str(name) {
        Ok(n) => element.remove_sub_element_kind(n).map_err(AutosarAbstractionError::ModelError),
        Err(_) => Err(AutosarAbstractionError::InvalidParameter(name.to_string())),
    }
}

/// `Element::remove_sub_element`.
#[verifier::external_body]
pub(crate) fn remove_sub_element(element: &Element, sub_element: Element) -> (r: Result<(), AutosarAbstractionError>)
    ensures
        r matches Err(e) ==> e is ModelError,
{
    element.remove_sub_element(sub_element).map_err(AutosarAbstractionError::ModelError)
}

/// `Element::sub_elements`, collected.
#[verifier::external_body]
pub(crate) fn sub_elements(element: &Element) -> Vec<Element> {
    element.sub_elements().collect()
}

/// `Element::set_reference_target`.
#[verifier::external_body]
pub(crate) fn set_reference_target(element: &Element, target: &Element) -> (r: Result<(), AutosarAbstractionError>)
    ensures
        r matches Err(e) ==> e is ModelError,
{
    element.set_reference_target(target).map_err(AutosarAbstractionError::ModelError)
}

/// `Element::get_reference_target`.
#[verifier::external_body]
pub(crate) fn get_reference_target(element: &Element) -> (r: Result<Element, AutosarAbstractionError>)
    ensures
        r matches Err(e) ==> e is ModelError,
{
    element.get_reference_target().map_err(AutosarAbstractionError::ModelError)
}

/// `Element::parent`.
#[verifier::external_body]
pub(crate) fn parent(element: &Element) -> (r: Result<Option<Element>, AutosarAbstractionError>)
    ensures
        r matches Err(e) ==> e is ModelError,
{
    element.parent().map_err(AutosarAbstractionError::ModelError)
}

/// `Element::named_parent`.
#[verifier::external_body]
pub(crate) fn named_parent(element: &Element) -> (r: Result<Option<Element>, AutosarAbstractionError>)
    ensures
        r matches Err(e) ==> e is ModelError,
{
    element.named_parent().map_err(AutosarAbstractionError::ModelError)
}

/// `Element::model`.
#[verifier::external_body]
pub(crate) fn element_model(element: &Element) -> (r: Result<AutosarModel, AutosarAbstractionError>)
    ensures
        r matches Err(e) ==> e is ModelError,
{
    element.model().map_err(AutosarAbstractionError::ModelError)
}

/// `Element::path`.
#[verifier::external_body]
pub(crate) fn element_path(element: &Element) -> (r: Result<String, AutosarAbstractionError>)
    ensures
        r matches Err(e) ==> e is ModelError,
{
    element.path().map_err(AutosarAbstractionError::ModelError)
}

/// `Element == Element`: both handles denote the same node of the model (`Arc::as_ptr` equality).
///
/// Claims that this is spec equality of the handles: a handle is taken as the node it
/// denotes, as the clone specification below and [`spec_element_name`] also take it.
#[verifier::external_body]
pub(crate) fn same_element(a: &Element, b: &Element) -> (r: bool)
    ensures
        r == (*a == *b),
{
    a == b
}

/// `AutosarModel::get_references_to`, each weak handle upgraded.
///
/// An entry is `None` where the referring element no longer exists.
#[verifier::external_body]
pub(crate) fn references_to(model: &AutosarModel, path: &str) -> Vec<Option<Element>> {
    model.get_references_to(path).iter().map(|weak| weak.upgrade()).collect()
}

/// `AutosarModel::identifiable_elements`, each weak handle upgraded.
///
/// An entry is `None` where the element no longer exists.
#[verifier::external_body]
pub(crate) fn identifiable_elements(model: &AutosarModel) -> Vec<Option<Element>> {
    model.identifiable_elements().map(|(_, weak)| weak.upgrade()).collect()
}

/// The text of an error of the model (its `Display`).
///
/// Nothing is stated of the text: it is formatted by the outside crate.
#[verifier::external_body]
pub(crate) fn data_error_text(error: &autosar_data::AutosarDataError) -> String {
    error.to_string()
}

/// `AutosarModel::get_element_by_path`.
#[verifier::external_body]
pub(crate) fn get_element_by_path(model: &AutosarModel, path: &str) -> Option<Element> {
    model.get_element_by_path(path)
}

/// `AutosarModel::root_element`.
#[verifier::external_body]
pub(crate) fn root_element(model: &AutosarModel) -> Element {
    model.root_element()
}

/// `AutosarModel::new`.
#[verifier::external_body]
pub(crate) fn new_model() -> AutosarModel {
    AutosarModel::new()
}

/// `AutosarModel::create_file`.
#[verifier::external_body]
pub(crate) fn create_file<P: AsRef<std::path::Path>>(model: &AutosarModel, file_name: P, version: AutosarVersion) -> (r: Result<
    ArxmlFile,
    AutosarAbstractionError,
>)
    ensures
        r matches Err(e) ==> e is ModelError,
{
    model.create_file(file_name, version).map_err(AutosarAbstractionError::ModelError)
}

/// `AutosarModel::files`, collected.
#[verifier::external_body]
pub(crate) fn model_files(model: &AutosarModel) -> Vec<ArxmlFile> {
    model.files().collect()
}

} // verus!

verus! {

/// Name for the XML text of an enum item (`EnumItem::to_str`), a function of the item alone.
pub uninterp spec fn spec_enum_item_text(item: EnumItem) -> Seq<char>;

/// `EnumItem::to_str`.
#[verifier::external_body]
pub(crate) fn enum_item_to_text(item: EnumItem) -> (r: String)
    ensures
        r@ == spec_enum_item_text(item),
{
    item.to_str().to_string()
}

/// The variant of `EnumItem` for each byte order, one for one.
///
/// Claims that the XML text (`EnumItem::to_str`) of each item is the text that
/// [`crate::ByteOrder::spec_item_text`] gives.
#[verifier::external_body]
pub(crate) fn byte_order_item(value: crate::ByteOrder) -> (r: EnumItem)
    ensures
        spec_enum_item_text(r) == value.spec_item_text(),
{
    match value {
        crate::ByteOrder::MostSignificantByteFirst => EnumItem::MostSignificantByteFirst,
        crate::ByteOrder::MostSignificantByteLast => EnumItem::MostSignificantByteLast,
        crate::ByteOrder::Opaque => EnumItem::Opaque,
    }
}


/// The variant of `EnumItem` for each IPv4 address source, one for one.
///
/// Claims that the XML text (`EnumItem::to_str`) of each item is the text that
/// [`crate::communication::IPv4AddressSource::spec_item_text`] gives.
#[verifier::external_body]
pub(crate) fn ipv4_address_source_item(value: crate::communication::IPv4AddressSource) -> (r: EnumItem)
    ensures
        spec_enum_item_text(r) == value.spec_item_text(),
{
    match value {
        crate::communication::IPv4AddressSource::AutoIp => EnumItem::AutoIp,
        crate::communication::IPv4AddressSource::AutoIpDoIp => EnumItem::AutoIpDoip,
        crate::communication::IPv4AddressSource::DHCPv4 => EnumItem::Dhcpv4,
        crate::communication::IPv4AddressSource::Fixed => EnumItem::Fixed,
    }
}


/// The variant of `EnumItem` for each value of `EcucConfigurationVariant`, one for one.
///
/// Claims that the XML text (`EnumItem::to_str`) of each item is the text that
/// [`crate::ecu_configuration::EcucConfigurationVariant::spec_item_text`] gives.
#[verifier::external_body]
pub(crate) fn ecuc_configuration_variant_item(value: crate::ecu_configuration::EcucConfigurationVariant) -> (r: EnumItem)
    ensures
        spec_enum_item_text(r) == value.spec_item_text(),
{
    match value {
        crate::ecu_configuration::EcucConfigurationVariant::PreconfiguredConfiguration => EnumItem::PreconfiguredConfiguration,
        crate::ecu_configuration::EcucConfigurationVariant::RecommendedConfiguration => EnumItem::RecommendedConfiguration,
        crate::ecu_configuration::EcucConfigurationVariant::VariantLinkTime => EnumItem::VariantLinkTime,
        crate::ecu_configuration::EcucConfigurationVariant::VariantPostBuild => EnumItem::VariantPostBuild,
        crate::ecu_configuration::EcucConfigurationVariant::VariantPreCompile => EnumItem::VariantPreCompile,
        crate::ecu_configuration::EcucConfigurationVariant::VariantPostBuildLoadable => EnumItem::VariantPostBuildLoadable,
        crate::ecu_configuration::EcucConfigurationVariant::VariantPostBuildSelectable => EnumItem::VariantPostBuildSelectable,
    }
}

/// The variant of `EnumItem` for each value of `EcucConfigurationClass`, one for one.
///
/// Claims that the XML text (`EnumItem::to_str`) of each item is the text that
/// [`crate::ecu_configuration::EcucConfigurationClass::spec_item_text`] gives.
#[verifier::external_body]
pub(crate) fn ecuc_configuration_class_item(value: crate::ecu_configuration::EcucConfigurationClass) -> (r: EnumItem)
    ensures
        spec_enum_item_text(r) == value.spec_item_text(),
{
    match value {
        crate::ecu_configuration::EcucConfigurationClass::Link => EnumItem::Link,
        crate::ecu_configuration::EcucConfigurationClass::PostBuild => EnumItem::PostBuild,
        crate::ecu_configuration::EcucConfigurationClass::PreCompile => EnumItem::PreCompile,
        crate::ecu_configuration::EcucConfigurationClass::PublishedInformation => EnumItem::PublishedInformation,
    }
}

/// The variant of `EnumItem` for each value of `EcucDestinationUriNestingContract`, one for one.
///
/// Claims that the XML text (`EnumItem::to_str`) of each item is the text that
/// [`crate::ecu_configuration::EcucDestinationUriNestingContract::spec_item_text`] gives.
#[verifier::external_body]
pub(crate) fn ecuc_nesting_contract_item(value: crate::ecu_configuration::EcucDestinationUriNestingContract) -> (r: EnumItem)
    ensures
        spec_enum_item_text(r) == value.spec_item_text(),
{
    match value {
        crate::ecu_configuration::EcucDestinationUriNestingContract::LeafOfTargetContainer => EnumItem::LeafOfTargetContainer,
        crate::ecu_configuration::EcucDestinationUriNestingContract::TargetContainer => EnumItem::TargetContainer,
        crate::ecu_configuration::EcucDestinationUriNestingContract::VertexOfTargetContainer => EnumItem::VertexOfTargetContainer,
    }
}


/// The variant of `EnumItem` for each value of `CanTpChannelMode`, one for one.
///
/// Claims that the XML text (`EnumItem::to_str`) of each item is the text that
/// [`crate::communication::CanTpChannelMode::spec_item_text`] gives.
#[verifier::external_body]
pub(crate) fn can_tp_channel_mode_item(value: crate::communication::CanTpChannelMode) -> (r: EnumItem)
    ensures
        spec_enum_item_text(r) == value.spec_item_text(),
{
    match value {
        crate::communication::CanTpChannelMode::FullDuplex => EnumItem::FullDuplexMode,
        crate::communication::CanTpChannelMode::HalfDuplex => EnumItem::HalfDuplexMode,
    }
}

/// The variant of `EnumItem` for each value of `CanTpAddressingFormat`, one for one.
///
/// Claims that the XML text (`EnumItem::to_str`) of each item is the text that
/// [`crate::communication::CanTpAddressingFormat::spec_item_text`] gives.
#[verifier::external_body]
pub(crate) fn can_tp_addressing_format_item(value: crate::communication::CanTpAddressingFormat) -> (r: EnumItem)
    ensures
        spec_enum_item_text(r) == value.spec_item_text(),
{
    match value {
        crate::communication::CanTpAddressingFormat::Extended => EnumItem::Extended,
        crate::communication::CanTpAddressingFormat::Mixed => EnumItem::Mixed,
        crate::communication::CanTpAddressingFormat::Mixed29Bit => EnumItem::Mixed29Bit,
        crate::communication::CanTpAddressingFormat::NormalFixed => EnumItem::Normalfixed,
        crate::communication::CanTpAddressingFormat::Standard => EnumItem::Standard,
    }
}

/// The variant of `EnumItem` for each value of `FlexrayChannelName`, one for one.
///
/// Claims that the XML text (`EnumItem::to_str`) of each item is the text that
/// [`crate::communication::FlexrayChannelName::spec_item_text`] gives.
#[verifier::external_body]
pub(crate) fn flexray_channel_name_item(value: crate::communication::FlexrayChannelName) -> (r: EnumItem)
    ensures
        spec_enum_item_text(r) == value.spec_item_text(),
{
    match value {
        crate::communication::FlexrayChannelName::A => EnumItem::ChannelA,
        crate::communication::FlexrayChannelName::B => EnumItem::ChannelB,
    }
}


/// The variant of `EnumItem` for each value of `EventGroupControlType`, one for one.
///
/// Claims that the XML text (`EnumItem::to_str`) of each item is the text that
/// [`crate::communication::EventGroupControlType::spec_item_text`] gives.
#[verifier::external_body]
pub(crate) fn event_group_control_type_item(value: crate::communication::EventGroupControlType) -> (r: EnumItem)
    ensures
        spec_enum_item_text(r) == value.spec_item_text(),
{
    match value {
        crate::communication::EventGroupControlType::ActivationAndTriggerUnicast => EnumItem::ActivationAndTriggerUnicast,
        crate::communication::EventGroupControlType::ActivationMulticast => EnumItem::ActivationMulticast,
        crate::communication::EventGroupControlType::ActivationUnicast => EnumItem::ActivationUnicast,
        crate::communication::EventGroupControlType::TriggerUnicast => EnumItem::TriggerUnicast,
    }
}

/// The variant of `EnumItem` for each value of `PduCollectionTrigger`, one for one.
///
/// Claims that the XML text (`EnumItem::to_str`) of each item is the text that
/// [`crate::communication::PduCollectionTrigger::spec_item_text`] gives.
#[verifier::external_body]
pub(crate) fn pdu_collection_trigger_item(value: crate::communication::PduCollectionTrigger) -> (r: EnumItem)
    ensures
        spec_enum_item_text(r) == value.spec_item_text(),
{
    match value {
        crate::communication::PduCollectionTrigger::Always => EnumItem::Always,
        crate::communication::PduCollectionTrigger::Never => EnumItem::Never,
    }
}

} // verus!

verus! {

/// `Element::clone` copies the handle: the clone denotes the same node of the model.
pub assume_specification[ <autosar_data::Element as std::clone::Clone>::clone ](element: &autosar_data::Element) -> (r: autosar_data::Element)
    ensures
        r == *element,
;

} // verus!

verus! {

/// `AutosarModel::clone` copies the handle: the clone denotes the same model.
pub assume_specification[ <autosar_data::AutosarModel as std::clone::Clone>::clone ](model: &autosar_data::AutosarModel) -> (r: autosar_data::AutosarModel)
    ensures
        r == *model,
;

} // verus!
