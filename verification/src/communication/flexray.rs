//! Flexray physical channels, as far as their channel name goes.

use vstd::prelude::*;
use autosar_data::{Element, EnumItem};
use vstd::std_specs::convert::{FromSpecImpl, TryFromSpecImpl};
use crate::{
    AbstractionElement, AutosarAbstractionError, IdentifiableAbstractionElement, has_element_name,
    is_conversion_error, is_value_conversion_error,
};
use crate::elements::{
    character_data, enum_item_to_text, flexray_channel_name_item, get_sub_element, spec_element_name,
    spec_enum_item_text,
};
use crate::text::text_equals;
use crate::values::enum_value;

verus! {

/// the `FlexrayPhysicalChannel` represents either channel A or B of Flexray cluster
#[derive(Debug, Clone, PartialEq, Eq, Hash)]
pub struct FlexrayPhysicalChannel(Element);

impl AbstractionElement for FlexrayPhysicalChannel {
    closed spec fn spec_element(&self) -> Element {
        self.0
    }

    fn element(&self) -> (r: &Element) {
        proof {
            assert(self.spec_element() == self.0);
        }
        &self.0
    }
}

impl FlexrayPhysicalChannel {
    /// wrap an element of the model whose element name is `FLEXRAY-PHYSICAL-CHANNEL`
    pub fn from_element(element: Element) -> (r: Result<Self, AutosarAbstractionError>)
        ensures
            r is Ok <==> spec_element_name(element) == "FLEXRAY-PHYSICAL-CHANNEL"@,
            r matches Ok(x) ==> x.spec_element() == element,
            r matches Err(e) ==> is_conversion_error(e, element, "FlexrayPhysicalChannel"@),
    {
        if has_element_name(&element, "FLEXRAY-PHYSICAL-CHANNEL") {
            Ok(FlexrayPhysicalChannel(element))
        } else {
            Err(AutosarAbstractionError::ConversionError { element, dest: "FlexrayPhysicalChannel".to_owned() })
        }
    }
}

impl TryFrom<Element> for FlexrayPhysicalChannel {
    type Error = AutosarAbstractionError;

    fn try_from(element: Element) -> (r: Result<Self, Self::Error>)
        ensures
            r is Ok <==> spec_element_name(element) == "FLEXRAY-PHYSICAL-CHANNEL"@,
            r matches Ok(x) ==> x.spec_element() == element,
            r matches Err(e) ==> is_conversion_error(e, element, "FlexrayPhysicalChannel"@),
    {
        FlexrayPhysicalChannel::from_element(element)
    }
}

impl TryFromSpecImpl<Element> for FlexrayPhysicalChannel {
    open spec fn obeys_try_from_spec() -> bool {
        false
    }

    open spec fn try_from_spec(v: Element) -> Result<Self, AutosarAbstractionError> {
        arbitrary()
    }
}

impl From<FlexrayPhysicalChannel> for Element {
    fn from(value: FlexrayPhysicalChannel) -> (r: Element)
        ensures
            r == value.spec_element(),
    {
        value.0
    }
}

impl FromSpecImpl<FlexrayPhysicalChannel> for Element {
    open spec fn obeys_from_spec() -> bool {
        false
    }

    open spec fn from_spec(v: FlexrayPhysicalChannel) -> Element {
        arbitrary()
    }
}

impl IdentifiableAbstractionElement for FlexrayPhysicalChannel {}

impl FlexrayPhysicalChannel {
    /// get the channel name of a `FlexrayPhysicalChannel`
    pub fn channel_name(&self) -> Option<FlexrayChannelName> {
        let name_elem = get_sub_element(self.element(), "CHANNEL-NAME")?;
        let text = enum_value(character_data(&name_elem)?)?;
        match FlexrayChannelName::from_item_text(&text) {
            Ok(name) => Some(name),
            Err(_) => None,
        }
    }
}

//##################################################################

/// A flexray cluster may contain the channels A and/or B.
///
/// This enum is an abstraction over the \<CHANNEL-NAME\> element.
#[derive(Debug, Clone, Copy, PartialEq, Eq, Structural)]
pub enum FlexrayChannelName {
    /// Channel A
    A,
    /// Channel B
    B,
}

impl FlexrayChannelName {
    /// the XML text that represents the value in the model
    pub open spec fn spec_item_text(self) -> Seq<char> {
        match self {
            FlexrayChannelName::A => "CHANNEL-A"@,
            FlexrayChannelName::B => "CHANNEL-B"@,
        }
    }

    /// the value that an XML text represents, if there is one
    pub open spec fn spec_from_item_text(text: Seq<char>) -> Option<Self> {
        if text == "CHANNEL-A"@ {
            Some(FlexrayChannelName::A)
        } else if text == "CHANNEL-B"@ {
            Some(FlexrayChannelName::B)
        } else {
            None
        }
    }

    /// the XML text that represents the value in the model
    pub fn item_text(&self) -> (r: &'static str)
        ensures
            r@ == self.spec_item_text(),
    {
        match self {
            FlexrayChannelName::A => "CHANNEL-A",
            FlexrayChannelName::B => "CHANNEL-B",
        }
    }

    /// the value that an XML text represents
    pub fn from_item_text(text: &str) -> (r: Result<Self, AutosarAbstractionError>)
        ensures
            match Self::spec_from_item_text(text@) {
                Some(v) => r == Ok::<Self, AutosarAbstractionError>(v),
                None => r matches Err(e) && is_value_conversion_error(e, text@, "FlexrayChannelName"@),
            },
    {
        if text_equals(text, "CHANNEL-A") {
            Ok(FlexrayChannelName::A)
        } else if text_equals(text, "CHANNEL-B") {
            Ok(FlexrayChannelName::B)
        } else {
            Err(AutosarAbstractionError::ValueConversionError { value: text.to_owned(), dest: "FlexrayChannelName".to_owned() })
        }
    }
}

impl TryFrom<EnumItem> for FlexrayChannelName {
    type Error = AutosarAbstractionError;

    fn try_from(value: EnumItem) -> (r: Result<Self, Self::Error>)
        ensures
            match Self::spec_from_item_text(spec_enum_item_text(value)) {
                Some(v) => r == Ok::<Self, AutosarAbstractionError>(v),
                None => r matches Err(e) && is_value_conversion_error(e, spec_enum_item_text(value), "FlexrayChannelName"@),
            },
    {
        let text = enum_item_to_text(value);
        FlexrayChannelName::from_item_text(&text)
    }
}

impl TryFromSpecImpl<EnumItem> for FlexrayChannelName {
    open spec fn obeys_try_from_spec() -> bool {
        false
    }

    open spec fn try_from_spec(v: EnumItem) -> Result<Self, AutosarAbstractionError> {
        arbitrary()
    }
}

impl From<FlexrayChannelName> for EnumItem {
    fn from(value: FlexrayChannelName) -> (r: EnumItem)
        ensures
            spec_enum_item_text(r) == value.spec_item_text(),
    {
        flexray_channel_name_item(value)
    }
}

impl FromSpecImpl<FlexrayChannelName> for EnumItem {
    open spec fn obeys_from_spec() -> bool {
        false
    }

    open spec fn from_spec(v: FlexrayChannelName) -> EnumItem {
        arbitrary()
    }
}

/// The XML text of a value of `FlexrayChannelName` gives back the value.
pub proof fn lemma_flexray_channel_name_roundtrip(v: FlexrayChannelName)
    ensures
        FlexrayChannelName::spec_from_item_text(v.spec_item_text()) == Some(v),
{
    reveal_strlit("CHANNEL-A");
    reveal_strlit("CHANNEL-B");
    match v {
        FlexrayChannelName::A => {
        },
        FlexrayChannelName::B => {
            assert("CHANNEL-B"@[8] != "CHANNEL-A"@[8]);
        },
    }
}

} // verus!
