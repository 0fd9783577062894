//! Settings of the transport protocols: the channel mode and the addressing format of CAN TP,
//! and the transport layer address of an ECU.

use vstd::prelude::*;
use crate::elements::is_model_or_name_error;
use autosar_data::{Element, EnumItem};
use vstd::std_specs::convert::{FromSpecImpl, TryFromSpecImpl};
use crate::{
    AbstractionElement, AutosarAbstractionError, IdentifiableAbstractionElement, has_element_name, is_conversion_error,
    is_value_conversion_error,
};
use crate::accessors::{set_u32_value, sub_element_u32};
use crate::elements::{create_named_sub_element, spec_element_name};
use crate::elements::{
    can_tp_addressing_format_item, can_tp_channel_mode_item, enum_item_to_text, spec_enum_item_text,
};
use crate::text::text_equals;

verus! {

/// The mode of a `CanTpChannel`
#[derive(Debug, Clone, Copy, PartialEq, Eq, Hash, Structural)]
pub enum CanTpChannelMode {
    /// Full duplex mode
    FullDuplex,
    /// Half duplex mode
    HalfDuplex,
}

impl CanTpChannelMode {
    /// the XML text that represents the value in the model
    pub open spec fn spec_item_text(self) -> Seq<char> {
        match self {
            CanTpChannelMode::FullDuplex => "FULL-DUPLEX-MODE"@,
            CanTpChannelMode::HalfDuplex => "HALF-DUPLEX-MODE"@,
        }
    }

    /// the value that an XML text represents, if there is one
    pub open spec fn spec_from_item_text(text: Seq<char>) -> Option<Self> {
        if text == "FULL-DUPLEX-MODE"@ {
            Some(CanTpChannelMode::FullDuplex)
        } else if text == "HALF-DUPLEX-MODE"@ {
            Some(CanTpChannelMode::HalfDuplex)
        } else {
            None
        }
    }

    /// the XML text that represents the value in the model
    pub fn item_text(&self) -> (r: &'static str)
        ensures
            r@ == self.spec_item_text(),
    {
        match self {
            CanTpChannelMode::FullDuplex => "FULL-DUPLEX-MODE",
            CanTpChannelMode::HalfDuplex => "HALF-DUPLEX-MODE",
        }
    }

    /// the value that an XML text represents
    pub fn from_item_text(text: &str) -> (r: Result<Self, AutosarAbstractionError>)
        ensures
            match Self::spec_from_item_text(text@) {
                Some(v) => r == Ok::<Self, AutosarAbstractionError>(v),
                None => r matches Err(e) && is_value_conversion_error(e, text@, "CanTpChannelMode"@),
            },
    {
        if text_equals(text, "FULL-DUPLEX-MODE") {
            Ok(CanTpChannelMode::FullDuplex)
        } else if text_equals(text, "HALF-DUPLEX-MODE") {
            Ok(CanTpChannelMode::HalfDuplex)
        } else {
            Err(AutosarAbstractionError::ValueConversionError { value: text.to_owned(), dest: "CanTpChannelMode".to_owned() })
        }
    }
}

impl TryFrom<EnumItem> for CanTpChannelMode {
    type Error = AutosarAbstractionError;

    fn try_from(value: EnumItem) -> (r: Result<Self, Self::Error>)
        ensures
            match Self::spec_from_item_text(spec_enum_item_text(value)) {
                Some(v) => r == Ok::<Self, AutosarAbstractionError>(v),
                None => r matches Err(e) && is_value_conversion_error(e, spec_enum_item_text(value), "CanTpChannelMode"@),
            },
    {
        let text = enum_item_to_text(value);
        CanTpChannelMode::from_item_text(&text)
    }
}

impl TryFromSpecImpl<EnumItem> for CanTpChannelMode {
    open spec fn obeys_try_from_spec() -> bool {
        false
    }

    open spec fn try_from_spec(v: EnumItem) -> Result<Self, AutosarAbstractionError> {
        arbitrary()
    }
}

impl From<CanTpChannelMode> for EnumItem {
    fn from(value: CanTpChannelMode) -> (r: EnumItem)
        ensures
            spec_enum_item_text(r) == value.spec_item_text(),
    {
        can_tp_channel_mode_item(value)
    }
}

impl FromSpecImpl<CanTpChannelMode> for EnumItem {
    open spec fn obeys_from_spec() -> bool {
        false
    }

    open spec fn from_spec(v: CanTpChannelMode) -> EnumItem {
        arbitrary()
    }
}

/// The XML text of a value of `CanTpChannelMode` gives back the value.
pub proof fn lemma_can_tp_channel_mode_roundtrip(v: CanTpChannelMode)
    ensures
        CanTpChannelMode::spec_from_item_text(v.spec_item_text()) == Some(v),
{
    reveal_strlit("FULL-DUPLEX-MODE");
    reveal_strlit("HALF-DUPLEX-MODE");
    match v {
        CanTpChannelMode::FullDuplex => {
        },
        CanTpChannelMode::HalfDuplex => {
            assert("HALF-DUPLEX-MODE"@[0] != "FULL-DUPLEX-MODE"@[0]);
        },
    }
}

//#########################################################

/// The addressing format of a `CanTpConnection`
#[derive(Debug, Clone, Copy, PartialEq, Eq, Hash, Structural)]
pub enum CanTpAddressingFormat {
    /// Extended addressing format
    Extended,
    /// Mixed 11-bit addressing format
    Mixed,
    /// Mixed 29-bit addressing format
    Mixed29Bit,
    /// Normal fixed addressing format
    NormalFixed,
    /// Standard addressing format
    Standard,
}

impl CanTpAddressingFormat {
    /// the XML text that represents the value in the model
    pub open spec fn spec_item_text(self) -> Seq<char> {
        match self {
            CanTpAddressingFormat::Extended => "EXTENDED"@,
            CanTpAddressingFormat::Mixed => "MIXED"@,
            CanTpAddressingFormat::Mixed29Bit => "MIXED-29-BIT"@,
            CanTpAddressingFormat::NormalFixed => "NORMALFIXED"@,
            CanTpAddressingFormat::Standard => "STANDARD"@,
        }
    }

    /// the value that an XML text represents, if there is one
    pub open spec fn spec_from_item_text(text: Seq<char>) -> Option<Self> {
        if text == "EXTENDED"@ {
            Some(CanTpAddressingFormat::Extended)
        } else if text == "MIXED"@ {
            Some(CanTpAddressingFormat::Mixed)
        } else if text == "MIXED-29-BIT"@ {
            Some(CanTpAddressingFormat::Mixed29Bit)
        } else if text == "NORMALFIXED"@ {
            Some(CanTpAddressingFormat::NormalFixed)
        } else if text == "STANDARD"@ {
            Some(CanTpAddressingFormat::Standard)
        } else {
            None
        }
    }

    /// the XML text that represents the value in the model
    pub fn item_text(&self) -> (r: &'static str)
        ensures
            r@ == self.spec_item_text(),
    {
        match self {
            CanTpAddressingFormat::Extended => "EXTENDED",
            CanTpAddressingFormat::Mixed => "MIXED",
            CanTpAddressingFormat::Mixed29Bit => "MIXED-29-BIT",
            CanTpAddressingFormat::NormalFixed => "NORMALFIXED",
            CanTpAddressingFormat::Standard => "STANDARD",
        }
    }

    /// the value that an XML text represents
    pub fn from_item_text(text: &str) -> (r: Result<Self, AutosarAbstractionError>)
        ensures
            match Self::spec_from_item_text(text@) {
                Some(v) => r == Ok::<Self, AutosarAbstractionError>(v),
                None => r matches Err(e) && is_value_conversion_error(e, text@, "CanTpAddressingFormat"@),
            },
    {
        if text_equals(text, "EXTENDED") {
            Ok(CanTpAddressingFormat::Extended)
        } else if text_equals(text, "MIXED") {
            Ok(CanTpAddressingFormat::Mixed)
        } else if text_equals(text, "MIXED-29-BIT") {
            Ok(CanTpAddressingFormat::Mixed29Bit)
        } else if text_equals(text, "NORMALFIXED") {
            Ok(CanTpAddressingFormat::NormalFixed)
        } else if text_equals(text, "STANDARD") {
            Ok(CanTpAddressingFormat::Standard)
        } else {
            Err(AutosarAbstractionError::ValueConversionError { value: text.to_owned(), dest: "CanTpAddressingFormat".to_owned() })
        }
    }
}

impl TryFrom<EnumItem> for CanTpAddressingFormat {
    type Error = AutosarAbstractionError;

    fn try_from(value: EnumItem) -> (r: Result<Self, Self::Error>)
        ensures
            match Self::spec_from_item_text(spec_enum_item_text(value)) {
                Some(v) => r == Ok::<Self, AutosarAbstractionError>(v),
                None => r matches Err(e) && is_value_conversion_error(e, spec_enum_item_text(value), "CanTpAddressingFormat"@),
            },
    {
        let text = enum_item_to_text(value);
        CanTpAddressingFormat::from_item_text(&text)
    }
}

impl TryFromSpecImpl<EnumItem> for CanTpAddressingFormat {
    open spec fn obeys_try_from_spec() -> bool {
        false
    }

    open spec fn try_from_spec(v: EnumItem) -> Result<Self, AutosarAbstractionError> {
        arbitrary()
    }
}

impl From<CanTpAddressingFormat> for EnumItem {
    fn from(value: CanTpAddressingFormat) -> (r: EnumItem)
        ensures
            spec_enum_item_text(r) == value.spec_item_text(),
    {
        can_tp_addressing_format_item(value)
    }
}

impl FromSpecImpl<CanTpAddressingFormat> for EnumItem {
    open spec fn obeys_from_spec() -> bool {
        false
    }

    open spec fn from_spec(v: CanTpAddressingFormat) -> EnumItem {
        arbitrary()
    }
}

/// The XML text of a value of `CanTpAddressingFormat` gives back the value.
pub proof fn lemma_can_tp_addressing_format_roundtrip(v: CanTpAddressingFormat)
    ensures
        CanTpAddressingFormat::spec_from_item_text(v.spec_item_text()) == Some(v),
{
    reveal_strlit("EXTENDED");
    reveal_strlit("MIXED");
    reveal_strlit("MIXED-29-BIT");
    reveal_strlit("NORMALFIXED");
    reveal_strlit("STANDARD");
    match v {
        CanTpAddressingFormat::Extended => {
        },
        CanTpAddressingFormat::Mixed => {
            assert("MIXED"@.len() != "EXTENDED"@.len());
        },
        CanTpAddressingFormat::Mixed29Bit => {
            assert("MIXED-29-BIT"@.len() != "EXTENDED"@.len());
            assert("MIXED-29-BIT"@.len() != "MIXED"@.len());
        },
        CanTpAddressingFormat::NormalFixed => {
            assert("NORMALFIXED"@.len() != "EXTENDED"@.len());
            assert("NORMALFIXED"@.len() != "MIXED"@.len());
            assert("NORMALFIXED"@.len() != "MIXED-29-BIT"@.len());
        },
        CanTpAddressingFormat::Standard => {
            assert("STANDARD"@[0] != "EXTENDED"@[0]);
            assert("STANDARD"@.len() != "MIXED"@.len());
            assert("STANDARD"@.len() != "MIXED-29-BIT"@.len());
            assert("STANDARD"@.len() != "NORMALFIXED"@.len());
        },
    }
}

//#########################################################

/// Represents an ECUs transport layer address on the referenced channel
///
/// The `TpAddress` element is used by `FlexrayArTpConfig` and `FlexrayTpConfig`
#[derive(Debug, Clone, PartialEq, Eq, Hash)]
pub struct TpAddress(Element);

impl AbstractionElement for TpAddress {
    closed spec fn spec_element(&self) -> Element {
        self.0
    }

    fn element(&self) -> (r: &Element) {
        proof {
            assert(self.spec_element() == self.0);
        }
        &self.0
    }
}

impl TpAddress {
    /// wrap an element of the model whose element name is `TP-ADDRESS`
    pub fn from_element(element: Element) -> (r: Result<Self, AutosarAbstractionError>)
        ensures
            r is Ok <==> spec_element_name(element) == "TP-ADDRESS"@,
            r matches Ok(x) ==> x.spec_element() == element,
            r matches Err(e) ==> is_conversion_error(e, element, "TpAddress"@),
    {
        if has_element_name(&element, "TP-ADDRESS") {
            Ok(TpAddress(element))
        } else {
            Err(AutosarAbstractionError::ConversionError { element, dest: "TpAddress".to_owned() })
        }
    }
}

impl TryFrom<Element> for TpAddress {
    type Error = AutosarAbstractionError;

    fn try_from(element: Element) -> (r: Result<Self, Self::Error>)
        ensures
            r is Ok <==> spec_element_name(element) == "TP-ADDRESS"@,
            r matches Ok(x) ==> x.spec_element() == element,
            r matches Err(e) ==> is_conversion_error(e, element, "TpAddress"@),
    {
        TpAddress::from_element(element)
    }
}

impl TryFromSpecImpl<Element> for TpAddress {
    open spec fn obeys_try_from_spec() -> bool {
        false
    }

    open spec fn try_from_spec(v: Element) -> Result<Self, AutosarAbstractionError> {
        arbitrary()
    }
}

impl From<TpAddress> for Element {
    fn from(value: TpAddress) -> (r: Element)
        ensures
            r == value.spec_element(),
    {
        value.0
    }
}

impl FromSpecImpl<TpAddress> for Element {
    open spec fn obeys_from_spec() -> bool {
        false
    }

    open spec fn from_spec(v: TpAddress) -> Element {
        arbitrary()
    }
}

impl IdentifiableAbstractionElement for TpAddress {}

impl TpAddress {
    /// create a new `TpAddress` below `parent`
    pub(crate) fn new(name: &str, parent: &Element, address: u32) -> (r: Result<Self, AutosarAbstractionError>)
        ensures
            r matches Ok(x) ==> spec_element_name(x.spec_element()) == "TP-ADDRESS"@,
            r matches Err(e) ==> e is ModelError || e is InvalidParameter,
    {
        let elem = create_named_sub_element(parent, "TP-ADDRESS", name)?;
        let tp_address = Self(elem);
        tp_address.set_address(address)?;
        Ok(tp_address)
    }

    /// set the value of the address
    pub fn set_address(&self, address: u32) -> (r: Result<(), AutosarAbstractionError>)
        ensures
            r matches Err(e) ==> is_model_or_name_error(e, "TP-ADDRESS"@),
    {
        set_u32_value(self.element(), "TP-ADDRESS", address)
    }

    /// get the value of the address
    pub fn address(&self) -> Option<u32> {
        sub_element_u32(self.element(), "TP-ADDRESS")
    }
}

} // verus!
