//! PDUs as far as the transport protocols refer to them: the `NPdu` that carries the data
//! and the `IPdu` that is transported.

use vstd::prelude::*;
use autosar_data::Element;
use vstd::std_specs::convert::{FromSpecImpl, TryFromSpecImpl};
use crate::{
    AbstractionElement, AutosarAbstractionError, IdentifiableAbstractionElement, has_element_name, is_conversion_error,
};
use crate::elements::{element_name, spec_element_name};
use crate::text::text_equals;

verus! {

/// An `NPdu`: the PDU of a transport protocol that is sent over the network
#[derive(Debug, Clone, PartialEq, Eq, Hash)]
pub struct NPdu(Element);

impl AbstractionElement for NPdu {
    closed spec fn spec_element(&self) -> Element {
        self.0
    }

    fn element(&self) -> (r: &Element) {
        proof {
            assert(self.spec_element() == self.0);
        }
        &self.0
    }
}

impl NPdu {
    /// wrap an element of the model whose element name is `N-PDU`
    pub fn from_element(element: Element) -> (r: Result<Self, AutosarAbstractionError>)
        ensures
            r is Ok <==> spec_element_name(element) == "N-PDU"@,
            r matches Ok(x) ==> x.spec_element() == element,
            r matches Err(e) ==> is_conversion_error(e, element, "NPdu"@),
    {
        if has_element_name(&element, "N-PDU") {
            Ok(NPdu(element))
        } else {
            Err(AutosarAbstractionError::ConversionError { element, dest: "NPdu".to_owned() })
        }
    }
}

impl TryFrom<Element> for NPdu {
    type Error = AutosarAbstractionError;

    fn try_from(element: Element) -> (r: Result<Self, Self::Error>)
        ensures
            r is Ok <==> spec_element_name(element) == "N-PDU"@,
            r matches Ok(x) ==> x.spec_element() == element,
            r matches Err(e) ==> is_conversion_error(e, element, "NPdu"@),
    {
        NPdu::from_element(element)
    }
}

impl TryFromSpecImpl<Element> for NPdu {
    open spec fn obeys_try_from_spec() -> bool {
        false
    }

    open spec fn try_from_spec(v: Element) -> Result<Self, AutosarAbstractionError> {
        arbitrary()
    }
}

impl From<NPdu> for Element {
    fn from(value: NPdu) -> (r: Element)
        ensures
            r == value.spec_element(),
    {
        value.0
    }
}

impl FromSpecImpl<NPdu> for Element {
    open spec fn obeys_from_spec() -> bool {
        false
    }

    open spec fn from_spec(v: NPdu) -> Element {
        arbitrary()
    }
}

impl IdentifiableAbstractionElement for NPdu {}

//#########################################################

/// the element names of the kinds of I-PDU
pub open spec fn is_ipdu_element_name(name: Seq<char>) -> bool {
    ||| name == "I-SIGNAL-I-PDU"@
    ||| name == "DCM-I-PDU"@
    ||| name == "GENERAL-PURPOSE-I-PDU"@
    ||| name == "CONTAINER-I-PDU"@
    ||| name == "SECURED-I-PDU"@
    ||| name == "MULTIPLEXED-I-PDU"@
}

/// An `IPdu` of any kind: an I-signal, DCM, general purpose, container, secured or multiplexed I-PDU
#[derive(Debug, Clone, PartialEq, Eq, Hash)]
pub struct IPdu(Element);

impl AbstractionElement for IPdu {
    closed spec fn spec_element(&self) -> Element {
        self.0
    }

    fn element(&self) -> (r: &Element) {
        proof {
            assert(self.spec_element() == self.0);
        }
        &self.0
    }
}

impl IPdu {
    /// wrap an element of the model whose element name is that of a kind of I-PDU
    pub fn from_element(element: Element) -> (r: Result<Self, AutosarAbstractionError>)
        ensures
            r is Ok <==> is_ipdu_element_name(spec_element_name(element)),
            r matches Ok(x) ==> x.spec_element() == element,
            r matches Err(e) ==> is_conversion_error(e, element, "IPdu"@),
    {
        let name = element_name(&element);
        if text_equals(&name, "I-SIGNAL-I-PDU") || text_equals(&name, "DCM-I-PDU") || text_equals(
            &name,
            "GENERAL-PURPOSE-I-PDU",
        ) || text_equals(&name, "CONTAINER-I-PDU") || text_equals(&name, "SECURED-I-PDU") || text_equals(
            &name,
            "MULTIPLEXED-I-PDU",
        ) {
            Ok(IPdu(element))
        } else {
            Err(AutosarAbstractionError::ConversionError { element, dest: "IPdu".to_owned() })
        }
    }
}

impl TryFrom<Element> for IPdu {
    type Error = AutosarAbstractionError;

    fn try_from(element: Element) -> (r: Result<Self, Self::Error>)
        ensures
            r is Ok <==> is_ipdu_element_name(spec_element_name(element)),
            r matches Ok(x) ==> x.spec_element() == element,
            r matches Err(e) ==> is_conversion_error(e, element, "IPdu"@),
    {
        IPdu::from_element(element)
    }
}

impl TryFromSpecImpl<Element> for IPdu {
    open spec fn obeys_try_from_spec() -> bool {
        false
    }

    open spec fn try_from_spec(v: Element) -> Result<Self, AutosarAbstractionError> {
        arbitrary()
    }
}

impl From<IPdu> for Element {
    fn from(value: IPdu) -> (r: Element)
        ensures
            r == value.spec_element(),
    {
        value.0
    }
}

impl FromSpecImpl<IPdu> for Element {
    open spec fn obeys_from_spec() -> bool {
        false
    }

    open spec fn from_spec(v: IPdu) -> Element {
        arbitrary()
    }
}

impl IdentifiableAbstractionElement for IPdu {}

//#########################################################

/// An `ISignalIPdu`: an I-PDU that carries signals
#[derive(Debug, Clone, PartialEq, Eq, Hash)]
pub struct ISignalIPdu(Element);

impl AbstractionElement for ISignalIPdu {
    closed spec fn spec_element(&self) -> Element {
        self.0
    }

    fn element(&self) -> (r: &Element) {
        proof {
            assert(self.spec_element() == self.0);
        }
        &self.0
    }
}

impl ISignalIPdu {
    /// wrap an element of the model whose element name is `I-SIGNAL-I-PDU`
    pub fn from_element(element: Element) -> (r: Result<Self, AutosarAbstractionError>)
        ensures
            r is Ok <==> spec_element_name(element) == "I-SIGNAL-I-PDU"@,
            r matches Ok(x) ==> x.spec_element() == element,
            r matches Err(e) ==> is_conversion_error(e, element, "ISignalIPdu"@),
    {
        if has_element_name(&element, "I-SIGNAL-I-PDU") {
            Ok(ISignalIPdu(element))
        } else {
            Err(AutosarAbstractionError::ConversionError { element, dest: "ISignalIPdu".to_owned() })
        }
    }
}

impl TryFrom<Element> for ISignalIPdu {
    type Error = AutosarAbstractionError;

    fn try_from(element: Element) -> (r: Result<Self, Self::Error>)
        ensures
            r is Ok <==> spec_element_name(element) == "I-SIGNAL-I-PDU"@,
            r matches Ok(x) ==> x.spec_element() == element,
            r matches Err(e) ==> is_conversion_error(e, element, "ISignalIPdu"@),
    {
        ISignalIPdu::from_element(element)
    }
}

impl TryFromSpecImpl<Element> for ISignalIPdu {
    open spec fn obeys_try_from_spec() -> bool {
        false
    }

    open spec fn try_from_spec(v: Element) -> Result<Self, AutosarAbstractionError> {
        arbitrary()
    }
}

impl From<ISignalIPdu> for Element {
    fn from(value: ISignalIPdu) -> (r: Element)
        ensures
            r == value.spec_element(),
    {
        value.0
    }
}

impl FromSpecImpl<ISignalIPdu> for Element {
    open spec fn obeys_from_spec() -> bool {
        false
    }

    open spec fn from_spec(v: ISignalIPdu) -> Element {
        arbitrary()
    }
}

impl IdentifiableAbstractionElement for ISignalIPdu {}

} // verus!
