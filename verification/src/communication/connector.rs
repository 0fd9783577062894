//! Communication connectors of CAN and `FlexRay`: the link between an ECU and a physical channel.

use vstd::prelude::*;
use autosar_data::Element;
use vstd::std_specs::convert::{FromSpecImpl, TryFromSpecImpl};
use crate::{
    AbstractionElement, AutosarAbstractionError, IdentifiableAbstractionElement, has_element_name, is_conversion_error,
};
use crate::elements::spec_element_name;

verus! {

/// The connector between an ECU and a CAN physical channel
#[derive(Debug, Clone, PartialEq, Eq, Hash)]
pub struct CanCommunicationConnector(Element);

impl AbstractionElement for CanCommunicationConnector {
    closed spec fn spec_element(&self) -> Element {
        self.0
    }

    fn element(&self) -> (r: &Element) {
        proof {
            assert(self.spec_element() == self.0);
        }
        &self.0
    }
}

impl CanCommunicationConnector {
    /// wrap an element of the model whose element name is `CAN-COMMUNICATION-CONNECTOR`
    pub fn from_element(element: Element) -> (r: Result<Self, AutosarAbstractionError>)
        ensures
            r is Ok <==> spec_element_name(element) == "CAN-COMMUNICATION-CONNECTOR"@,
            r matches Ok(x) ==> x.spec_element() == element,
            r matches Err(e) ==> is_conversion_error(e, element, "CanCommunicationConnector"@),
    {
        if has_element_name(&element, "CAN-COMMUNICATION-CONNECTOR") {
            Ok(CanCommunicationConnector(element))
        } else {
            Err(AutosarAbstractionError::ConversionError { element, dest: "CanCommunicationConnector".to_owned() })
        }
    }
}

impl TryFrom<Element> for CanCommunicationConnector {
    type Error = AutosarAbstractionError;

    fn try_from(element: Element) -> (r: Result<Self, Self::Error>)
        ensures
            r is Ok <==> spec_element_name(element) == "CAN-COMMUNICATION-CONNECTOR"@,
            r matches Ok(x) ==> x.spec_element() == element,
            r matches Err(e) ==> is_conversion_error(e, element, "CanCommunicationConnector"@),
    {
        CanCommunicationConnector::from_element(element)
    }
}

impl TryFromSpecImpl<Element> for CanCommunicationConnector {
    open spec fn obeys_try_from_spec() -> bool {
        false
    }

    open spec fn try_from_spec(v: Element) -> Result<Self, AutosarAbstractionError> {
        arbitrary()
    }
}

impl From<CanCommunicationConnector> for Element {
    fn from(value: CanCommunicationConnector) -> (r: Element)
        ensures
            r == value.spec_element(),
    {
        value.0
    }
}

impl FromSpecImpl<CanCommunicationConnector> for Element {
    open spec fn obeys_from_spec() -> bool {
        false
    }

    open spec fn from_spec(v: CanCommunicationConnector) -> Element {
        arbitrary()
    }
}

impl IdentifiableAbstractionElement for CanCommunicationConnector {}

//#########################################################

/// The connector between an ECU and a `FlexRay` physical channel
#[derive(Debug, Clone, PartialEq, Eq, Hash)]
pub struct FlexrayCommunicationConnector(Element);

impl AbstractionElement for FlexrayCommunicationConnector {
    closed spec fn spec_element(&self) -> Element {
        self.0
    }

    fn element(&self) -> (r: &Element) {
        proof {
            assert(self.spec_element() == self.0);
        }
        &self.0
    }
}

impl FlexrayCommunicationConnector {
    /// wrap an element of the model whose element name is `FLEXRAY-COMMUNICATION-CONNECTOR`
    pub fn from_element(element: Element) -> (r: Result<Self, AutosarAbstractionError>)
        ensures
            r is Ok <==> spec_element_name(element) == "FLEXRAY-COMMUNICATION-CONNECTOR"@,
            r matches Ok(x) ==> x.spec_element() == element,
            r matches Err(e) ==> is_conversion_error(e, element, "FlexrayCommunicationConnector"@),
    {
        if has_element_name(&element, "FLEXRAY-COMMUNICATION-CONNECTOR") {
            Ok(FlexrayCommunicationConnector(element))
        } else {
            Err(AutosarAbstractionError::ConversionError { element, dest: "FlexrayCommunicationConnector".to_owned() })
        }
    }
}

impl TryFrom<Element> for FlexrayCommunicationConnector {
    type Error = AutosarAbstractionError;

    fn try_from(element: Element) -> (r: Result<Self, Self::Error>)
        ensures
            r is Ok <==> spec_element_name(element) == "FLEXRAY-COMMUNICATION-CONNECTOR"@,
            r matches Ok(x) ==> x.spec_element() == element,
            r matches Err(e) ==> is_conversion_error(e, element, "FlexrayCommunicationConnector"@),
    {
        FlexrayCommunicationConnector::from_element(element)
    }
}

impl TryFromSpecImpl<Element> for FlexrayCommunicationConnector {
    open spec fn obeys_try_from_spec() -> bool {
        false
    }

    open spec fn try_from_spec(v: Element) -> Result<Self, AutosarAbstractionError> {
        arbitrary()
    }
}

impl From<FlexrayCommunicationConnector> for Element {
    fn from(value: FlexrayCommunicationConnector) -> (r: Element)
        ensures
            r == value.spec_element(),
    {
        value.0
    }
}

impl FromSpecImpl<FlexrayCommunicationConnector> for Element {
    open spec fn obeys_from_spec() -> bool {
        false
    }

    open spec fn from_spec(v: FlexrayCommunicationConnector) -> Element {
        arbitrary()
    }
}

impl IdentifiableAbstractionElement for FlexrayCommunicationConnector {}

} // verus!
