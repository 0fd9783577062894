//! Communication clusters, as far as the transport protocol configurations refer to them.

use vstd::prelude::*;
use autosar_data::Element;
use vstd::std_specs::convert::{FromSpecImpl, TryFromSpecImpl};
use crate::{
    AbstractionElement, AutosarAbstractionError, IdentifiableAbstractionElement, has_element_name, is_conversion_error,
};
use crate::elements::{element_name, spec_element_name};
use crate::text::text_equals;

verus! {

/// A CAN cluster: the communication network that CAN physical channels belong to
#[derive(Debug, Clone, PartialEq, Eq, Hash)]
pub struct CanCluster(Element);

impl AbstractionElement for CanCluster {
    closed spec fn spec_element(&self) -> Element {
        self.0
    }

    fn element(&self) -> (r: &Element) {
        proof {
            assert(self.spec_element() == self.0);
        }
        &self.0
    }
}

impl CanCluster {
    /// wrap an element of the model whose element name is `CAN-CLUSTER`
    pub fn from_element(element: Element) -> (r: Result<Self, AutosarAbstractionError>)
        ensures
            r is Ok <==> spec_element_name(element) == "CAN-CLUSTER"@,
            r matches Ok(x) ==> x.spec_element() == element,
            r matches Err(e) ==> is_conversion_error(e, element, "CanCluster"@),
    {
        if has_element_name(&element, "CAN-CLUSTER") {
            Ok(CanCluster(element))
        } else {
            Err(AutosarAbstractionError::ConversionError { element, dest: "CanCluster".to_owned() })
        }
    }
}

impl TryFrom<Element> for CanCluster {
    type Error = AutosarAbstractionError;

    fn try_from(element: Element) -> (r: Result<Self, Self::Error>)
        ensures
            r is Ok <==> spec_element_name(element) == "CAN-CLUSTER"@,
            r matches Ok(x) ==> x.spec_element() == element,
            r matches Err(e) ==> is_conversion_error(e, element, "CanCluster"@),
    {
        CanCluster::from_element(element)
    }
}

impl TryFromSpecImpl<Element> for CanCluster {
    open spec fn obeys_try_from_spec() -> bool {
        false
    }

    open spec fn try_from_spec(v: Element) -> Result<Self, AutosarAbstractionError> {
        arbitrary()
    }
}

impl From<CanCluster> for Element {
    fn from(value: CanCluster) -> (r: Element)
        ensures
            r == value.spec_element(),
    {
        value.0
    }
}

impl FromSpecImpl<CanCluster> for Element {
    open spec fn obeys_from_spec() -> bool {
        false
    }

    open spec fn from_spec(v: CanCluster) -> Element {
        arbitrary()
    }
}

impl IdentifiableAbstractionElement for CanCluster {}

//#########################################################

/// A `FlexRay` cluster: the communication network that `FlexRay` physical channels belong to
#[derive(Debug, Clone, PartialEq, Eq, Hash)]
pub struct FlexrayCluster(Element);

impl AbstractionElement for FlexrayCluster {
    closed spec fn spec_element(&self) -> Element {
        self.0
    }

    fn element(&self) -> (r: &Element) {
        proof {
            assert(self.spec_element() == self.0);
        }
        &self.0
    }
}

impl FlexrayCluster {
    /// wrap an element of the model whose element name is `FLEXRAY-CLUSTER`
    pub fn from_element(element: Element) -> (r: Result<Self, AutosarAbstractionError>)
        ensures
            r is Ok <==> spec_element_name(element) == "FLEXRAY-CLUSTER"@,
            r matches Ok(x) ==> x.spec_element() == element,
            r matches Err(e) ==> is_conversion_error(e, element, "FlexrayCluster"@),
    {
        if has_element_name(&element, "FLEXRAY-CLUSTER") {
            Ok(FlexrayCluster(element))
        } else {
            Err(AutosarAbstractionError::ConversionError { element, dest: "FlexrayCluster".to_owned() })
        }
    }
}

impl TryFrom<Element> for FlexrayCluster {
    type Error = AutosarAbstractionError;

    fn try_from(element: Element) -> (r: Result<Self, Self::Error>)
        ensures
            r is Ok <==> spec_element_name(element) == "FLEXRAY-CLUSTER"@,
            r matches Ok(x) ==> x.spec_element() == element,
            r matches Err(e) ==> is_conversion_error(e, element, "FlexrayCluster"@),
    {
        FlexrayCluster::from_element(element)
    }
}

impl TryFromSpecImpl<Element> for FlexrayCluster {
    open spec fn obeys_try_from_spec() -> bool {
        false
    }

    open spec fn try_from_spec(v: Element) -> Result<Self, AutosarAbstractionError> {
        arbitrary()
    }
}

impl From<FlexrayCluster> for Element {
    fn from(value: FlexrayCluster) -> (r: Element)
        ensures
            r == value.spec_element(),
    {
        value.0
    }
}

impl FromSpecImpl<FlexrayCluster> for Element {
    open spec fn obeys_from_spec() -> bool {
        false
    }

    open spec fn from_spec(v: FlexrayCluster) -> Element {
        arbitrary()
    }
}

impl IdentifiableAbstractionElement for FlexrayCluster {}

//#########################################################

/// the element names of the kinds of cluster
pub open spec fn is_cluster_element_name(name: Seq<char>) -> bool {
    ||| name == "CAN-CLUSTER"@
    ||| name == "ETHERNET-CLUSTER"@
    ||| name == "FLEXRAY-CLUSTER"@
    ||| name == "LIN-CLUSTER"@
}

/// A communication cluster of any kind: CAN, Ethernet, `FlexRay` or LIN
#[derive(Debug, Clone, PartialEq, Eq, Hash)]
pub struct Cluster(Element);

impl AbstractionElement for Cluster {
    closed spec fn spec_element(&self) -> Element {
        self.0
    }

    fn element(&self) -> (r: &Element) {
        proof {
            assert(self.spec_element() == self.0);
        }
        &self.0
    }
}

impl Cluster {
    /// wrap an element of the model whose element name is that of a kind of cluster
    pub fn from_element(element: Element) -> (r: Result<Self, AutosarAbstractionError>)
        ensures
            r is Ok <==> is_cluster_element_name(spec_element_name(element)),
            r matches Ok(x) ==> x.spec_element() == element,
            r matches Err(e) ==> is_conversion_error(e, element, "Cluster"@),
    {
        let name = element_name(&element);
        if text_equals(&name, "CAN-CLUSTER") || text_equals(&name, "ETHERNET-CLUSTER") || text_equals(
            &name,
            "FLEXRAY-CLUSTER",
        ) || text_equals(&name, "LIN-CLUSTER") {
            Ok(Cluster(element))
        } else {
            Err(AutosarAbstractionError::ConversionError { element, dest: "Cluster".to_owned() })
        }
    }
}

impl TryFrom<Element> for Cluster {
    type Error = AutosarAbstractionError;

    fn try_from(element: Element) -> (r: Result<Self, Self::Error>)
        ensures
            r is Ok <==> is_cluster_element_name(spec_element_name(element)),
            r matches Ok(x) ==> x.spec_element() == element,
            r matches Err(e) ==> is_conversion_error(e, element, "Cluster"@),
    {
        Cluster::from_element(element)
    }
}

impl TryFromSpecImpl<Element> for Cluster {
    open spec fn obeys_try_from_spec() -> bool {
        false
    }

    open spec fn try_from_spec(v: Element) -> Result<Self, AutosarAbstractionError> {
        arbitrary()
    }
}

impl From<Cluster> for Element {
    fn from(value: Cluster) -> (r: Element)
        ensures
            r == value.spec_element(),
    {
        value.0
    }
}

impl FromSpecImpl<Cluster> for Element {
    open spec fn obeys_from_spec() -> bool {
        false
    }

    open spec fn from_spec(v: Cluster) -> Element {
        arbitrary()
    }
}

impl IdentifiableAbstractionElement for Cluster {}

} // verus!
