//! ECU instances: the ECUs of a system.

use vstd::prelude::*;
use autosar_data::Element;
use vstd::std_specs::convert::{FromSpecImpl, TryFromSpecImpl};
use crate::{
    AbstractionElement, ArPackage, AutosarAbstractionError, IdentifiableAbstractionElement, get_reference_parents,
    has_element_name, is_conversion_error, remove_element,
};
use crate::elements::{create_named_sub_element, get_or_create_sub_element, spec_element_name};

verus! {

/// The `EcuInstance` represents one ECU in a `System`
#[derive(Debug, Clone, PartialEq, Eq, Hash)]
pub struct EcuInstance(Element);

impl AbstractionElement for EcuInstance {
    closed spec fn spec_element(&self) -> Element {
        self.0
    }

    fn element(&self) -> (r: &Element) {
        proof {
            assert(self.spec_element() == self.0);
        }
        &self.0
    }
}

impl EcuInstance {
    /// wrap an element of the model whose element name is `ECU-INSTANCE`
    pub fn from_element(element: Element) -> (r: Result<Self, AutosarAbstractionError>)
        ensures
            r is Ok <==> spec_element_name(element) == "ECU-INSTANCE"@,
            r matches Ok(x) ==> x.spec_element() == element,
            r matches Err(e) ==> is_conversion_error(e, element, "EcuInstance"@),
    {
        if has_element_name(&element, "ECU-INSTANCE") {
            Ok(EcuInstance(element))
        } else {
            Err(AutosarAbstractionError::ConversionError { element, dest: "EcuInstance".to_owned() })
        }
    }
}

impl TryFrom<Element> for EcuInstance {
    type Error = AutosarAbstractionError;

    fn try_from(element: Element) -> (r: Result<Self, Self::Error>)
        ensures
            r is Ok <==> spec_element_name(element) == "ECU-INSTANCE"@,
            r matches Ok(x) ==> x.spec_element() == element,
            r matches Err(e) ==> is_conversion_error(e, element, "EcuInstance"@),
    {
        EcuInstance::from_element(element)
    }
}

impl TryFromSpecImpl<Element> for EcuInstance {
    open spec fn obeys_try_from_spec() -> bool {
        false
    }

    open spec fn try_from_spec(v: Element) -> Result<Self, AutosarAbstractionError> {
        arbitrary()
    }
}

impl From<EcuInstance> for Element {
    fn from(value: EcuInstance) -> (r: Element)
        ensures
            r == value.spec_element(),
    {
        value.0
    }
}

impl FromSpecImpl<EcuInstance> for Element {
    open spec fn obeys_from_spec() -> bool {
        false
    }

    open spec fn from_spec(v: EcuInstance) -> Element {
        arbitrary()
    }
}

impl IdentifiableAbstractionElement for EcuInstance {}

impl EcuInstance {
    /// Create a new `EcuInstance` in the package.
    ///
    /// This new `EcuInstance` is not connected to a system.
    pub fn new(name: &str, package: &ArPackage) -> (r: Result<EcuInstance, AutosarAbstractionError>)
        ensures
            r matches Ok(ecu) ==> spec_element_name(ecu.spec_element()) == "ECU-INSTANCE"@,
            r matches Err(e) ==> e is ModelError || e is InvalidParameter,
    {
        let elem_pkg_elements = get_or_create_sub_element(package.element(), "ELEMENTS")?;
        let elem_ecu_instance = create_named_sub_element(&elem_pkg_elements, "ECU-INSTANCE", name)?;
        Ok(EcuInstance(elem_ecu_instance))
    }

    /// remove this `EcuInstance` from the model
    ///
    /// The communication controllers of the ECU go with it. The `NmEcu`, `CanTpEcu` and
    /// `FlexrayTpEcu` elements that refer to the ECU are removed as well.
    pub fn remove(self, deep: bool) -> (r: Result<(), AutosarAbstractionError>)
        ensures
            r matches Err(e) ==> e is ModelError || e is InvalidParameter,
    {
        let ref_parents = get_reference_parents(&self.0)?;
        remove_element(&self.0)?;
        for i in 0..ref_parents.len() {
            let parent = &ref_parents[i].1;
            if has_element_name(parent, "NM-ECU") || has_element_name(parent, "CAN-TP-ECU") || has_element_name(
                parent,
                "FLEXRAY-TP-ECU",
            ) {
                remove_element(parent)?;
            }
        }
        Ok(())
    }
}

} // verus!
