//! Service discovery configurations of SOME/IP service instances and event groups.
//!
//! These configurations are named elements that many service instances can share. Their
//! floating point delays are read and written outside this library.

use vstd::prelude::*;
use crate::elements::is_model_or_name_error;
use autosar_data::Element;
use vstd::std_specs::convert::{FromSpecImpl, TryFromSpecImpl};
use crate::{
    AbstractionElement, ArPackage, AutosarAbstractionError, IdentifiableAbstractionElement, has_element_name,
    is_conversion_error,
};
use crate::elements::{
    create_named_sub_element, create_sub_element, get_or_create_sub_element, get_reference_target, get_sub_element,
    set_character_data_u64, set_reference_target, spec_element_name,
};
use crate::values::{parse_u32, parse_u8, sub_element_cdata};

verus! {

/// create the reference chain `list` / `conditional` / `reference` below an element, to the target
pub(crate) fn add_conditional_reference(
    element: &Element,
    list: &str,
    conditional: &str,
    reference: &str,
    target: &Element,
) -> (r: Result<(), AutosarAbstractionError>)
    ensures
        r matches Err(e) ==> e is ModelError || e is InvalidParameter,
{
    let list_elem = get_or_create_sub_element(element, list)?;
    let cond_elem = create_sub_element(&list_elem, conditional)?;
    let ref_elem = create_sub_element(&cond_elem, reference)?;
    set_reference_target(&ref_elem, target)
}

/// the target of the first reference chain `list` / `conditional` / `reference` below an element
pub(crate) fn conditional_reference_target(element: &Element, list: &str, conditional: &str, reference: &str) -> Option<
    Element,
> {
    let list_elem = get_sub_element(element, list)?;
    let cond_elem = get_sub_element(&list_elem, conditional)?;
    let ref_elem = get_sub_element(&cond_elem, reference)?;
    match get_reference_target(&ref_elem) {
        Ok(target) => Some(target),
        Err(_) => None,
    }
}

/// A `SomeipSdServerServiceInstanceConfig` is a configuration for a `ProvidedServiceInstance`
///
/// This configuration is a named element that is created separately and can be used by multiple `ProvidedServiceInstance`s.
#[derive(Debug, Clone, PartialEq, Eq, Hash)]
pub struct SomeipSdServerServiceInstanceConfig(Element);

impl AbstractionElement for SomeipSdServerServiceInstanceConfig {
    closed spec fn spec_element(&self) -> Element {
        self.0
    }

    fn element(&self) -> (r: &Element) {
        proof {
            assert(self.spec_element() == self.0);
        }
        &self.0
    }
}

impl SomeipSdServerServiceInstanceConfig {
    /// wrap an element of the model whose element name is `SOMEIP-SD-SERVER-SERVICE-INSTANCE-CONFIG`
    pub fn from_element(element: Element) -> (r: Result<Self, AutosarAbstractionError>)
        ensures
            r is Ok <==> spec_element_name(element) == "SOMEIP-SD-SERVER-SERVICE-INSTANCE-CONFIG"@,
            r matches Ok(x) ==> x.spec_element() == element,
            r matches Err(e) ==> is_conversion_error(e, element, "SomeipSdServerServiceInstanceConfig"@),
    {
        if has_element_name(&element, "SOMEIP-SD-SERVER-SERVICE-INSTANCE-CONFIG") {
            Ok(SomeipSdServerServiceInstanceConfig(element))
        } else {
            Err(AutosarAbstractionError::ConversionError { element, dest: "SomeipSdServerServiceInstanceConfig".to_owned() })
        }
    }
}

impl TryFrom<Element> for SomeipSdServerServiceInstanceConfig {
    type Error = AutosarAbstractionError;

    fn try_from(element: Element) -> (r: Result<Self, Self::Error>)
        ensures
            r is Ok <==> spec_element_name(element) == "SOMEIP-SD-SERVER-SERVICE-INSTANCE-CONFIG"@,
            r matches Ok(x) ==> x.spec_element() == element,
            r matches Err(e) ==> is_conversion_error(e, element, "SomeipSdServerServiceInstanceConfig"@),
    {
        SomeipSdServerServiceInstanceConfig::from_element(element)
    }
}

impl TryFromSpecImpl<Element> for SomeipSdServerServiceInstanceConfig {
    open spec fn obeys_try_from_spec() -> bool {
        false
    }

    open spec fn try_from_spec(v: Element) -> Result<Self, AutosarAbstractionError> {
        arbitrary()
    }
}

impl From<SomeipSdServerServiceInstanceConfig> for Element {
    fn from(value: SomeipSdServerServiceInstanceConfig) -> (r: Element)
        ensures
            r == value.spec_element(),
    {
        value.0
    }
}

impl FromSpecImpl<SomeipSdServerServiceInstanceConfig> for Element {
    open spec fn obeys_from_spec() -> bool {
        false
    }

    open spec fn from_spec(v: SomeipSdServerServiceInstanceConfig) -> Element {
        arbitrary()
    }
}

impl IdentifiableAbstractionElement for SomeipSdServerServiceInstanceConfig {}

impl SomeipSdServerServiceInstanceConfig {
    /// create a new `SomeipSdServerServiceInstanceConfig` in the given package
    pub fn new(name: &str, package: &ArPackage, ttl: u32) -> (r: Result<Self, AutosarAbstractionError>)
        ensures
            r matches Ok(x) ==> spec_element_name(x.spec_element()) == "SOMEIP-SD-SERVER-SERVICE-INSTANCE-CONFIG"@,
            r matches Err(e) ==> e is ModelError || e is InvalidParameter,
    {
        let pkg_elem = get_or_create_sub_element(package.element(), "ELEMENTS")?;
        let elem = create_named_sub_element(&pkg_elem, "SOMEIP-SD-SERVER-SERVICE-INSTANCE-CONFIG", name)?;
        set_character_data_u64(&create_sub_element(&elem, "SERVICE-OFFER-TIME-TO-LIVE")?, ttl as u64)?;
        Ok(Self(elem))
    }

    /// set the service offer time to live of this `SomeipSdServerServiceInstanceConfig`
    pub fn set_service_offer_time_to_live(&self, service_offer_time_to_live: u32) -> (r: Result<(), AutosarAbstractionError>)
        ensures
            r matches Err(e) ==> is_model_or_name_error(e, "SERVICE-OFFER-TIME-TO-LIVE"@),
    {
        set_character_data_u64(&get_or_create_sub_element(self.element(), "SERVICE-OFFER-TIME-TO-LIVE")?, service_offer_time_to_live as u64)
    }

    /// get the service offer time to live of this `SomeipSdServerServiceInstanceConfig`
    pub fn service_offer_time_to_live(&self) -> Option<u32> {
        parse_u32(&sub_element_cdata(self.element(), "SERVICE-OFFER-TIME-TO-LIVE")?)
    }

    /// set the priority of this `SomeipSdServerServiceInstanceConfig`
    ///
    /// Available since R21-11 (`AUTOSAR_00050`); in older versions of the model nothing is set.
    pub fn set_priority(&self, priority: u8) -> (r: Result<(), AutosarAbstractionError>)
        ensures
            r matches Err(e) ==> e is ModelError,
    {
        // try to set it, but ignore the error if the element is not available
        if let Ok(elem) = get_or_create_sub_element(self.element(), "PRIORITY") {
            set_character_data_u64(&elem, priority as u64)?;
        }
        Ok(())
    }

    /// get the priority of this `SomeipSdServerServiceInstanceConfig`
    pub fn priority(&self) -> Option<u8> {
        parse_u8(&sub_element_cdata(self.element(), "PRIORITY")?)
    }
}

//##################################################################

/// A `SomeipSdServerEventGroupTimingConfig` contains the configuration for the timing of an `EventHandler`
///
/// This configuration is a named element that is created separately and can be used by multiple `EventHandler`s.
/// Its content is a request response delay, whose bounds are floating point values.
#[derive(Debug, Clone, PartialEq, Eq, Hash)]
pub struct SomeipSdServerEventGroupTimingConfig(Element);

impl AbstractionElement for SomeipSdServerEventGroupTimingConfig {
    closed spec fn spec_element(&self) -> Element {
        self.0
    }

    fn element(&self) -> (r: &Element) {
        proof {
            assert(self.spec_element() == self.0);
        }
        &self.0
    }
}

impl SomeipSdServerEventGroupTimingConfig {
    /// wrap an element of the model whose element name is `SOMEIP-SD-SERVER-EVENT-GROUP-TIMING-CONFIG`
    pub fn from_element(element: Element) -> (r: Result<Self, AutosarAbstractionError>)
        ensures
            r is Ok <==> spec_element_name(element) == "SOMEIP-SD-SERVER-EVENT-GROUP-TIMING-CONFIG"@,
            r matches Ok(x) ==> x.spec_element() == element,
            r matches Err(e) ==> is_conversion_error(e, element, "SomeipSdServerEventGroupTimingConfig"@),
    {
        if has_element_name(&element, "SOMEIP-SD-SERVER-EVENT-GROUP-TIMING-CONFIG") {
            Ok(SomeipSdServerEventGroupTimingConfig(element))
        } else {
            Err(AutosarAbstractionError::ConversionError { element, dest: "SomeipSdServerEventGroupTimingConfig".to_owned() })
        }
    }
}

impl TryFrom<Element> for SomeipSdServerEventGroupTimingConfig {
    type Error = AutosarAbstractionError;

    fn try_from(element: Element) -> (r: Result<Self, Self::Error>)
        ensures
            r is Ok <==> spec_element_name(element) == "SOMEIP-SD-SERVER-EVENT-GROUP-TIMING-CONFIG"@,
            r matches Ok(x) ==> x.spec_element() == element,
            r matches Err(e) ==> is_conversion_error(e, element, "SomeipSdServerEventGroupTimingConfig"@),
    {
        SomeipSdServerEventGroupTimingConfig::from_element(element)
    }
}

impl TryFromSpecImpl<Element> for SomeipSdServerEventGroupTimingConfig {
    open spec fn obeys_try_from_spec() -> bool {
        false
    }

    open spec fn try_from_spec(v: Element) -> Result<Self, AutosarAbstractionError> {
        arbitrary()
    }
}

impl From<SomeipSdServerEventGroupTimingConfig> for Element {
    fn from(value: SomeipSdServerEventGroupTimingConfig) -> (r: Element)
        ensures
            r == value.spec_element(),
    {
        value.0
    }
}

impl FromSpecImpl<SomeipSdServerEventGroupTimingConfig> for Element {
    open spec fn obeys_from_spec() -> bool {
        false
    }

    open spec fn from_spec(v: SomeipSdServerEventGroupTimingConfig) -> Element {
        arbitrary()
    }
}

impl IdentifiableAbstractionElement for SomeipSdServerEventGroupTimingConfig {}

//##################################################################

/// A `SomeipSdClientServiceInstanceConfig` is a configuration for a `ConsumedServiceInstance`
///
/// This configuration is a named element that is created separately and can be used by multiple `ConsumedServiceInstance`s.
#[derive(Debug, Clone, PartialEq, Eq, Hash)]
pub struct SomeipSdClientServiceInstanceConfig(Element);

impl AbstractionElement for SomeipSdClientServiceInstanceConfig {
    closed spec fn spec_element(&self) -> Element {
        self.0
    }

    fn element(&self) -> (r: &Element) {
        proof {
            assert(self.spec_element() == self.0);
        }
        &self.0
    }
}

impl SomeipSdClientServiceInstanceConfig {
    /// wrap an element of the model whose element name is `SOMEIP-SD-CLIENT-SERVICE-INSTANCE-CONFIG`
    pub fn from_element(element: Element) -> (r: Result<Self, AutosarAbstractionError>)
        ensures
            r is Ok <==> spec_element_name(element) == "SOMEIP-SD-CLIENT-SERVICE-INSTANCE-CONFIG"@,
            r matches Ok(x) ==> x.spec_element() == element,
            r matches Err(e) ==> is_conversion_error(e, element, "SomeipSdClientServiceInstanceConfig"@),
    {
        if has_element_name(&element, "SOMEIP-SD-CLIENT-SERVICE-INSTANCE-CONFIG") {
            Ok(SomeipSdClientServiceInstanceConfig(element))
        } else {
            Err(AutosarAbstractionError::ConversionError { element, dest: "SomeipSdClientServiceInstanceConfig".to_owned() })
        }
    }
}

impl TryFrom<Element> for SomeipSdClientServiceInstanceConfig {
    type Error = AutosarAbstractionError;

    fn try_from(element: Element) -> (r: Result<Self, Self::Error>)
        ensures
            r is Ok <==> spec_element_name(element) == "SOMEIP-SD-CLIENT-SERVICE-INSTANCE-CONFIG"@,
            r matches Ok(x) ==> x.spec_element() == element,
            r matches Err(e) ==> is_conversion_error(e, element, "SomeipSdClientServiceInstanceConfig"@),
    {
        SomeipSdClientServiceInstanceConfig::from_element(element)
    }
}

impl TryFromSpecImpl<Element> for SomeipSdClientServiceInstanceConfig {
    open spec fn obeys_try_from_spec() -> bool {
        false
    }

    open spec fn try_from_spec(v: Element) -> Result<Self, AutosarAbstractionError> {
        arbitrary()
    }
}

impl From<SomeipSdClientServiceInstanceConfig> for Element {
    fn from(value: SomeipSdClientServiceInstanceConfig) -> (r: Element)
        ensures
            r == value.spec_element(),
    {
        value.0
    }
}

impl FromSpecImpl<SomeipSdClientServiceInstanceConfig> for Element {
    open spec fn obeys_from_spec() -> bool {
        false
    }

    open spec fn from_spec(v: SomeipSdClientServiceInstanceConfig) -> Element {
        arbitrary()
    }
}

impl IdentifiableAbstractionElement for SomeipSdClientServiceInstanceConfig {}

impl SomeipSdClientServiceInstanceConfig {
    /// create a new `SomeipSdClientServiceInstanceConfig` in the given package
    pub fn new(name: &str, package: &ArPackage) -> (r: Result<Self, AutosarAbstractionError>)
        ensures
            r matches Ok(x) ==> spec_element_name(x.spec_element()) == "SOMEIP-SD-CLIENT-SERVICE-INSTANCE-CONFIG"@,
            r matches Err(e) ==> e is ModelError || e is InvalidParameter,
    {
        let pkg_elem = get_or_create_sub_element(package.element(), "ELEMENTS")?;
        let elem = create_named_sub_element(&pkg_elem, "SOMEIP-SD-CLIENT-SERVICE-INSTANCE-CONFIG", name)?;
        Ok(Self(elem))
    }

    /// set the priority of this `SomeipSdClientServiceInstanceConfig`
    ///
    /// Available since R21-11 (`AUTOSAR_00050`); in older versions of the model nothing is set.
    pub fn set_priority(&self, priority: u8) -> (r: Result<(), AutosarAbstractionError>)
        ensures
            r matches Err(e) ==> e is ModelError,
    {
        // try to set it, but ignore the error if the element is not available
        if let Ok(elem) = get_or_create_sub_element(self.element(), "PRIORITY") {
            set_character_data_u64(&elem, priority as u64)?;
        }
        Ok(())
    }

    /// get the priority of this `SomeipSdClientServiceInstanceConfig`
    pub fn priority(&self) -> Option<u8> {
        parse_u8(&sub_element_cdata(self.element(), "PRIORITY")?)
    }
}

//##################################################################

/// A `SomeipSdClientEventGroupTimingConfig` contains the configuration for the timing of a `ConsumedEventGroup`
///
/// This configuration is a named element that is created separately and can be used by multiple `ConsumedEventGroup`s.
#[derive(Debug, Clone, PartialEq, Eq, Hash)]
pub struct SomeipSdClientEventGroupTimingConfig(Element);

impl AbstractionElement for SomeipSdClientEventGroupTimingConfig {
    closed spec fn spec_element(&self) -> Element {
        self.0
    }

    fn element(&self) -> (r: &Element) {
        proof {
            assert(self.spec_element() == self.0);
        }
        &self.0
    }
}

impl SomeipSdClientEventGroupTimingConfig {
    /// wrap an element of the model whose element name is `SOMEIP-SD-CLIENT-EVENT-GROUP-TIMING-CONFIG`
    pub fn from_element(element: Element) -> (r: Result<Self, AutosarAbstractionError>)
        ensures
            r is Ok <==> spec_element_name(element) == "SOMEIP-SD-CLIENT-EVENT-GROUP-TIMING-CONFIG"@,
            r matches Ok(x) ==> x.spec_element() == element,
            r matches Err(e) ==> is_conversion_error(e, element, "SomeipSdClientEventGroupTimingConfig"@),
    {
        if has_element_name(&element, "SOMEIP-SD-CLIENT-EVENT-GROUP-TIMING-CONFIG") {
            Ok(SomeipSdClientEventGroupTimingConfig(element))
        } else {
            Err(AutosarAbstractionError::ConversionError { element, dest: "SomeipSdClientEventGroupTimingConfig".to_owned() })
        }
    }
}

impl TryFrom<Element> for SomeipSdClientEventGroupTimingConfig {
    type Error = AutosarAbstractionError;

    fn try_from(element: Element) -> (r: Result<Self, Self::Error>)
        ensures
            r is Ok <==> spec_element_name(element) == "SOMEIP-SD-CLIENT-EVENT-GROUP-TIMING-CONFIG"@,
            r matches Ok(x) ==> x.spec_element() == element,
            r matches Err(e) ==> is_conversion_error(e, element, "SomeipSdClientEventGroupTimingConfig"@),
    {
        SomeipSdClientEventGroupTimingConfig::from_element(element)
    }
}

impl TryFromSpecImpl<Element> for SomeipSdClientEventGroupTimingConfig {
    open spec fn obeys_try_from_spec() -> bool {
        false
    }

    open spec fn try_from_spec(v: Element) -> Result<Self, AutosarAbstractionError> {
        arbitrary()
    }
}

impl From<SomeipSdClientEventGroupTimingConfig> for Element {
    fn from(value: SomeipSdClientEventGroupTimingConfig) -> (r: Element)
        ensures
            r == value.spec_element(),
    {
        value.0
    }
}

impl FromSpecImpl<SomeipSdClientEventGroupTimingConfig> for Element {
    open spec fn obeys_from_spec() -> bool {
        false
    }

    open spec fn from_spec(v: SomeipSdClientEventGroupTimingConfig) -> Element {
        arbitrary()
    }
}

impl IdentifiableAbstractionElement for SomeipSdClientEventGroupTimingConfig {}

impl SomeipSdClientEventGroupTimingConfig {
    /// create a new `SomeipSdClientEventGroupTimingConfig` in the given package
    pub fn new(name: &str, package: &ArPackage, time_to_live: u32) -> (r: Result<Self, AutosarAbstractionError>)
        ensures
            r matches Ok(x) ==> spec_element_name(x.spec_element()) == "SOMEIP-SD-CLIENT-EVENT-GROUP-TIMING-CONFIG"@,
            r matches Err(e) ==> e is ModelError || e is InvalidParameter,
    {
        let pkg_elem = get_or_create_sub_element(package.element(), "ELEMENTS")?;
        let elem = create_named_sub_element(&pkg_elem, "SOMEIP-SD-CLIENT-EVENT-GROUP-TIMING-CONFIG", name)?;
        set_character_data_u64(&create_sub_element(&elem, "TIME-TO-LIVE")?, time_to_live as u64)?;
        Ok(Self(elem))
    }

    /// set the time to live of this `SomeipSdClientEventGroupTimingConfig`
    pub fn set_time_to_live(&self, time_to_live: u32) -> (r: Result<(), AutosarAbstractionError>)
        ensures
            r matches Err(e) ==> is_model_or_name_error(e, "TIME-TO-LIVE"@),
    {
        set_character_data_u64(&get_or_create_sub_element(self.element(), "TIME-TO-LIVE")?, time_to_live as u64)
    }

    /// get the time to live of this `SomeipSdClientEventGroupTimingConfig`
    pub fn time_to_live(&self) -> Option<u32> {
        parse_u32(&sub_element_cdata(self.element(), "TIME-TO-LIVE")?)
    }

    /// set the maximum number of retries of an event group subscription of this `SomeipSdClientEventGroupTimingConfig`
    pub fn set_subscribe_eventgroup_retry_max(&self, subscribe_eventgroup_retry_max: u32) -> (r: Result<(), AutosarAbstractionError>)
        ensures
            r matches Err(e) ==> is_model_or_name_error(e, "SUBSCRIBE-EVENTGROUP-RETRY-MAX"@),
    {
        set_character_data_u64(&get_or_create_sub_element(self.element(), "SUBSCRIBE-EVENTGROUP-RETRY-MAX")?, subscribe_eventgroup_retry_max as u64)
    }

    /// get the maximum number of retries of an event group subscription of this `SomeipSdClientEventGroupTimingConfig`
    pub fn subscribe_eventgroup_retry_max(&self) -> Option<u32> {
        parse_u32(&sub_element_cdata(self.element(), "SUBSCRIBE-EVENTGROUP-RETRY-MAX")?)
    }
}

} // verus!
