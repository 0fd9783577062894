//! SOME/IP service instances: provided and consumed service instances, their event handlers
//! and event groups, and the local unicast addresses that assign them to an ECU.

use vstd::prelude::*;
use crate::elements::is_model_or_name_error;
use autosar_data::Element;
use vstd::std_specs::convert::{FromSpecImpl, TryFromSpecImpl};
use crate::{
    AbstractionElement, ArPackage, AutosarAbstractionError, IdentifiableAbstractionElement, has_element_name,
    is_conversion_error, is_invalid_parameter,
};
use crate::accessors::{add_list_reference, list_elements, list_reference_targets, sub_element_enum_text};
use crate::communication::{
    EventGroupControlType, SoConIPduIdentifier, SocketAddress, SomeipSdClientEventGroupTimingConfig, SomeipSdClientServiceInstanceConfig,
    SomeipSdServerEventGroupTimingConfig, SomeipSdServerServiceInstanceConfig, TpConfig,
};
use crate::communication::someip_sd::{add_conditional_reference, conditional_reference_target};
use crate::elements::{
    create_named_sub_element, create_sub_element, get_or_create_sub_element, get_reference_target, get_sub_element,
    named_parent, parent, remove_sub_element, set_character_data_enum, set_character_data_text, set_character_data_u64,
    set_reference_target,
    spec_element_name, sub_elements,
};
use crate::values::{parse_u16, parse_u32, sub_element_cdata, sub_element_string};

verus! {

/// A `ServiceInstanceCollectionSet` contains `ServiceInstance`s that are provided or consumed by an ECU
#[derive(Debug, Clone, PartialEq, Eq, Hash)]
pub struct ServiceInstanceCollectionSet(Element);

impl AbstractionElement for ServiceInstanceCollectionSet {
    closed spec fn spec_element(&self) -> Element {
        self.0
    }

    fn element(&self) -> (r: &Element) {
        proof {
            assert(self.spec_element() == self.0);
        }
        &self.0
    }
}

impl ServiceInstanceCollectionSet {
    /// wrap an element of the model whose element name is `SERVICE-INSTANCE-COLLECTION-SET`
    pub fn from_element(element: Element) -> (r: Result<Self, AutosarAbstractionError>)
        ensures
            r is Ok <==> spec_element_name(element) == "SERVICE-INSTANCE-COLLECTION-SET"@,
            r matches Ok(x) ==> x.spec_element() == element,
            r matches Err(e) ==> is_conversion_error(e, element, "ServiceInstanceCollectionSet"@),
    {
        if has_element_name(&element, "SERVICE-INSTANCE-COLLECTION-SET") {
            Ok(ServiceInstanceCollectionSet(element))
        } else {
            Err(AutosarAbstractionError::ConversionError { element, dest: "ServiceInstanceCollectionSet".to_owned() })
        }
    }
}

impl TryFrom<Element> for ServiceInstanceCollectionSet {
    type Error = AutosarAbstractionError;

    fn try_from(element: Element) -> (r: Result<Self, Self::Error>)
        ensures
            r is Ok <==> spec_element_name(element) == "SERVICE-INSTANCE-COLLECTION-SET"@,
            r matches Ok(x) ==> x.spec_element() == element,
            r matches Err(e) ==> is_conversion_error(e, element, "ServiceInstanceCollectionSet"@),
    {
        ServiceInstanceCollectionSet::from_element(element)
    }
}

impl TryFromSpecImpl<Element> for ServiceInstanceCollectionSet {
    open spec fn obeys_try_from_spec() -> bool {
        false
    }

    open spec fn try_from_spec(v: Element) -> Result<Self, AutosarAbstractionError> {
        arbitrary()
    }
}

impl From<ServiceInstanceCollectionSet> for Element {
    fn from(value: ServiceInstanceCollectionSet) -> (r: Element)
        ensures
            r == value.spec_element(),
    {
        value.0
    }
}

impl FromSpecImpl<ServiceInstanceCollectionSet> for Element {
    open spec fn obeys_from_spec() -> bool {
        false
    }

    open spec fn from_spec(v: ServiceInstanceCollectionSet) -> Element {
        arbitrary()
    }
}

impl IdentifiableAbstractionElement for ServiceInstanceCollectionSet {}

impl ServiceInstanceCollectionSet {
    /// create a new `ServiceInstanceCollectionSet` in the package
    pub fn new(name: &str, package: &ArPackage) -> (r: Result<Self, AutosarAbstractionError>)
        ensures
            r matches Ok(x) ==> spec_element_name(x.spec_element()) == "SERVICE-INSTANCE-COLLECTION-SET"@,
            r matches Err(e) ==> e is ModelError || e is InvalidParameter,
    {
        let elements = get_or_create_sub_element(package.element(), "ELEMENTS")?;
        let elem = create_named_sub_element(&elements, "SERVICE-INSTANCE-COLLECTION-SET", name)?;
        Ok(Self(elem))
    }

    /// create a new `ProvidedServiceInstance` in this `ServiceInstanceCollectionSet`
    pub fn create_provided_service_instance(
        &self,
        name: &str,
        service_identifier: u16,
        instance_identifier: u16,
        major_version: u32,
        minor_version: u32,
    ) -> (r: Result<ProvidedServiceInstance, AutosarAbstractionError>)
        ensures
            r matches Err(e) ==> e is ModelError || e is InvalidParameter,
    {
        let instances = get_or_create_sub_element(self.element(), "SERVICE-INSTANCES")?;
        ProvidedServiceInstance::new(name, &instances, service_identifier, instance_identifier, major_version, minor_version)
    }

    /// create a new `ConsumedServiceInstance` in this `ServiceInstanceCollectionSet`
    pub fn create_consumed_service_instance(
        &self,
        name: &str,
        service_identifier: u16,
        instance_identifier: u16,
        major_version: u32,
        minor_version: &str,
    ) -> (r: Result<ConsumedServiceInstance, AutosarAbstractionError>)
        ensures
            r matches Err(e) ==> e is ModelError || e is InvalidParameter,
    {
        let instances = get_or_create_sub_element(self.element(), "SERVICE-INSTANCES")?;
        ConsumedServiceInstance::new(name, &instances, service_identifier, instance_identifier, major_version, minor_version)
    }

    /// all `ServiceInstance`s in this set
    pub fn service_instances(&self) -> (r: Vec<ServiceInstance>)
        ensures
            forall|i: int| 0 <= i < r.len() ==> ServiceInstance::spec_is_wrapped_name(spec_element_name(#[trigger] r@[i].spec_element())),
    {
        let mut result: Vec<ServiceInstance> = Vec::new();
        if let Some(instances) = get_sub_element(self.element(), "SERVICE-INSTANCES") {
            let subs = sub_elements(&instances);
            for i in 0..subs.len()
                invariant
                    forall|j: int| 0 <= j < result.len() ==> ServiceInstance::spec_is_wrapped_name(spec_element_name(#[trigger] result@[j].spec_element())),
            {
                if let Ok(instance) = ServiceInstance::from_element(subs[i].clone()) {
                    result.push(instance);
                }
            }
        }
        result
    }
}

//##################################################################

/// the message of the error for an element that is no service instance
pub open spec fn not_a_service_instance_message() -> Seq<char> {
    "Element is not a ServiceInstance"@
}

/// A `ServiceInstance` is a service that is provided or consumed by an ECU
#[derive(Debug, Clone, PartialEq, Eq, Hash)]
pub enum ServiceInstance {
    /// A service that is provided by an ECU
    Provided(ProvidedServiceInstance),
    /// A service that is consumed by an ECU
    Consumed(ConsumedServiceInstance),
}

impl AbstractionElement for ServiceInstance {
    open spec fn spec_element(&self) -> Element {
        match self {
            ServiceInstance::Provided(psi) => psi.spec_element(),
            ServiceInstance::Consumed(csi) => csi.spec_element(),
        }
    }

    fn element(&self) -> (r: &Element) {
        match self {
            ServiceInstance::Provided(psi) => {
                proof {
                    assert(self.spec_element() == psi.spec_element());
                }
                psi.element()
            },
            ServiceInstance::Consumed(csi) => {
                proof {
                    assert(self.spec_element() == csi.spec_element());
                }
                csi.element()
            },
        }
    }
}

impl IdentifiableAbstractionElement for ServiceInstance {}

impl ServiceInstance {
    /// the element names of the elements that this type wraps
    pub open spec fn spec_is_wrapped_name(n: Seq<char>) -> bool {
        n == "PROVIDED-SERVICE-INSTANCE"@ || n == "CONSUMED-SERVICE-INSTANCE"@
    }
}

impl ServiceInstance {
    /// wrap a PROVIDED-SERVICE-INSTANCE or CONSUMED-SERVICE-INSTANCE element
    pub fn from_element(element: Element) -> (r: Result<Self, AutosarAbstractionError>)
        ensures
            r is Ok <==> spec_element_name(element) == "PROVIDED-SERVICE-INSTANCE"@ || spec_element_name(element)
                == "CONSUMED-SERVICE-INSTANCE"@,
            r matches Ok(x) ==> x.spec_element() == element,
            r matches Err(e) ==> is_invalid_parameter(e, not_a_service_instance_message()),
    {
        if has_element_name(&element, "PROVIDED-SERVICE-INSTANCE") {
            Ok(ServiceInstance::Provided(ProvidedServiceInstance(element)))
        } else if has_element_name(&element, "CONSUMED-SERVICE-INSTANCE") {
            Ok(ServiceInstance::Consumed(ConsumedServiceInstance(element)))
        } else {
            Err(AutosarAbstractionError::InvalidParameter("Element is not a ServiceInstance".to_owned()))
        }
    }
}

impl TryFrom<Element> for ServiceInstance {
    type Error = AutosarAbstractionError;

    fn try_from(element: Element) -> (r: Result<Self, Self::Error>)
        ensures
            r is Ok <==> spec_element_name(element) == "PROVIDED-SERVICE-INSTANCE"@ || spec_element_name(element)
                == "CONSUMED-SERVICE-INSTANCE"@,
            r matches Ok(x) ==> x.spec_element() == element,
            r matches Err(e) ==> is_invalid_parameter(e, not_a_service_instance_message()),
    {
        ServiceInstance::from_element(element)
    }
}

impl TryFromSpecImpl<Element> for ServiceInstance {
    open spec fn obeys_try_from_spec() -> bool {
        false
    }

    open spec fn try_from_spec(v: Element) -> Result<Self, AutosarAbstractionError> {
        arbitrary()
    }
}

//##################################################################

/// A `ProvidedServiceInstance` is a service that is provided by an ECU
#[derive(Debug, Clone, PartialEq, Eq, Hash)]
pub struct ProvidedServiceInstance(Element);

impl AbstractionElement for ProvidedServiceInstance {
    closed spec fn spec_element(&self) -> Element {
        self.0
    }

    fn element(&self) -> (r: &Element) {
        proof {
            assert(self.spec_element() == self.0);
        }
        &self.0
    }
}

impl IdentifiableAbstractionElement for ProvidedServiceInstance {}

impl ProvidedServiceInstance {
    /// wrap an element of the model whose element name is `PROVIDED-SERVICE-INSTANCE`, when it stands in a SERVICE-INSTANCES element
    pub fn from_element(element: Element) -> (r: Result<Self, AutosarAbstractionError>)
        ensures
            r matches Ok(x) ==> x.spec_element() == element && spec_element_name(element) == "PROVIDED-SERVICE-INSTANCE"@,
            spec_element_name(element) != "PROVIDED-SERVICE-INSTANCE"@ ==> r is Err,
            r matches Err(e) ==> is_conversion_error(e, element, "ProvidedServiceInstance"@) || e is ModelError,
    {
        // the element must stand directly in a SERVICE-INSTANCES element
        let placed = match parent(&element)? {
            Some(p) => has_element_name(&p, "SERVICE-INSTANCES"),
            None => false,
        };
        if placed && has_element_name(&element, "PROVIDED-SERVICE-INSTANCE") {
            Ok(ProvidedServiceInstance(element))
        } else {
            Err(AutosarAbstractionError::ConversionError { element, dest: "ProvidedServiceInstance".to_owned() })
        }
    }
}

impl TryFrom<Element> for ProvidedServiceInstance {
    type Error = AutosarAbstractionError;

    fn try_from(element: Element) -> (r: Result<Self, Self::Error>)
        ensures
            r matches Ok(x) ==> x.spec_element() == element && spec_element_name(element) == "PROVIDED-SERVICE-INSTANCE"@,
            spec_element_name(element) != "PROVIDED-SERVICE-INSTANCE"@ ==> r is Err,
            r matches Err(e) ==> is_conversion_error(e, element, "ProvidedServiceInstance"@) || e is ModelError,
    {
        ProvidedServiceInstance::from_element(element)
    }
}

impl TryFromSpecImpl<Element> for ProvidedServiceInstance {
    open spec fn obeys_try_from_spec() -> bool {
        false
    }

    open spec fn try_from_spec(v: Element) -> Result<Self, AutosarAbstractionError> {
        arbitrary()
    }
}

impl From<ProvidedServiceInstance> for Element {
    fn from(value: ProvidedServiceInstance) -> (r: Element)
        ensures
            r == value.spec_element(),
    {
        value.0
    }
}

impl FromSpecImpl<ProvidedServiceInstance> for Element {
    open spec fn obeys_from_spec() -> bool {
        false
    }

    open spec fn from_spec(v: ProvidedServiceInstance) -> Element {
        arbitrary()
    }
}

impl ProvidedServiceInstance {
    /// set the SD server instance configuration for this `ProvidedServiceInstance`
    pub fn set_sd_server_instance_config(&self, config: &SomeipSdServerServiceInstanceConfig) -> (r: Result<(), AutosarAbstractionError>)
        ensures
            r matches Err(e) ==> e is ModelError || e is InvalidParameter,
    {
        add_conditional_reference(self.element(), "SD-SERVER-TIMER-CONFIGS", "SOMEIP-SD-SERVER-SERVICE-INSTANCE-CONFIG-REF-CONDITIONAL", "SOMEIP-SD-SERVER-SERVICE-INSTANCE-CONFIG-REF", config.element())
    }

    /// get the SD server instance configuration for this `ProvidedServiceInstance`
    pub fn sd_server_instance_config(&self) -> (r: Option<SomeipSdServerServiceInstanceConfig>)
        ensures
            r matches Some(x) ==> spec_element_name(x.spec_element()) == "SOMEIP-SD-SERVER-SERVICE-INSTANCE-CONFIG"@,
    {
        let target = conditional_reference_target(self.element(), "SD-SERVER-TIMER-CONFIGS", "SOMEIP-SD-SERVER-SERVICE-INSTANCE-CONFIG-REF-CONDITIONAL", "SOMEIP-SD-SERVER-SERVICE-INSTANCE-CONFIG-REF")?;
        match SomeipSdServerServiceInstanceConfig::from_element(target) {
            Ok(config) => Some(config),
            Err(_) => None,
        }
    }

    /// create a new `ProvidedServiceInstance` in a SERVICE-INSTANCES element
    pub fn new(
        name: &str,
        parent_elem: &Element,
        service_identifier: u16,
        instance_identifier: u16,
        major_version: u32,
        minor_version: u32,
    ) -> (r: Result<Self, AutosarAbstractionError>)
        ensures
            r matches Ok(x) ==> spec_element_name(x.spec_element()) == "PROVIDED-SERVICE-INSTANCE"@,
            r matches Err(e) ==> e is ModelError || e is InvalidParameter,
    {
        let elem = create_named_sub_element(parent_elem, "PROVIDED-SERVICE-INSTANCE", name)?;
        let psi = Self(elem);
        psi.set_service_identifier(service_identifier)?;
        psi.set_instance_identifier(instance_identifier)?;
        psi.set_major_version(major_version)?;
        psi.set_minor_version(minor_version)?;
        Ok(psi)
    }

    /// set the service identifier of this `ProvidedServiceInstance`
    pub fn set_service_identifier(&self, service_identifier: u16) -> (r: Result<(), AutosarAbstractionError>)
        ensures
            r matches Err(e) ==> is_model_or_name_error(e, "SERVICE-IDENTIFIER"@),
    {
        set_character_data_u64(&get_or_create_sub_element(self.element(), "SERVICE-IDENTIFIER")?, service_identifier as u64)
    }

    /// get the service identifier of this `ProvidedServiceInstance`
    pub fn service_identifier(&self) -> Option<u16> {
        parse_u16(&sub_element_cdata(self.element(), "SERVICE-IDENTIFIER")?)
    }

    /// set the instance identifier of this `ProvidedServiceInstance`
    pub fn set_instance_identifier(&self, instance_identifier: u16) -> (r: Result<(), AutosarAbstractionError>)
        ensures
            r matches Err(e) ==> is_model_or_name_error(e, "INSTANCE-IDENTIFIER"@),
    {
        set_character_data_u64(&get_or_create_sub_element(self.element(), "INSTANCE-IDENTIFIER")?, instance_identifier as u64)
    }

    /// get the instance identifier of this `ProvidedServiceInstance`
    pub fn instance_identifier(&self) -> Option<u16> {
        parse_u16(&sub_element_cdata(self.element(), "INSTANCE-IDENTIFIER")?)
    }

    /// set the major version of this `ProvidedServiceInstance`
    pub fn set_major_version(&self, major_version: u32) -> (r: Result<(), AutosarAbstractionError>)
        ensures
            r matches Err(e) ==> is_model_or_name_error(e, "MAJOR-VERSION"@),
    {
        set_character_data_u64(&get_or_create_sub_element(self.element(), "MAJOR-VERSION")?, major_version as u64)
    }

    /// get the major version of this `ProvidedServiceInstance`
    pub fn major_version(&self) -> Option<u32> {
        parse_u32(&sub_element_cdata(self.element(), "MAJOR-VERSION")?)
    }

    /// set the minor version of this `ProvidedServiceInstance`
    pub fn set_minor_version(&self, minor_version: u32) -> (r: Result<(), AutosarAbstractionError>)
        ensures
            r matches Err(e) ==> is_model_or_name_error(e, "MINOR-VERSION"@),
    {
        set_character_data_u64(&get_or_create_sub_element(self.element(), "MINOR-VERSION")?, minor_version as u64)
    }

    /// get the minor version of this `ProvidedServiceInstance`
    pub fn minor_version(&self) -> Option<u32> {
        parse_u32(&sub_element_cdata(self.element(), "MINOR-VERSION")?)
    }

    /// create a new `EventHandler` in this `ProvidedServiceInstance`
    pub fn create_event_handler(&self, name: &str, event_group_identifier: u32) -> (r: Result<
        EventHandler,
        AutosarAbstractionError,
    >)
        ensures
            r matches Err(e) ==> e is ModelError || e is InvalidParameter,
    {
        let ehs = get_or_create_sub_element(self.element(), "EVENT-HANDLERS")?;
        EventHandler::new(name, &ehs, event_group_identifier)
    }

    /// the `EventHandler`s in this `ProvidedServiceInstance`
    pub fn event_handlers(&self) -> (r: Vec<EventHandler>)
        ensures
            forall|i: int| 0 <= i < r.len() ==> spec_element_name(#[trigger] r@[i].spec_element()) == "EVENT-HANDLER"@,
    {
        let mut result: Vec<EventHandler> = Vec::new();
        if let Some(ehs) = get_sub_element(self.element(), "EVENT-HANDLERS") {
            let subs = sub_elements(&ehs);
            for i in 0..subs.len()
                invariant
                    forall|j: int| 0 <= j < result.len() ==> spec_element_name(#[trigger] result@[j].spec_element()) == "EVENT-HANDLER"@,
            {
                if let Ok(eh) = EventHandler::from_element(subs[i].clone()) {
                    result.push(eh);
                }
            }
        }
        result
    }

    /// set a local unicast address for this `ProvidedServiceInstance`
    ///
    /// The PSI may use two local unicast addresses, one each for UDP and TCP.
    /// The unicast address is used to assign the service to a specific ECU, and may not be empty.
    pub fn set_local_unicast_address(&self, address: &SocketAddress) -> (r: Result<(), AutosarAbstractionError>)
        ensures
            r matches Err(e) ==> e is ModelError || e is InvalidParameter || e is ConversionError,
    {
        set_local_unicast_address(self.element(), address)
    }

    /// the local unicast addresses
    pub fn local_unicast_addresses(&self) -> Vec<LocalUnicastAddress> {
        local_unicast_addresses_of(self.element())
    }
}

//##################################################################

/// An `EventHandler` describes the handling of a single event in a `ProvidedServiceInstance`
#[derive(Debug, Clone, PartialEq, Eq, Hash)]
pub struct EventHandler(Element);

impl AbstractionElement for EventHandler {
    closed spec fn spec_element(&self) -> Element {
        self.0
    }

    fn element(&self) -> (r: &Element) {
        proof {
            assert(self.spec_element() == self.0);
        }
        &self.0
    }
}

impl IdentifiableAbstractionElement for EventHandler {}

impl EventHandler {
    /// wrap an element of the model whose element name is `EVENT-HANDLER`, when it belongs to a service instance of a SERVICE-INSTANCE-COLLECTION-SET
    pub fn from_element(element: Element) -> (r: Result<Self, AutosarAbstractionError>)
        ensures
            r matches Ok(x) ==> x.spec_element() == element && spec_element_name(element) == "EVENT-HANDLER"@,
            spec_element_name(element) != "EVENT-HANDLER"@ ==> r is Err,
            r matches Err(e) ==> is_conversion_error(e, element, "EventHandler"@) || e is ModelError,
    {
        // the named parent of the named parent must be a SERVICE-INSTANCE-COLLECTION-SET
        let placed = match named_parent(&element)? {
            Some(p) => match named_parent(&p) {
                Ok(Some(gp)) => has_element_name(&gp, "SERVICE-INSTANCE-COLLECTION-SET"),
                _ => false,
            },
            None => false,
        };
        if placed && has_element_name(&element, "EVENT-HANDLER") {
            Ok(EventHandler(element))
        } else {
            Err(AutosarAbstractionError::ConversionError { element, dest: "EventHandler".to_owned() })
        }
    }
}

impl TryFrom<Element> for EventHandler {
    type Error = AutosarAbstractionError;

    fn try_from(element: Element) -> (r: Result<Self, Self::Error>)
        ensures
            r matches Ok(x) ==> x.spec_element() == element && spec_element_name(element) == "EVENT-HANDLER"@,
            spec_element_name(element) != "EVENT-HANDLER"@ ==> r is Err,
            r matches Err(e) ==> is_conversion_error(e, element, "EventHandler"@) || e is ModelError,
    {
        EventHandler::from_element(element)
    }
}

impl TryFromSpecImpl<Element> for EventHandler {
    open spec fn obeys_try_from_spec() -> bool {
        false
    }

    open spec fn try_from_spec(v: Element) -> Result<Self, AutosarAbstractionError> {
        arbitrary()
    }
}

impl From<EventHandler> for Element {
    fn from(value: EventHandler) -> (r: Element)
        ensures
            r == value.spec_element(),
    {
        value.0
    }
}

impl FromSpecImpl<EventHandler> for Element {
    open spec fn obeys_from_spec() -> bool {
        false
    }

    open spec fn from_spec(v: EventHandler) -> Element {
        arbitrary()
    }
}

impl EventHandler {
    /// create a new `PduActivationRoutingGroup` in this `EventHandler`
    pub fn create_pdu_activation_routing_group(&self, name: &str, event_group_control_type: EventGroupControlType) -> (r: Result<
        PduActivationRoutingGroup,
        AutosarAbstractionError,
    >)
        ensures
            r matches Ok(x) ==> spec_element_name(x.spec_element()) == "PDU-ACTIVATION-ROUTING-GROUP"@,
            r matches Err(e) ==> e is ModelError || e is InvalidParameter,
    {
        let parent = get_or_create_sub_element(self.element(), "PDU-ACTIVATION-ROUTING-GROUPS")?;
        PduActivationRoutingGroup::new(name, &parent, event_group_control_type)
    }

    /// get the `PduActivationRoutingGroup`s in this `EventHandler`
    pub fn pdu_activation_routing_groups(&self) -> (r: Vec<PduActivationRoutingGroup>)
        ensures
            forall|i: int| 0 <= i < r.len() ==> spec_element_name(#[trigger] r@[i].spec_element()) == "PDU-ACTIVATION-ROUTING-GROUP"@,
    {
        let subs = list_elements(self.element(), "PDU-ACTIVATION-ROUTING-GROUPS");
        let mut result: Vec<PduActivationRoutingGroup> = Vec::new();
        for i in 0..subs.len()
            invariant
                forall|j: int| 0 <= j < result.len() ==> spec_element_name(#[trigger] result@[j].spec_element()) == "PDU-ACTIVATION-ROUTING-GROUP"@,
        {
            if let Ok(item) = PduActivationRoutingGroup::from_element(subs[i].clone()) {
                result.push(item);
            }
        }
        result
    }

    /// set the SD server event group timing configuration for this `EventHandler`
    pub fn set_sd_server_event_group_timing_config(&self, config: &SomeipSdServerEventGroupTimingConfig) -> (r: Result<(), AutosarAbstractionError>)
        ensures
            r matches Err(e) ==> e is ModelError || e is InvalidParameter,
    {
        add_conditional_reference(self.element(), "SD-SERVER-EG-TIMING-CONFIGS", "SOMEIP-SD-SERVER-EVENT-GROUP-TIMING-CONFIG-REF-CONDITIONAL", "SOMEIP-SD-SERVER-EVENT-GROUP-TIMING-CONFIG-REF", config.element())
    }

    /// get the SD server event group timing configuration for this `EventHandler`
    pub fn sd_server_event_group_timing_config(&self) -> (r: Option<SomeipSdServerEventGroupTimingConfig>)
        ensures
            r matches Some(x) ==> spec_element_name(x.spec_element()) == "SOMEIP-SD-SERVER-EVENT-GROUP-TIMING-CONFIG"@,
    {
        let target = conditional_reference_target(self.element(), "SD-SERVER-EG-TIMING-CONFIGS", "SOMEIP-SD-SERVER-EVENT-GROUP-TIMING-CONFIG-REF-CONDITIONAL", "SOMEIP-SD-SERVER-EVENT-GROUP-TIMING-CONFIG-REF")?;
        match SomeipSdServerEventGroupTimingConfig::from_element(target) {
            Ok(config) => Some(config),
            Err(_) => None,
        }
    }

    /// create a new `EventHandler` in its parent element
    pub fn new(name: &str, parent_elem: &Element, event_group_identifier: u32) -> (r: Result<Self, AutosarAbstractionError>)
        ensures
            r matches Err(e) ==> e is ModelError || e is InvalidParameter,
    {
        let elem = create_named_sub_element(parent_elem, "EVENT-HANDLER", name)?;
        let group = Self(elem);
        group.set_event_group_identifier(event_group_identifier)?;
        Ok(group)
    }

    /// set the event group identifier of this `EventHandler`
    pub fn set_event_group_identifier(&self, event_group_identifier: u32) -> (r: Result<(), AutosarAbstractionError>)
        ensures
            r matches Err(e) ==> is_model_or_name_error(e, "EVENT-GROUP-IDENTIFIER"@),
    {
        set_character_data_u64(&get_or_create_sub_element(self.element(), "EVENT-GROUP-IDENTIFIER")?, event_group_identifier as u64)
    }

    /// get the event group identifier of this `EventHandler`
    pub fn event_group_identifier(&self) -> Option<u32> {
        parse_u32(&sub_element_cdata(self.element(), "EVENT-GROUP-IDENTIFIER")?)
    }
}

//##################################################################

/// A `ConsumedServiceInstance` is a service that is consumed by an ECU
#[derive(Debug, Clone, PartialEq, Eq, Hash)]
pub struct ConsumedServiceInstance(Element);

impl AbstractionElement for ConsumedServiceInstance {
    closed spec fn spec_element(&self) -> Element {
        self.0
    }

    fn element(&self) -> (r: &Element) {
        proof {
            assert(self.spec_element() == self.0);
        }
        &self.0
    }
}

impl IdentifiableAbstractionElement for ConsumedServiceInstance {}

impl ConsumedServiceInstance {
    /// wrap an element of the model whose element name is `CONSUMED-SERVICE-INSTANCE`, when it stands in a SERVICE-INSTANCES element
    pub fn from_element(element: Element) -> (r: Result<Self, AutosarAbstractionError>)
        ensures
            r matches Ok(x) ==> x.spec_element() == element && spec_element_name(element) == "CONSUMED-SERVICE-INSTANCE"@,
            spec_element_name(element) != "CONSUMED-SERVICE-INSTANCE"@ ==> r is Err,
            r matches Err(e) ==> is_conversion_error(e, element, "ConsumedServiceInstance"@) || e is ModelError,
    {
        // the element must stand directly in a SERVICE-INSTANCES element
        let placed = match parent(&element)? {
            Some(p) => has_element_name(&p, "SERVICE-INSTANCES"),
            None => false,
        };
        if placed && has_element_name(&element, "CONSUMED-SERVICE-INSTANCE") {
            Ok(ConsumedServiceInstance(element))
        } else {
            Err(AutosarAbstractionError::ConversionError { element, dest: "ConsumedServiceInstance".to_owned() })
        }
    }
}

impl TryFrom<Element> for ConsumedServiceInstance {
    type Error = AutosarAbstractionError;

    fn try_from(element: Element) -> (r: Result<Self, Self::Error>)
        ensures
            r matches Ok(x) ==> x.spec_element() == element && spec_element_name(element) == "CONSUMED-SERVICE-INSTANCE"@,
            spec_element_name(element) != "CONSUMED-SERVICE-INSTANCE"@ ==> r is Err,
            r matches Err(e) ==> is_conversion_error(e, element, "ConsumedServiceInstance"@) || e is ModelError,
    {
        ConsumedServiceInstance::from_element(element)
    }
}

impl TryFromSpecImpl<Element> for ConsumedServiceInstance {
    open spec fn obeys_try_from_spec() -> bool {
        false
    }

    open spec fn try_from_spec(v: Element) -> Result<Self, AutosarAbstractionError> {
        arbitrary()
    }
}

impl From<ConsumedServiceInstance> for Element {
    fn from(value: ConsumedServiceInstance) -> (r: Element)
        ensures
            r == value.spec_element(),
    {
        value.0
    }
}

impl FromSpecImpl<ConsumedServiceInstance> for Element {
    open spec fn obeys_from_spec() -> bool {
        false
    }

    open spec fn from_spec(v: ConsumedServiceInstance) -> Element {
        arbitrary()
    }
}

impl ConsumedServiceInstance {
    /// set the SD client instance configuration for this `ConsumedServiceInstance`
    pub fn set_sd_client_instance_config(&self, config: &SomeipSdClientServiceInstanceConfig) -> (r: Result<(), AutosarAbstractionError>)
        ensures
            r matches Err(e) ==> e is ModelError || e is InvalidParameter,
    {
        add_conditional_reference(self.element(), "SD-CLIENT-TIMER-CONFIGS", "SOMEIP-SD-CLIENT-SERVICE-INSTANCE-CONFIG-REF-CONDITIONAL", "SOMEIP-SD-CLIENT-SERVICE-INSTANCE-CONFIG-REF", config.element())
    }

    /// get the SD client instance configuration for this `ConsumedServiceInstance`
    pub fn sd_client_instance_config(&self) -> (r: Option<SomeipSdClientServiceInstanceConfig>)
        ensures
            r matches Some(x) ==> spec_element_name(x.spec_element()) == "SOMEIP-SD-CLIENT-SERVICE-INSTANCE-CONFIG"@,
    {
        let target = conditional_reference_target(self.element(), "SD-CLIENT-TIMER-CONFIGS", "SOMEIP-SD-CLIENT-SERVICE-INSTANCE-CONFIG-REF-CONDITIONAL", "SOMEIP-SD-CLIENT-SERVICE-INSTANCE-CONFIG-REF")?;
        match SomeipSdClientServiceInstanceConfig::from_element(target) {
            Ok(config) => Some(config),
            Err(_) => None,
        }
    }

    /// create a new `ConsumedServiceInstance` in a SERVICE-INSTANCES element
    pub fn new(
        name: &str,
        parent_elem: &Element,
        service_identifier: u16,
        instance_identifier: u16,
        major_version: u32,
        minor_version: &str,
    ) -> (r: Result<Self, AutosarAbstractionError>)
        ensures
            r matches Ok(x) ==> spec_element_name(x.spec_element()) == "CONSUMED-SERVICE-INSTANCE"@,
            r matches Err(e) ==> e is ModelError || e is InvalidParameter,
    {
        let elem = create_named_sub_element(parent_elem, "CONSUMED-SERVICE-INSTANCE", name)?;
        let csi = Self(elem);
        csi.set_service_identifier(service_identifier)?;
        csi.set_instance_identifier(instance_identifier)?;
        csi.set_major_version(major_version)?;
        csi.set_minor_version(minor_version)?;
        Ok(csi)
    }

    /// set the service identifier of this `ConsumedServiceInstance`
    pub fn set_service_identifier(&self, service_identifier: u16) -> (r: Result<(), AutosarAbstractionError>)
        ensures
            r matches Err(e) ==> is_model_or_name_error(e, "SERVICE-IDENTIFIER"@),
    {
        set_character_data_u64(&get_or_create_sub_element(self.element(), "SERVICE-IDENTIFIER")?, service_identifier as u64)
    }

    /// get the service identifier of this `ConsumedServiceInstance`
    pub fn service_identifier(&self) -> Option<u16> {
        parse_u16(&sub_element_cdata(self.element(), "SERVICE-IDENTIFIER")?)
    }

    /// set the instance identifier of this `ConsumedServiceInstance`
    pub fn set_instance_identifier(&self, instance_identifier: u16) -> (r: Result<(), AutosarAbstractionError>)
        ensures
            r matches Err(e) ==> is_model_or_name_error(e, "INSTANCE-IDENTIFIER"@),
    {
        set_character_data_u64(&get_or_create_sub_element(self.element(), "INSTANCE-IDENTIFIER")?, instance_identifier as u64)
    }

    /// get the instance identifier of this `ConsumedServiceInstance`
    pub fn instance_identifier(&self) -> Option<u16> {
        parse_u16(&sub_element_cdata(self.element(), "INSTANCE-IDENTIFIER")?)
    }

    /// set the major version of this `ConsumedServiceInstance`
    pub fn set_major_version(&self, major_version: u32) -> (r: Result<(), AutosarAbstractionError>)
        ensures
            r matches Err(e) ==> is_model_or_name_error(e, "MAJOR-VERSION"@),
    {
        set_character_data_u64(&get_or_create_sub_element(self.element(), "MAJOR-VERSION")?, major_version as u64)
    }

    /// get the major version of this `ConsumedServiceInstance`
    pub fn major_version(&self) -> Option<u32> {
        parse_u32(&sub_element_cdata(self.element(), "MAJOR-VERSION")?)
    }

    /// set the minor version of this `ConsumedServiceInstance`
    ///
    /// The minor version can be a number or the String "ANY".
    pub fn set_minor_version(&self, minor_version: &str) -> (r: Result<(), AutosarAbstractionError>)
        ensures
            r matches Err(e) ==> is_model_or_name_error(e, "MINOR-VERSION"@),
    {
        set_character_data_text(&get_or_create_sub_element(self.element(), "MINOR-VERSION")?, minor_version)
    }

    /// get the minor version of this `ConsumedServiceInstance`
    ///
    /// The minor version can be a number or the String "ANY".
    pub fn minor_version(&self) -> Option<String> {
        sub_element_string(self.element(), "MINOR-VERSION")
    }

    /// create a new `ConsumedEventGroup` in this `ConsumedServiceInstance`
    pub fn create_consumed_event_group(&self, name: &str, event_group_identifier: u32) -> (r: Result<
        ConsumedEventGroup,
        AutosarAbstractionError,
    >)
        ensures
            r matches Err(e) ==> e is ModelError || e is InvalidParameter,
    {
        let cegs = get_or_create_sub_element(self.element(), "CONSUMED-EVENT-GROUPS")?;
        ConsumedEventGroup::new(name, &cegs, event_group_identifier)
    }

    /// the `ConsumedEventGroup`s in this `ConsumedServiceInstance`
    pub fn consumed_event_groups(&self) -> (r: Vec<ConsumedEventGroup>)
        ensures
            forall|i: int| 0 <= i < r.len() ==> spec_element_name(#[trigger] r@[i].spec_element()) == "CONSUMED-EVENT-GROUP"@,
    {
        let mut result: Vec<ConsumedEventGroup> = Vec::new();
        if let Some(cegs) = get_sub_element(self.element(), "CONSUMED-EVENT-GROUPS") {
            let subs = sub_elements(&cegs);
            for i in 0..subs.len()
                invariant
                    forall|j: int| 0 <= j < result.len() ==> spec_element_name(#[trigger] result@[j].spec_element()) == "CONSUMED-EVENT-GROUP"@,
            {
                if let Ok(ceg) = ConsumedEventGroup::from_element(subs[i].clone()) {
                    result.push(ceg);
                }
            }
        }
        result
    }

    /// set a local unicast address for this `ConsumedServiceInstance`
    ///
    /// The CSI may use two local unicast addresses, one each for UDP and TCP.
    /// If the consumed service instance does not specify a local unicast address
    /// because it only receives multicast messages, then the `ConsumedEventGroup`
    /// must have an eventMulticastAddress.
    pub fn set_local_unicast_address(&self, address: &SocketAddress) -> (r: Result<(), AutosarAbstractionError>)
        ensures
            r matches Err(e) ==> e is ModelError || e is InvalidParameter || e is ConversionError,
    {
        set_local_unicast_address(self.element(), address)
    }

    /// the local unicast addresses
    pub fn local_unicast_addresses(&self) -> Vec<LocalUnicastAddress> {
        local_unicast_addresses_of(self.element())
    }
}

//##################################################################

/// A `ConsumedEventGroup` is a group of events in a `ConsumedServiceInstance` that are consumed by an ECU
#[derive(Debug, Clone, PartialEq, Eq, Hash)]
pub struct ConsumedEventGroup(Element);

impl AbstractionElement for ConsumedEventGroup {
    closed spec fn spec_element(&self) -> Element {
        self.0
    }

    fn element(&self) -> (r: &Element) {
        proof {
            assert(self.spec_element() == self.0);
        }
        &self.0
    }
}

impl IdentifiableAbstractionElement for ConsumedEventGroup {}

impl ConsumedEventGroup {
    /// wrap an element of the model whose element name is `CONSUMED-EVENT-GROUP`, when it belongs to a service instance of a SERVICE-INSTANCE-COLLECTION-SET
    pub fn from_element(element: Element) -> (r: Result<Self, AutosarAbstractionError>)
        ensures
            r matches Ok(x) ==> x.spec_element() == element && spec_element_name(element) == "CONSUMED-EVENT-GROUP"@,
            spec_element_name(element) != "CONSUMED-EVENT-GROUP"@ ==> r is Err,
            r matches Err(e) ==> is_conversion_error(e, element, "ConsumedEventGroup"@) || e is ModelError,
    {
        // the named parent of the named parent must be a SERVICE-INSTANCE-COLLECTION-SET
        let placed = match named_parent(&element)? {
            Some(p) => match named_parent(&p) {
                Ok(Some(gp)) => has_element_name(&gp, "SERVICE-INSTANCE-COLLECTION-SET"),
                _ => false,
            },
            None => false,
        };
        if placed && has_element_name(&element, "CONSUMED-EVENT-GROUP") {
            Ok(ConsumedEventGroup(element))
        } else {
            Err(AutosarAbstractionError::ConversionError { element, dest: "ConsumedEventGroup".to_owned() })
        }
    }
}

impl TryFrom<Element> for ConsumedEventGroup {
    type Error = AutosarAbstractionError;

    fn try_from(element: Element) -> (r: Result<Self, Self::Error>)
        ensures
            r matches Ok(x) ==> x.spec_element() == element && spec_element_name(element) == "CONSUMED-EVENT-GROUP"@,
            spec_element_name(element) != "CONSUMED-EVENT-GROUP"@ ==> r is Err,
            r matches Err(e) ==> is_conversion_error(e, element, "ConsumedEventGroup"@) || e is ModelError,
    {
        ConsumedEventGroup::from_element(element)
    }
}

impl TryFromSpecImpl<Element> for ConsumedEventGroup {
    open spec fn obeys_try_from_spec() -> bool {
        false
    }

    open spec fn try_from_spec(v: Element) -> Result<Self, AutosarAbstractionError> {
        arbitrary()
    }
}

impl From<ConsumedEventGroup> for Element {
    fn from(value: ConsumedEventGroup) -> (r: Element)
        ensures
            r == value.spec_element(),
    {
        value.0
    }
}

impl FromSpecImpl<ConsumedEventGroup> for Element {
    open spec fn obeys_from_spec() -> bool {
        false
    }

    open spec fn from_spec(v: ConsumedEventGroup) -> Element {
        arbitrary()
    }
}

impl ConsumedEventGroup {
    /// create a new `PduActivationRoutingGroup` in this `ConsumedEventGroup`
    pub fn create_pdu_activation_routing_group(&self, name: &str, event_group_control_type: EventGroupControlType) -> (r: Result<
        PduActivationRoutingGroup,
        AutosarAbstractionError,
    >)
        ensures
            r matches Ok(x) ==> spec_element_name(x.spec_element()) == "PDU-ACTIVATION-ROUTING-GROUP"@,
            r matches Err(e) ==> e is ModelError || e is InvalidParameter,
    {
        let parent = get_or_create_sub_element(self.element(), "PDU-ACTIVATION-ROUTING-GROUPS")?;
        PduActivationRoutingGroup::new(name, &parent, event_group_control_type)
    }

    /// get the `PduActivationRoutingGroup`s in this `ConsumedEventGroup`
    pub fn pdu_activation_routing_groups(&self) -> (r: Vec<PduActivationRoutingGroup>)
        ensures
            forall|i: int| 0 <= i < r.len() ==> spec_element_name(#[trigger] r@[i].spec_element()) == "PDU-ACTIVATION-ROUTING-GROUP"@,
    {
        let subs = list_elements(self.element(), "PDU-ACTIVATION-ROUTING-GROUPS");
        let mut result: Vec<PduActivationRoutingGroup> = Vec::new();
        for i in 0..subs.len()
            invariant
                forall|j: int| 0 <= j < result.len() ==> spec_element_name(#[trigger] result@[j].spec_element()) == "PDU-ACTIVATION-ROUTING-GROUP"@,
        {
            if let Ok(item) = PduActivationRoutingGroup::from_element(subs[i].clone()) {
                result.push(item);
            }
        }
        result
    }

    /// set the SD client timer configuration for this `ConsumedEventGroup`
    pub fn set_sd_client_timer_config(&self, config: &SomeipSdClientEventGroupTimingConfig) -> (r: Result<(), AutosarAbstractionError>)
        ensures
            r matches Err(e) ==> e is ModelError || e is InvalidParameter,
    {
        add_conditional_reference(self.element(), "SD-CLIENT-TIMER-CONFIGS", "SOMEIP-SD-CLIENT-EVENT-GROUP-TIMING-CONFIG-REF-CONDITIONAL", "SOMEIP-SD-CLIENT-EVENT-GROUP-TIMING-CONFIG-REF", config.element())
    }

    /// get the SD client timer configuration for this `ConsumedEventGroup`
    pub fn sd_client_timer_config(&self) -> (r: Option<SomeipSdClientEventGroupTimingConfig>)
        ensures
            r matches Some(x) ==> spec_element_name(x.spec_element()) == "SOMEIP-SD-CLIENT-EVENT-GROUP-TIMING-CONFIG"@,
    {
        let target = conditional_reference_target(self.element(), "SD-CLIENT-TIMER-CONFIGS", "SOMEIP-SD-CLIENT-EVENT-GROUP-TIMING-CONFIG-REF-CONDITIONAL", "SOMEIP-SD-CLIENT-EVENT-GROUP-TIMING-CONFIG-REF")?;
        match SomeipSdClientEventGroupTimingConfig::from_element(target) {
            Ok(config) => Some(config),
            Err(_) => None,
        }
    }

    /// create a new `ConsumedEventGroup` in its parent element
    pub fn new(name: &str, parent_elem: &Element, event_group_identifier: u32) -> (r: Result<Self, AutosarAbstractionError>)
        ensures
            r matches Err(e) ==> e is ModelError || e is InvalidParameter,
    {
        let elem = create_named_sub_element(parent_elem, "CONSUMED-EVENT-GROUP", name)?;
        let group = Self(elem);
        group.set_event_group_identifier(event_group_identifier)?;
        Ok(group)
    }

    /// set the event group identifier of this `ConsumedEventGroup`
    pub fn set_event_group_identifier(&self, event_group_identifier: u32) -> (r: Result<(), AutosarAbstractionError>)
        ensures
            r matches Err(e) ==> is_model_or_name_error(e, "EVENT-GROUP-IDENTIFIER"@),
    {
        set_character_data_u64(&get_or_create_sub_element(self.element(), "EVENT-GROUP-IDENTIFIER")?, event_group_identifier as u64)
    }

    /// get the event group identifier of this `ConsumedEventGroup`
    pub fn event_group_identifier(&self) -> Option<u32> {
        parse_u32(&sub_element_cdata(self.element(), "EVENT-GROUP-IDENTIFIER")?)
    }

    /// add an event multicast address to this `ConsumedEventGroup`
    ///
    /// The socket address must have an application endpoint.
    pub fn add_event_multicast_address(&self, address: &SocketAddress) -> (r: Result<(), AutosarAbstractionError>)
        ensures
            r matches Err(e) ==> e is ModelError || e is InvalidParameter,
    {
        let application_endpoint = match get_sub_element(address.element(), "APPLICATION-ENDPOINT") {
            Some(ae) => ae,
            None => {
                return Err(
                    AutosarAbstractionError::InvalidParameter(
                        "Can't add the event multicast address: The target SocketAddress does not have an ApplicationEndpoint, so it can't be used".to_owned(),
                    ),
                );
            },
        };
        let container = get_or_create_sub_element(self.element(), "EVENT-MULTICAST-ADDRESSS")?;
        let conditional = create_sub_element(&container, "APPLICATION-ENDPOINT-REF-CONDITIONAL")?;
        let ae_ref = create_sub_element(&conditional, "APPLICATION-ENDPOINT-REF")?;
        set_reference_target(&ae_ref, &application_endpoint)
    }

    /// the event multicast addresses
    pub fn event_multicast_addresses(&self) -> (r: Vec<SocketAddress>)
        ensures
            forall|i: int| 0 <= i < r.len() ==> spec_element_name(#[trigger] r@[i].spec_element()) == "SOCKET-ADDRESS"@,
    {
        let mut result: Vec<SocketAddress> = Vec::new();
        if let Some(addresses) = get_sub_element(self.element(), "EVENT-MULTICAST-ADDRESSS") {
            let subs = sub_elements(&addresses);
            for i in 0..subs.len()
                invariant
                    forall|j: int| 0 <= j < result.len() ==> spec_element_name(#[trigger] result@[j].spec_element()) == "SOCKET-ADDRESS"@,
            {
                if let Some(socket_address) = referenced_socket_address(&subs[i]) {
                    result.push(socket_address);
                }
            }
        }
        result
    }
}

//##################################################################

/// A `LocalUnicastAddress` is a local address (TCP or UDP) that can be used for a `ProvidedServiceInstance` or `ConsumedServiceInstance`
#[derive(Debug, Clone, PartialEq, Eq, Hash)]
pub enum LocalUnicastAddress {
    /// A UDP address
    Udp(SocketAddress),
    /// A TCP address
    Tcp(SocketAddress),
}

impl LocalUnicastAddress {
    /// the socket address of the local unicast address
    pub open spec fn spec_socket_address(self) -> SocketAddress {
        match self {
            LocalUnicastAddress::Udp(socket_address) => socket_address,
            LocalUnicastAddress::Tcp(socket_address) => socket_address,
        }
    }

    /// the local unicast address of a socket address with the given transport protocol
    pub fn from_tp_config(socket_address: SocketAddress, tp_config: &TpConfig) -> (r: Self)
        ensures
            *tp_config is TcpTp ==> r == LocalUnicastAddress::Tcp(socket_address),
            *tp_config is UdpTp ==> r == LocalUnicastAddress::Udp(socket_address),
    {
        match tp_config {
            TpConfig::TcpTp { .. } => LocalUnicastAddress::Tcp(socket_address),
            TpConfig::UdpTp { .. } => LocalUnicastAddress::Udp(socket_address),
        }
    }
}

/// both settings use the same transport protocol: both TCP or both UDP
pub fn same_transport_protocol(a: &TpConfig, b: &TpConfig) -> (r: bool)
    ensures
        r == ((*a is TcpTp && *b is TcpTp) || (*a is UdpTp && *b is UdpTp)),
{
    a.is_tcp() == b.is_tcp()
}

/// the socket address that an APPLICATION-ENDPOINT-REF-CONDITIONAL element refers to, through the application endpoint
fn referenced_socket_address(ref_conditional: &Element) -> (r: Option<SocketAddress>)
    ensures
        r matches Some(x) ==> spec_element_name(x.spec_element()) == "SOCKET-ADDRESS"@,
{
    let ae_ref = get_sub_element(ref_conditional, "APPLICATION-ENDPOINT-REF")?;
    let ae = match get_reference_target(&ae_ref) {
        Ok(ae) => ae,
        Err(_) => return None,
    };
    let socket_elem = match named_parent(&ae) {
        Ok(Some(socket_elem)) => socket_elem,
        _ => return None,
    };
    match SocketAddress::from_element(socket_elem) {
        Ok(socket_address) => Some(socket_address),
        Err(_) => None,
    }
}

/// the message with which a socket address without an application endpoint is refused as a local address
pub open spec fn no_application_endpoint_message() -> Seq<char> {
    "Can't set the local address: The target SocketAddress does not have an ApplicationEndpoint, so it can't be used"@
}

/// the message with which a socket address without a TP configuration is refused as a local address
pub open spec fn no_tp_configuration_message() -> Seq<char> {
    "Can't set the local address: The target SocketAddress does not have a TP configuration, so it can't be used"@
}

/// Check that a socket address can be a local unicast address, given its application endpoint
/// and its TP configuration: it needs both.
pub fn check_local_unicast_target(application_endpoint: Option<Element>, tp_config: Option<TpConfig>) -> (r: Result<
    (Element, TpConfig),
    AutosarAbstractionError,
>)
    ensures
        application_endpoint is None ==> (r matches Err(e) && is_invalid_parameter(e, no_application_endpoint_message())),
        application_endpoint is Some && tp_config is None ==> (r matches Err(e) && is_invalid_parameter(
            e,
            no_tp_configuration_message(),
        )),
        application_endpoint matches Some(ae) ==> (tp_config matches Some(tp) ==> r == Ok::<
            (Element, TpConfig),
            AutosarAbstractionError,
        >((ae, tp))),
{
    let ae = match application_endpoint {
        Some(ae) => ae,
        None => {
            return Err(
                AutosarAbstractionError::InvalidParameter(
                    "Can't set the local address: The target SocketAddress does not have an ApplicationEndpoint, so it can't be used".to_owned(),
                ),
            );
        },
    };
    match tp_config {
        Some(tp) => Ok((ae, tp)),
        None => Err(
            AutosarAbstractionError::InvalidParameter(
                "Can't set the local address: The target SocketAddress does not have a TP configuration, so it can't be used".to_owned(),
            ),
        ),
    }
}

/// set a local unicast address of a service instance
///
/// A service instance may have one TCP and one UDP address: an existing address with the
/// transport protocol of the new one is replaced.
fn set_local_unicast_address(parent_elem: &Element, target_socket: &SocketAddress) -> (r: Result<(), AutosarAbstractionError>)
    ensures
        r matches Err(e) ==> e is ModelError || e is InvalidParameter || e is ConversionError,
{
    let application_endpoint = get_sub_element(target_socket.element(), "APPLICATION-ENDPOINT");
    let target_tp_config = target_socket.tp_config();
    let (target_appendpoint, tp_config) = check_local_unicast_target(application_endpoint, target_tp_config)?;

    let addresses_container = match get_sub_element(parent_elem, "LOCAL-UNICAST-ADDRESSS") {
        Some(addresses_container) => {
            // check if an address of the given type already exists and remove it
            let existing = sub_elements(&addresses_container);
            for i in 0..existing.len() {
                if let Some(existing_socket) = referenced_socket_address(&existing[i]) {
                    if let Some(existing_tp_config) = existing_socket.tp_config() {
                        if same_transport_protocol(&existing_tp_config, &tp_config) {
                            remove_sub_element(&addresses_container, existing[i].clone())?;
                        }
                    }
                }
            }
            addresses_container
        },
        None => create_sub_element(parent_elem, "LOCAL-UNICAST-ADDRESSS")?,
    };

    // no distinction between TCP and UDP addresses is needed when creating the new reference
    let conditional = create_sub_element(&addresses_container, "APPLICATION-ENDPOINT-REF-CONDITIONAL")?;
    let ae_ref = create_sub_element(&conditional, "APPLICATION-ENDPOINT-REF")?;
    set_reference_target(&ae_ref, &target_appendpoint)
}

/// the local unicast addresses of a service instance, each classified by the transport protocol of its socket address
fn local_unicast_addresses_of(element: &Element) -> (r: Vec<LocalUnicastAddress>)
    ensures
        forall|i: int| 0 <= i < r.len() ==> spec_element_name(#[trigger] r@[i].spec_socket_address().spec_element()) == "SOCKET-ADDRESS"@,
{
    let mut result: Vec<LocalUnicastAddress> = Vec::new();
    if let Some(addresses) = get_sub_element(element, "LOCAL-UNICAST-ADDRESSS") {
        let subs = sub_elements(&addresses);
        for i in 0..subs.len()
            invariant
                forall|j: int| 0 <= j < result.len() ==> spec_element_name(#[trigger] result@[j].spec_socket_address().spec_element()) == "SOCKET-ADDRESS"@,
        {
            if let Some(socket_address) = referenced_socket_address(&subs[i]) {
                if let Some(tp_config) = socket_address.tp_config() {
                    result.push(LocalUnicastAddress::from_tp_config(socket_address, &tp_config));
                }
            }
        }
    }
    result
}

//##################################################################

/// A group of Pdus that can be activated or deactivated for transmission over a socket connection.
/// It is used by `EventHandler`s in `ProvidedServiceInstance`s and `ConsumedServiceInstance`s.
#[derive(Debug, Clone, PartialEq, Eq, Hash)]
pub struct PduActivationRoutingGroup(Element);

impl AbstractionElement for PduActivationRoutingGroup {
    closed spec fn spec_element(&self) -> Element {
        self.0
    }

    fn element(&self) -> (r: &Element) {
        proof {
            assert(self.spec_element() == self.0);
        }
        &self.0
    }
}

impl PduActivationRoutingGroup {
    /// wrap an element of the model whose element name is `PDU-ACTIVATION-ROUTING-GROUP`
    pub fn from_element(element: Element) -> (r: Result<Self, AutosarAbstractionError>)
        ensures
            r is Ok <==> spec_element_name(element) == "PDU-ACTIVATION-ROUTING-GROUP"@,
            r matches Ok(x) ==> x.spec_element() == element,
            r matches Err(e) ==> is_conversion_error(e, element, "PduActivationRoutingGroup"@),
    {
        if has_element_name(&element, "PDU-ACTIVATION-ROUTING-GROUP") {
            Ok(PduActivationRoutingGroup(element))
        } else {
            Err(AutosarAbstractionError::ConversionError { element, dest: "PduActivationRoutingGroup".to_owned() })
        }
    }
}

impl TryFrom<Element> for PduActivationRoutingGroup {
    type Error = AutosarAbstractionError;

    fn try_from(element: Element) -> (r: Result<Self, Self::Error>)
        ensures
            r is Ok <==> spec_element_name(element) == "PDU-ACTIVATION-ROUTING-GROUP"@,
            r matches Ok(x) ==> x.spec_element() == element,
            r matches Err(e) ==> is_conversion_error(e, element, "PduActivationRoutingGroup"@),
    {
        PduActivationRoutingGroup::from_element(element)
    }
}

impl TryFromSpecImpl<Element> for PduActivationRoutingGroup {
    open spec fn obeys_try_from_spec() -> bool {
        false
    }

    open spec fn try_from_spec(v: Element) -> Result<Self, AutosarAbstractionError> {
        arbitrary()
    }
}

impl From<PduActivationRoutingGroup> for Element {
    fn from(value: PduActivationRoutingGroup) -> (r: Element)
        ensures
            r == value.spec_element(),
    {
        value.0
    }
}

impl FromSpecImpl<PduActivationRoutingGroup> for Element {
    open spec fn obeys_from_spec() -> bool {
        false
    }

    open spec fn from_spec(v: PduActivationRoutingGroup) -> Element {
        arbitrary()
    }
}

impl IdentifiableAbstractionElement for PduActivationRoutingGroup {}

impl PduActivationRoutingGroup {
    /// create a new `PduActivationRoutingGroup` below `parent`
    pub(crate) fn new(name: &str, parent: &Element, event_group_control_type: EventGroupControlType) -> (r: Result<
        Self,
        AutosarAbstractionError,
    >)
        ensures
            r matches Ok(x) ==> spec_element_name(x.spec_element()) == "PDU-ACTIVATION-ROUTING-GROUP"@,
            r matches Err(e) ==> e is ModelError || e is InvalidParameter,
    {
        let elem = create_named_sub_element(parent, "PDU-ACTIVATION-ROUTING-GROUP", name)?;
        let control_elem = create_sub_element(&elem, "EVENT-GROUP-CONTROL-TYPE")?;
        set_character_data_enum(&control_elem, event_group_control_type.item_text())?;
        Ok(Self(elem))
    }

    /// get the event group control type of this `PduActivationRoutingGroup`
    pub fn event_group_control_type(&self) -> Option<EventGroupControlType> {
        let text = sub_element_enum_text(self.element(), "EVENT-GROUP-CONTROL-TYPE")?;
        match EventGroupControlType::from_item_text(&text) {
            Ok(value) => Some(value),
            Err(_) => None,
        }
    }

    /// add a reference to a `SoConIPduIdentifier` for UDP communication to this `PduActivationRoutingGroup`
    pub fn add_ipdu_identifier_udp(&self, ipdu_identifier: &SoConIPduIdentifier) -> (r: Result<(), AutosarAbstractionError>)
        ensures
            r matches Err(e) ==> e is ModelError || e is InvalidParameter,
    {
        add_list_reference(self.element(), "I-PDU-IDENTIFIER-UDP-REFS", "I-PDU-IDENTIFIER-UDP-REF", ipdu_identifier.element())
    }

    /// get all `SoConIPduIdentifier`s for UDP communication in this `PduActivationRoutingGroup`
    pub fn ipdu_identifiers_udp(&self) -> (r: Vec<SoConIPduIdentifier>)
        ensures
            forall|i: int| 0 <= i < r.len() ==> spec_element_name(#[trigger] r@[i].spec_element()) == "SO-CON-I-PDU-IDENTIFIER"@,
    {
        let targets = list_reference_targets(self.element(), "I-PDU-IDENTIFIER-UDP-REFS");
        let mut result: Vec<SoConIPduIdentifier> = Vec::new();
        for i in 0..targets.len()
            invariant
                forall|j: int| 0 <= j < result.len() ==> spec_element_name(#[trigger] result@[j].spec_element()) == "SO-CON-I-PDU-IDENTIFIER"@,
        {
            if let Ok(item) = SoConIPduIdentifier::from_element(targets[i].clone()) {
                result.push(item);
            }
        }
        result
    }

    /// add a reference to a `SoConIPduIdentifier` for TCP communication to this `PduActivationRoutingGroup`
    pub fn add_ipdu_identifier_tcp(&self, ipdu_identifier: &SoConIPduIdentifier) -> (r: Result<(), AutosarAbstractionError>)
        ensures
            r matches Err(e) ==> e is ModelError || e is InvalidParameter,
    {
        add_list_reference(self.element(), "I-PDU-IDENTIFIER-TCP-REFS", "I-PDU-IDENTIFIER-TCP-REF", ipdu_identifier.element())
    }

    /// get all `SoConIPduIdentifier`s for TCP communication in this `PduActivationRoutingGroup`
    pub fn ipdu_identifiers_tcp(&self) -> (r: Vec<SoConIPduIdentifier>)
        ensures
            forall|i: int| 0 <= i < r.len() ==> spec_element_name(#[trigger] r@[i].spec_element()) == "SO-CON-I-PDU-IDENTIFIER"@,
    {
        let targets = list_reference_targets(self.element(), "I-PDU-IDENTIFIER-TCP-REFS");
        let mut result: Vec<SoConIPduIdentifier> = Vec::new();
        for i in 0..targets.len()
            invariant
                forall|j: int| 0 <= j < result.len() ==> spec_element_name(#[trigger] result@[j].spec_element()) == "SO-CON-I-PDU-IDENTIFIER"@,
        {
            if let Ok(item) = SoConIPduIdentifier::from_element(targets[i].clone()) {
                result.push(item);
            }
        }
        result
    }
}

} // verus!
