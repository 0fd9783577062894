//! SOME/IP service instances in the older form (up to Autosar 4.5.0): service instances that
//! stand in the application endpoint of a socket address.
//!
//! The service discovery configurations of these service instances hold floating point
//! delays; they are read and written outside this library.

use vstd::prelude::*;
use crate::elements::is_model_or_name_error;
use autosar_data::Element;
use vstd::std_specs::convert::{FromSpecImpl, TryFromSpecImpl};
use crate::{
    AbstractionElement, AutosarAbstractionError, IdentifiableAbstractionElement, has_element_name,
    is_conversion_error,
};
use crate::communication::{SoAdRoutingGroup, SocketAddress};
use crate::elements::{
    create_named_sub_element, create_sub_element, element_model, element_path, get_or_create_sub_element,
    get_reference_target, get_sub_element, named_parent, parent, references_to, set_character_data_u64,
    set_reference_target, spec_element_name, sub_elements,
};
use crate::values::{parse_u32, sub_element_cdata};
use crate::accessors::{add_list_reference, list_reference_targets, sub_element_target};

verus! {

/// A `ProvidedServiceInstanceV1` is a SD service instance that is provided by this ECU.
///
/// This is the old V1 version of the service definition.
#[derive(Debug, Clone, PartialEq, Eq, Hash)]
pub struct ProvidedServiceInstanceV1(Element);

impl AbstractionElement for ProvidedServiceInstanceV1 {
    closed spec fn spec_element(&self) -> Element {
        self.0
    }

    fn element(&self) -> (r: &Element) {
        proof {
            assert(self.spec_element() == self.0);
        }
        &self.0
    }
}

impl IdentifiableAbstractionElement for ProvidedServiceInstanceV1 {}

impl ProvidedServiceInstanceV1 {
    /// wrap an element of the model whose element name is `PROVIDED-SERVICE-INSTANCE`, when it stands in a PROVIDED-SERVICE-INSTANCES element
    pub fn from_element(element: Element) -> (r: Result<Self, AutosarAbstractionError>)
        ensures
            r matches Ok(x) ==> x.spec_element() == element && spec_element_name(element) == "PROVIDED-SERVICE-INSTANCE"@,
            spec_element_name(element) != "PROVIDED-SERVICE-INSTANCE"@ ==> r is Err,
            r matches Err(e) ==> is_conversion_error(e, element, "ProvidedServiceInstanceV1"@) || e is ModelError,
    {
        // the element must stand directly in a PROVIDED-SERVICE-INSTANCES element
        let placed = match parent(&element)? {
            Some(p) => has_element_name(&p, "PROVIDED-SERVICE-INSTANCES"),
            None => false,
        };
        if placed && has_element_name(&element, "PROVIDED-SERVICE-INSTANCE") {
            Ok(ProvidedServiceInstanceV1(element))
        } else {
            Err(AutosarAbstractionError::ConversionError { element, dest: "ProvidedServiceInstanceV1".to_owned() })
        }
    }
}

impl TryFrom<Element> for ProvidedServiceInstanceV1 {
    type Error = AutosarAbstractionError;

    fn try_from(element: Element) -> (r: Result<Self, Self::Error>)
        ensures
            r matches Ok(x) ==> x.spec_element() == element && spec_element_name(element) == "PROVIDED-SERVICE-INSTANCE"@,
            spec_element_name(element) != "PROVIDED-SERVICE-INSTANCE"@ ==> r is Err,
            r matches Err(e) ==> is_conversion_error(e, element, "ProvidedServiceInstanceV1"@) || e is ModelError,
    {
        ProvidedServiceInstanceV1::from_element(element)
    }
}

impl TryFromSpecImpl<Element> for ProvidedServiceInstanceV1 {
    open spec fn obeys_try_from_spec() -> bool {
        false
    }

    open spec fn try_from_spec(v: Element) -> Result<Self, AutosarAbstractionError> {
        arbitrary()
    }
}

impl From<ProvidedServiceInstanceV1> for Element {
    fn from(value: ProvidedServiceInstanceV1) -> (r: Element)
        ensures
            r == value.spec_element(),
    {
        value.0
    }
}

impl FromSpecImpl<ProvidedServiceInstanceV1> for Element {
    open spec fn obeys_from_spec() -> bool {
        false
    }

    open spec fn from_spec(v: ProvidedServiceInstanceV1) -> Element {
        arbitrary()
    }
}

impl ProvidedServiceInstanceV1 {
    /// create a new `ProvidedServiceInstanceV1` in a PROVIDED-SERVICE-INSTANCES element
    pub fn new(name: &str, parent_elem: &Element, service_identifier: u16, instance_identifier: u16) -> (r: Result<
        Self,
        AutosarAbstractionError,
    >)
        ensures
            r matches Ok(x) ==> spec_element_name(x.spec_element()) == "PROVIDED-SERVICE-INSTANCE"@,
            r matches Err(e) ==> e is ModelError || e is InvalidParameter,
    {
        let elem = create_named_sub_element(parent_elem, "PROVIDED-SERVICE-INSTANCE", name)?;
        let psi = Self(elem);
        psi.set_service_identifier(service_identifier as u32)?;
        psi.set_instance_identifier(instance_identifier as u32)?;
        Ok(psi)
    }

    /// set the service identifier of this `ProvidedServiceInstanceV1`
    pub fn set_service_identifier(&self, service_identifier: u32) -> (r: Result<(), AutosarAbstractionError>)
        ensures
            r matches Err(e) ==> is_model_or_name_error(e, "SERVICE-IDENTIFIER"@),
    {
        set_character_data_u64(&get_or_create_sub_element(self.element(), "SERVICE-IDENTIFIER")?, service_identifier as u64)
    }

    /// get the service identifier of this `ProvidedServiceInstanceV1`
    pub fn service_identifier(&self) -> Option<u32> {
        parse_u32(&sub_element_cdata(self.element(), "SERVICE-IDENTIFIER")?)
    }

    /// set the instance identifier of this `ProvidedServiceInstanceV1`
    pub fn set_instance_identifier(&self, instance_identifier: u32) -> (r: Result<(), AutosarAbstractionError>)
        ensures
            r matches Err(e) ==> is_model_or_name_error(e, "INSTANCE-IDENTIFIER"@),
    {
        set_character_data_u64(&get_or_create_sub_element(self.element(), "INSTANCE-IDENTIFIER")?, instance_identifier as u64)
    }

    /// get the instance identifier of this `ProvidedServiceInstanceV1`
    pub fn instance_identifier(&self) -> Option<u32> {
        parse_u32(&sub_element_cdata(self.element(), "INSTANCE-IDENTIFIER")?)
    }

    /// create a new `EventHandlerV1` in this `ProvidedServiceInstanceV1`
    pub fn create_event_handler(&self, name: &str) -> (r: Result<EventHandlerV1, AutosarAbstractionError>)
        ensures
            r matches Err(e) ==> e is ModelError || e is InvalidParameter,
    {
        let ehs = get_or_create_sub_element(self.element(), "EVENT-HANDLERS")?;
        EventHandlerV1::new(name, &ehs)
    }

    /// the `EventHandlerV1`s in this `ProvidedServiceInstanceV1`
    pub fn event_handlers(&self) -> (r: Vec<EventHandlerV1>)
        ensures
            forall|i: int| 0 <= i < r.len() ==> spec_element_name(#[trigger] r@[i].spec_element()) == "EVENT-HANDLER"@,
    {
        let mut result: Vec<EventHandlerV1> = Vec::new();
        if let Some(ehs) = get_sub_element(self.element(), "EVENT-HANDLERS") {
            let subs = sub_elements(&ehs);
            for i in 0..subs.len()
                invariant
                    forall|j: int| 0 <= j < result.len() ==> spec_element_name(#[trigger] result@[j].spec_element()) == "EVENT-HANDLER"@,
            {
                if let Ok(eh) = EventHandlerV1::from_element(subs[i].clone()) {
                    result.push(eh);
                }
            }
        }
        result
    }
}

//##################################################################

/// An `EventHandlerV1` is a SD event handler that is used to receive events from other ECUs.
///
/// This is the old V1 version of the service definition.
#[derive(Debug, Clone, PartialEq, Eq, Hash)]
pub struct EventHandlerV1(Element);

impl AbstractionElement for EventHandlerV1 {
    closed spec fn spec_element(&self) -> Element {
        self.0
    }

    fn element(&self) -> (r: &Element) {
        proof {
            assert(self.spec_element() == self.0);
        }
        &self.0
    }
}

impl IdentifiableAbstractionElement for EventHandlerV1 {}

impl EventHandlerV1 {
    /// wrap an element of the model whose element name is `EVENT-HANDLER`, when it belongs to a service instance of an APPLICATION-ENDPOINT
    pub fn from_element(element: Element) -> (r: Result<Self, AutosarAbstractionError>)
        ensures
            r matches Ok(x) ==> x.spec_element() == element && spec_element_name(element) == "EVENT-HANDLER"@,
            spec_element_name(element) != "EVENT-HANDLER"@ ==> r is Err,
            r matches Err(e) ==> is_conversion_error(e, element, "EventHandlerV1"@) || e is ModelError,
    {
        // the named parent of the named parent must be an APPLICATION-ENDPOINT
        let placed = match named_parent(&element)? {
            Some(p) => match named_parent(&p) {
                Ok(Some(gp)) => has_element_name(&gp, "APPLICATION-ENDPOINT"),
                _ => false,
            },
            None => false,
        };
        if placed && has_element_name(&element, "EVENT-HANDLER") {
            Ok(EventHandlerV1(element))
        } else {
            Err(AutosarAbstractionError::ConversionError { element, dest: "EventHandlerV1".to_owned() })
        }
    }
}

impl TryFrom<Element> for EventHandlerV1 {
    type Error = AutosarAbstractionError;

    fn try_from(element: Element) -> (r: Result<Self, Self::Error>)
        ensures
            r matches Ok(x) ==> x.spec_element() == element && spec_element_name(element) == "EVENT-HANDLER"@,
            spec_element_name(element) != "EVENT-HANDLER"@ ==> r is Err,
            r matches Err(e) ==> is_conversion_error(e, element, "EventHandlerV1"@) || e is ModelError,
    {
        EventHandlerV1::from_element(element)
    }
}

impl TryFromSpecImpl<Element> for EventHandlerV1 {
    open spec fn obeys_try_from_spec() -> bool {
        false
    }

    open spec fn try_from_spec(v: Element) -> Result<Self, AutosarAbstractionError> {
        arbitrary()
    }
}

impl From<EventHandlerV1> for Element {
    fn from(value: EventHandlerV1) -> (r: Element)
        ensures
            r == value.spec_element(),
    {
        value.0
    }
}

impl FromSpecImpl<EventHandlerV1> for Element {
    open spec fn obeys_from_spec() -> bool {
        false
    }

    open spec fn from_spec(v: EventHandlerV1) -> Element {
        arbitrary()
    }
}

impl EventHandlerV1 {
    /// add a reference to a `SoAdRoutingGroup` to this `EventHandler`
    pub fn add_routing_group(&self, routing_group: &SoAdRoutingGroup) -> (r: Result<(), AutosarAbstractionError>)
        ensures
            r matches Err(e) ==> e is ModelError || e is InvalidParameter,
    {
        add_list_reference(self.element(), "ROUTING-GROUP-REFS", "ROUTING-GROUP-REF", routing_group.element())
    }

    /// get the routing groups referenced by this `EventHandler`
    pub fn routing_groups(&self) -> (r: Vec<SoAdRoutingGroup>)
        ensures
            forall|i: int| 0 <= i < r.len() ==> spec_element_name(#[trigger] r@[i].spec_element()) == "SO-AD-ROUTING-GROUP"@,
    {
        let targets = list_reference_targets(self.element(), "ROUTING-GROUP-REFS");
        let mut result: Vec<SoAdRoutingGroup> = Vec::new();
        for i in 0..targets.len()
            invariant
                forall|j: int| 0 <= j < result.len() ==> spec_element_name(#[trigger] result@[j].spec_element()) == "SO-AD-ROUTING-GROUP"@,
        {
            if let Ok(item) = SoAdRoutingGroup::from_element(targets[i].clone()) {
                result.push(item);
            }
        }
        result
    }

    /// create a new `EventHandlerV1` in an EVENT-HANDLERS element
    pub fn new(name: &str, parent_elem: &Element) -> (r: Result<Self, AutosarAbstractionError>)
        ensures
            r matches Ok(x) ==> spec_element_name(x.spec_element()) == "EVENT-HANDLER"@,
            r matches Err(e) ==> e is ModelError || e is InvalidParameter,
    {
        let elem = create_named_sub_element(parent_elem, "EVENT-HANDLER", name)?;
        Ok(Self(elem))
    }

    /// add a reference to a `ConsumedEventGroupV1` to this `EventHandlerV1`
    pub fn add_consumed_event_group(&self, consumed_event_group: &ConsumedEventGroupV1) -> (r: Result<
        (),
        AutosarAbstractionError,
    >)
        ensures
            r matches Err(e) ==> e is ModelError || e is InvalidParameter,
    {
        let refs = get_or_create_sub_element(self.element(), "CONSUMED-EVENT-GROUP-REFS")?;
        let ceg_ref = create_sub_element(&refs, "CONSUMED-EVENT-GROUP-REF")?;
        set_reference_target(&ceg_ref, consumed_event_group.element())
    }

    /// the consumed event groups referenced by this `EventHandlerV1`
    pub fn consumed_event_groups(&self) -> (r: Vec<ConsumedEventGroupV1>)
        ensures
            forall|i: int| 0 <= i < r.len() ==> spec_element_name(#[trigger] r@[i].spec_element()) == "CONSUMED-EVENT-GROUP"@,
    {
        let mut result: Vec<ConsumedEventGroupV1> = Vec::new();
        if let Some(refs) = get_sub_element(self.element(), "CONSUMED-EVENT-GROUP-REFS") {
            let subs = sub_elements(&refs);
            for i in 0..subs.len()
                invariant
                    forall|j: int| 0 <= j < result.len() ==> spec_element_name(#[trigger] result@[j].spec_element()) == "CONSUMED-EVENT-GROUP"@,
            {
                if let Ok(target) = get_reference_target(&subs[i]) {
                    if let Ok(ceg) = ConsumedEventGroupV1::from_element(target) {
                        result.push(ceg);
                    }
                }
            }
        }
        result
    }
}

//##################################################################

/// A `ConsumedServiceInstanceV1` is a SD service instance that is consumed by this ECU.
///
/// This is the old V1 version of the service definition.
#[derive(Debug, Clone, PartialEq, Eq, Hash)]
pub struct ConsumedServiceInstanceV1(Element);

impl AbstractionElement for ConsumedServiceInstanceV1 {
    closed spec fn spec_element(&self) -> Element {
        self.0
    }

    fn element(&self) -> (r: &Element) {
        proof {
            assert(self.spec_element() == self.0);
        }
        &self.0
    }
}

impl IdentifiableAbstractionElement for ConsumedServiceInstanceV1 {}

impl ConsumedServiceInstanceV1 {
    /// wrap an element of the model whose element name is `CONSUMED-SERVICE-INSTANCE`, when it stands in a CONSUMED-SERVICE-INSTANCES element
    pub fn from_element(element: Element) -> (r: Result<Self, AutosarAbstractionError>)
        ensures
            r matches Ok(x) ==> x.spec_element() == element && spec_element_name(element) == "CONSUMED-SERVICE-INSTANCE"@,
            spec_element_name(element) != "CONSUMED-SERVICE-INSTANCE"@ ==> r is Err,
            r matches Err(e) ==> is_conversion_error(e, element, "ConsumedServiceInstanceV1"@) || e is ModelError,
    {
        // the element must stand directly in a CONSUMED-SERVICE-INSTANCES element
        let placed = match parent(&element)? {
            Some(p) => has_element_name(&p, "CONSUMED-SERVICE-INSTANCES"),
            None => false,
        };
        if placed && has_element_name(&element, "CONSUMED-SERVICE-INSTANCE") {
            Ok(ConsumedServiceInstanceV1(element))
        } else {
            Err(AutosarAbstractionError::ConversionError { element, dest: "ConsumedServiceInstanceV1".to_owned() })
        }
    }
}

impl TryFrom<Element> for ConsumedServiceInstanceV1 {
    type Error = AutosarAbstractionError;

    fn try_from(element: Element) -> (r: Result<Self, Self::Error>)
        ensures
            r matches Ok(x) ==> x.spec_element() == element && spec_element_name(element) == "CONSUMED-SERVICE-INSTANCE"@,
            spec_element_name(element) != "CONSUMED-SERVICE-INSTANCE"@ ==> r is Err,
            r matches Err(e) ==> is_conversion_error(e, element, "ConsumedServiceInstanceV1"@) || e is ModelError,
    {
        ConsumedServiceInstanceV1::from_element(element)
    }
}

impl TryFromSpecImpl<Element> for ConsumedServiceInstanceV1 {
    open spec fn obeys_try_from_spec() -> bool {
        false
    }

    open spec fn try_from_spec(v: Element) -> Result<Self, AutosarAbstractionError> {
        arbitrary()
    }
}

impl From<ConsumedServiceInstanceV1> for Element {
    fn from(value: ConsumedServiceInstanceV1) -> (r: Element)
        ensures
            r == value.spec_element(),
    {
        value.0
    }
}

impl FromSpecImpl<ConsumedServiceInstanceV1> for Element {
    open spec fn obeys_from_spec() -> bool {
        false
    }

    open spec fn from_spec(v: ConsumedServiceInstanceV1) -> Element {
        arbitrary()
    }
}

impl ConsumedServiceInstanceV1 {
    /// create a new `ConsumedServiceInstanceV1` in a CONSUMED-SERVICE-INSTANCES element, which refers to the provided service instance
    pub fn new(name: &str, parent_elem: &Element, provided_service_instance: &ProvidedServiceInstanceV1) -> (r: Result<
        Self,
        AutosarAbstractionError,
    >)
        ensures
            r matches Ok(x) ==> spec_element_name(x.spec_element()) == "CONSUMED-SERVICE-INSTANCE"@,
            r matches Err(e) ==> e is ModelError || e is InvalidParameter,
    {
        let elem = create_named_sub_element(parent_elem, "CONSUMED-SERVICE-INSTANCE", name)?;
        let psi_ref = create_sub_element(&elem, "PROVIDED-SERVICE-INSTANCE-REF")?;
        set_reference_target(&psi_ref, provided_service_instance.element())?;
        Ok(Self(elem))
    }

    /// the `ProvidedServiceInstanceV1` referenced by this `ConsumedServiceInstanceV1`
    pub fn provided_service_instance(&self) -> (r: Option<ProvidedServiceInstanceV1>)
        ensures
            r matches Some(x) ==> spec_element_name(x.spec_element()) == "PROVIDED-SERVICE-INSTANCE"@,
    {
        match ProvidedServiceInstanceV1::from_element(sub_element_target(self.element(), "PROVIDED-SERVICE-INSTANCE-REF")?) {
            Ok(psi) => Some(psi),
            Err(_) => None,
        }
    }

    /// create a new `ConsumedEventGroupV1` in this `ConsumedServiceInstanceV1`
    pub fn create_consumed_event_group(
        &self,
        name: &str,
        event_group_identifier: u32,
        event_handler: &EventHandlerV1,
    ) -> (r: Result<ConsumedEventGroupV1, AutosarAbstractionError>)
        ensures
            r matches Err(e) ==> e is ModelError || e is InvalidParameter,
    {
        let cegs = get_or_create_sub_element(self.element(), "CONSUMED-EVENT-GROUPS")?;
        ConsumedEventGroupV1::new(name, &cegs, event_group_identifier, event_handler)
    }

    /// the `ConsumedEventGroupV1`s in this `ConsumedServiceInstanceV1`
    pub fn consumed_event_groups(&self) -> (r: Vec<ConsumedEventGroupV1>)
        ensures
            forall|i: int| 0 <= i < r.len() ==> spec_element_name(#[trigger] r@[i].spec_element()) == "CONSUMED-EVENT-GROUP"@,
    {
        let mut result: Vec<ConsumedEventGroupV1> = Vec::new();
        if let Some(cegs) = get_sub_element(self.element(), "CONSUMED-EVENT-GROUPS") {
            let subs = sub_elements(&cegs);
            for i in 0..subs.len()
                invariant
                    forall|j: int| 0 <= j < result.len() ==> spec_element_name(#[trigger] result@[j].spec_element()) == "CONSUMED-EVENT-GROUP"@,
            {
                if let Ok(ceg) = ConsumedEventGroupV1::from_element(subs[i].clone()) {
                    result.push(ceg);
                }
            }
        }
        result
    }
}

//##################################################################

/// A `ConsumedEventGroupV1` is a SD event group of a service instance that is consumed by this ECU.
///
/// This is the old V1 version of the service definition.
#[derive(Debug, Clone, PartialEq, Eq, Hash)]
pub struct ConsumedEventGroupV1(Element);

impl AbstractionElement for ConsumedEventGroupV1 {
    closed spec fn spec_element(&self) -> Element {
        self.0
    }

    fn element(&self) -> (r: &Element) {
        proof {
            assert(self.spec_element() == self.0);
        }
        &self.0
    }
}

impl IdentifiableAbstractionElement for ConsumedEventGroupV1 {}

impl ConsumedEventGroupV1 {
    /// wrap an element of the model whose element name is `CONSUMED-EVENT-GROUP`, when it belongs to a service instance of an APPLICATION-ENDPOINT
    pub fn from_element(element: Element) -> (r: Result<Self, AutosarAbstractionError>)
        ensures
            r matches Ok(x) ==> x.spec_element() == element && spec_element_name(element) == "CONSUMED-EVENT-GROUP"@,
            spec_element_name(element) != "CONSUMED-EVENT-GROUP"@ ==> r is Err,
            r matches Err(e) ==> is_conversion_error(e, element, "ConsumedEventGroupV1"@) || e is ModelError,
    {
        // the named parent of the named parent must be an APPLICATION-ENDPOINT
        let placed = match named_parent(&element)? {
            Some(p) => match named_parent(&p) {
                Ok(Some(gp)) => has_element_name(&gp, "APPLICATION-ENDPOINT"),
                _ => false,
            },
            None => false,
        };
        if placed && has_element_name(&element, "CONSUMED-EVENT-GROUP") {
            Ok(ConsumedEventGroupV1(element))
        } else {
            Err(AutosarAbstractionError::ConversionError { element, dest: "ConsumedEventGroupV1".to_owned() })
        }
    }
}

impl TryFrom<Element> for ConsumedEventGroupV1 {
    type Error = AutosarAbstractionError;

    fn try_from(element: Element) -> (r: Result<Self, Self::Error>)
        ensures
            r matches Ok(x) ==> x.spec_element() == element && spec_element_name(element) == "CONSUMED-EVENT-GROUP"@,
            spec_element_name(element) != "CONSUMED-EVENT-GROUP"@ ==> r is Err,
            r matches Err(e) ==> is_conversion_error(e, element, "ConsumedEventGroupV1"@) || e is ModelError,
    {
        ConsumedEventGroupV1::from_element(element)
    }
}

impl TryFromSpecImpl<Element> for ConsumedEventGroupV1 {
    open spec fn obeys_try_from_spec() -> bool {
        false
    }

    open spec fn try_from_spec(v: Element) -> Result<Self, AutosarAbstractionError> {
        arbitrary()
    }
}

impl From<ConsumedEventGroupV1> for Element {
    fn from(value: ConsumedEventGroupV1) -> (r: Element)
        ensures
            r == value.spec_element(),
    {
        value.0
    }
}

impl FromSpecImpl<ConsumedEventGroupV1> for Element {
    open spec fn obeys_from_spec() -> bool {
        false
    }

    open spec fn from_spec(v: ConsumedEventGroupV1) -> Element {
        arbitrary()
    }
}

impl ConsumedEventGroupV1 {
    /// add a reference to a `SoAdRoutingGroup` to this `ConsumedEventGroup`
    pub fn add_routing_group(&self, routing_group: &SoAdRoutingGroup) -> (r: Result<(), AutosarAbstractionError>)
        ensures
            r matches Err(e) ==> e is ModelError || e is InvalidParameter,
    {
        add_list_reference(self.element(), "ROUTING-GROUP-REFS", "ROUTING-GROUP-REF", routing_group.element())
    }

    /// get the routing groups referenced by this `ConsumedEventGroup`
    pub fn routing_groups(&self) -> (r: Vec<SoAdRoutingGroup>)
        ensures
            forall|i: int| 0 <= i < r.len() ==> spec_element_name(#[trigger] r@[i].spec_element()) == "SO-AD-ROUTING-GROUP"@,
    {
        let targets = list_reference_targets(self.element(), "ROUTING-GROUP-REFS");
        let mut result: Vec<SoAdRoutingGroup> = Vec::new();
        for i in 0..targets.len()
            invariant
                forall|j: int| 0 <= j < result.len() ==> spec_element_name(#[trigger] result@[j].spec_element()) == "SO-AD-ROUTING-GROUP"@,
        {
            if let Ok(item) = SoAdRoutingGroup::from_element(targets[i].clone()) {
                result.push(item);
            }
        }
        result
    }

    /// create a new `ConsumedEventGroupV1` in the CONSUMED-EVENT-GROUPS element of a consumed service instance
    ///
    /// The new group refers to the application endpoint of the consumed service instance, and the
    /// event handler refers to the new group.
    pub fn new(name: &str, parent_elem: &Element, event_group_identifier: u32, event_handler: &EventHandlerV1) -> (r:
        Result<Self, AutosarAbstractionError>)
        ensures
            r matches Ok(x) ==> spec_element_name(x.spec_element()) == "CONSUMED-EVENT-GROUP"@,
            r matches Err(e) ==> e is ModelError || e is InvalidParameter,
    {
        let ceg_elem = create_named_sub_element(parent_elem, "CONSUMED-EVENT-GROUP", name)?;
        // go back up the chain to find the ApplicationEndpoint
        let csi = match named_parent(parent_elem)? {
            Some(csi) => csi,
            None => {
                return Err(AutosarAbstractionError::InvalidParameter("the consumed event group has no service instance".to_owned()));
            },
        };
        let ae = match named_parent(&csi)? {
            Some(ae) => ae,
            None => {
                return Err(
                    AutosarAbstractionError::InvalidParameter("the service instance has no application endpoint".to_owned()),
                );
            },
        };
        let ae_ref = create_sub_element(&ceg_elem, "APPLICATION-ENDPOINT-REF")?;
        set_reference_target(&ae_ref, &ae)?;
        let ceg = Self(ceg_elem);
        event_handler.add_consumed_event_group(&ceg)?;
        ceg.set_event_group_identifier(event_group_identifier)?;
        Ok(ceg)
    }

    /// the `EventHandlerV1`s that refer to this `ConsumedEventGroupV1`
    pub fn event_handlers(&self) -> (r: Vec<EventHandlerV1>)
        ensures
            forall|i: int| 0 <= i < r.len() ==> spec_element_name(#[trigger] r@[i].spec_element()) == "EVENT-HANDLER"@,
    {
        let mut result: Vec<EventHandlerV1> = Vec::new();
        let model = match element_model(self.element()) {
            Ok(model) => model,
            Err(_) => return result,
        };
        let path = match element_path(self.element()) {
            Ok(path) => path,
            Err(_) => return result,
        };
        let referrers = references_to(&model, &path);
        for i in 0..referrers.len()
            invariant
                forall|j: int| 0 <= j < result.len() ==> spec_element_name(#[trigger] result@[j].spec_element()) == "EVENT-HANDLER"@,
        {
            if let Some(ref_elem) = &referrers[i] {
                if let Ok(Some(holder)) = named_parent(ref_elem) {
                    if let Ok(eh) = EventHandlerV1::from_element(holder) {
                        result.push(eh);
                    }
                }
            }
        }
        result
    }

    /// set the `SocketAddress` that receives events from this `ConsumedEventGroup`
    /// This may be a different `SocketAddress` than the one that is used to send requests.
    pub fn set_application_endpoint(&self, socket_address: &SocketAddress) -> (r: Result<(), AutosarAbstractionError>)
        ensures
            r matches Err(e) ==> e is ModelError || e is InvalidParameter,
    {
        let ae_elem = match get_sub_element(socket_address.element(), "APPLICATION-ENDPOINT") {
            Some(ae) => ae,
            None => {
                return Err(AutosarAbstractionError::InvalidParameter("SocketAddress does not have an ApplicationEndpoint".to_owned()));
            },
        };
        let ae_ref = get_or_create_sub_element(self.element(), "APPLICATION-ENDPOINT-REF")?;
        set_reference_target(&ae_ref, &ae_elem)
    }

    /// get the Socket that receives events from this `ConsumedEventGroup`
    /// This may be a different Socket than the one that is used to send requests.
    pub fn application_endpoint(&self) -> (r: Option<SocketAddress>)
        ensures
            r matches Some(x) ==> spec_element_name(x.spec_element()) == "SOCKET-ADDRESS"@,
    {
        let ae = sub_element_target(self.element(), "APPLICATION-ENDPOINT-REF")?;
        match parent(&ae) {
            Ok(Some(socket_elem)) => match SocketAddress::from_element(socket_elem) {
                Ok(socket_address) => Some(socket_address),
                Err(_) => None,
            },
            _ => None,
        }
    }

    /// set the event group identifier of this `ConsumedEventGroupV1`
    pub fn set_event_group_identifier(&self, event_group_identifier: u32) -> (r: Result<(), AutosarAbstractionError>)
        ensures
            r matches Err(e) ==> is_model_or_name_error(e, "EVENT-GROUP-IDENTIFIER"@),
    {
        set_character_data_u64(&get_or_create_sub_element(self.element(), "EVENT-GROUP-IDENTIFIER")?, event_group_identifier as u64)
    }

    /// get the event group identifier of this `ConsumedEventGroupV1`
    pub fn event_group_identifier(&self) -> Option<u32> {
        parse_u32(&sub_element_cdata(self.element(), "EVENT-GROUP-IDENTIFIER")?)
    }
}

} // verus!
