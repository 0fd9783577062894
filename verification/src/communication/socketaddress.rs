//! Socket addresses: the link between ECUs and a network endpoint, with transport protocol settings.

use vstd::prelude::*;
use autosar_data::Element;
use vstd::std_specs::convert::{FromSpecImpl, TryFromSpecImpl};
use crate::{
    AbstractionElement, AutosarAbstractionError, EcuInstance, IdentifiableAbstractionElement, has_element_name,
    is_conversion_error, is_invalid_parameter,
};
use crate::communication::{
    ConsumedServiceInstanceV1, EthernetCommunicationConnector, EthernetPhysicalChannel, NetworkEndpoint,
    ProvidedServiceInstanceV1,
};
use crate::elements::{
    create_named_sub_element, create_sub_element, get_or_create_named_sub_element, get_or_create_sub_element,
    get_reference_target,
    get_sub_element, named_parent, same_element, set_character_data_bool, set_character_data_text,
    set_reference_target, spec_element_name, sub_elements,
};
use crate::text::{decimal_text, join_text, text_equals};
use crate::values::{parse_u16, sub_element_cdata, sub_element_string};

verus! {

/// the message of the error for a multicast socket address with TCP
pub open spec fn tcp_multicast_message() -> Seq<char> {
    "TCP is incomptible with multicasting"@
}

/// the message of the error for a socket address with an ECU that is not connected to the channel
pub open spec fn not_all_connected_message() -> Seq<char> {
    "All EcuInstances must be connected to the EthernetPhysicalChannel"@
}

/// the message of the error for an ECU that is not connected to the channel of a socket address
pub open spec fn unconnected_ecu_message() -> Seq<char> {
    "EcuInstance is not connected to the EthernetPhysicalChannel"@
}

/// the message of the error for adding a multicast ECU to a unicast socket address
pub open spec fn not_multicast_message() -> Seq<char> {
    "This SocketAddress is not a multicast socket"@
}

/// the message of the error for setting the unicast ECU of a multicast socket address
pub open spec fn not_unicast_message() -> Seq<char> {
    "This SocketAddress is not a unicast socket"@
}

/// The element names that a new socket address writes differ from the message of the TCP/multicast refusal.
proof fn lemma_texts_differ_from_tcp_message()
    ensures
        "SO-AD-CONFIG"@ != tcp_multicast_message(),
        "SOCKET-ADDRESSS"@ != tcp_multicast_message(),
        "SOCKET-ADDRESS"@ != tcp_multicast_message(),
        "CONNECTOR-REF"@ != tcp_multicast_message(),
        "MULTICAST-CONNECTOR-REFS"@ != tcp_multicast_message(),
        "MULTICAST-CONNECTOR-REF"@ != tcp_multicast_message(),
        "APPLICATION-ENDPOINT"@ != tcp_multicast_message(),
        "NETWORK-ENDPOINT-REF"@ != tcp_multicast_message(),
        "TP-CONFIGURATION"@ != tcp_multicast_message(),
        "TCP-TP"@ != tcp_multicast_message(),
        "TCP-TP-PORT"@ != tcp_multicast_message(),
        "PORT-NUMBER"@ != tcp_multicast_message(),
        "DYNAMICALLY-ASSIGNED"@ != tcp_multicast_message(),
        "UDP-TP"@ != tcp_multicast_message(),
        "UDP-TP-PORT"@ != tcp_multicast_message(),
        not_all_connected_message() != tcp_multicast_message(),
{
    reveal_strlit("TCP is incomptible with multicasting");
    reveal_strlit("All EcuInstances must be connected to the EthernetPhysicalChannel");
    reveal_strlit("SO-AD-CONFIG");
    reveal_strlit("SOCKET-ADDRESSS");
    reveal_strlit("SOCKET-ADDRESS");
    reveal_strlit("CONNECTOR-REF");
    reveal_strlit("MULTICAST-CONNECTOR-REFS");
    reveal_strlit("MULTICAST-CONNECTOR-REF");
    reveal_strlit("APPLICATION-ENDPOINT");
    reveal_strlit("NETWORK-ENDPOINT-REF");
    reveal_strlit("TP-CONFIGURATION");
    reveal_strlit("TCP-TP");
    reveal_strlit("TCP-TP-PORT");
    reveal_strlit("PORT-NUMBER");
    reveal_strlit("DYNAMICALLY-ASSIGNED");
    reveal_strlit("UDP-TP");
    reveal_strlit("UDP-TP-PORT");
    assert("SO-AD-CONFIG"@.len() != tcp_multicast_message().len());
    assert("SOCKET-ADDRESSS"@.len() != tcp_multicast_message().len());
    assert("SOCKET-ADDRESS"@.len() != tcp_multicast_message().len());
    assert("CONNECTOR-REF"@.len() != tcp_multicast_message().len());
    assert("MULTICAST-CONNECTOR-REFS"@.len() != tcp_multicast_message().len());
    assert("MULTICAST-CONNECTOR-REF"@.len() != tcp_multicast_message().len());
    assert("APPLICATION-ENDPOINT"@.len() != tcp_multicast_message().len());
    assert("NETWORK-ENDPOINT-REF"@.len() != tcp_multicast_message().len());
    assert("TP-CONFIGURATION"@.len() != tcp_multicast_message().len());
    assert("TCP-TP"@.len() != tcp_multicast_message().len());
    assert("TCP-TP-PORT"@.len() != tcp_multicast_message().len());
    assert("PORT-NUMBER"@.len() != tcp_multicast_message().len());
    assert("DYNAMICALLY-ASSIGNED"@.len() != tcp_multicast_message().len());
    assert("UDP-TP"@.len() != tcp_multicast_message().len());
    assert("UDP-TP-PORT"@.len() != tcp_multicast_message().len());
    assert(not_all_connected_message().len() != tcp_multicast_message().len());
}

/// Collect the connectors that were looked up for the ECUs of a new socket address.
///
/// Every ECU must be connected to the channel: where one lookup found no connector, the
/// socket address is refused.
pub fn collect_connectors(lookups: Vec<Option<Element>>) -> (r: Result<Vec<Element>, AutosarAbstractionError>)
    ensures
        r is Ok <==> forall|i: int| 0 <= i < lookups.len() ==> (#[trigger] lookups@[i]) is Some,
        r matches Ok(v) ==> v.len() == lookups.len() && forall|i: int|
            0 <= i < v.len() ==> Some(#[trigger] v@[i]) == lookups@[i],
        r matches Err(e) ==> is_invalid_parameter(e, not_all_connected_message()),
{
    let mut result: Vec<Element> = Vec::new();
    for i in 0..lookups.len()
        invariant
            result.len() == i,
            forall|k: int| 0 <= k < i ==> Some(#[trigger] result@[k]) == lookups@[k],
            forall|k: int| 0 <= k < i ==> (#[trigger] lookups@[k]) is Some,
    {
        match &lookups[i] {
            Some(connector) => result.push(connector.clone()),
            None => {
                return Err(
                    AutosarAbstractionError::InvalidParameter(
                        "All EcuInstances must be connected to the EthernetPhysicalChannel".to_owned(),
                    ),
                );
            },
        }
    }
    Ok(result)
}

/// The connector that was looked up for an ECU; an ECU without one is refused.
pub fn require_connector(lookup: Option<EthernetCommunicationConnector>) -> (r: Result<
    EthernetCommunicationConnector,
    AutosarAbstractionError,
>)
    ensures
        lookup matches Some(c) ==> r == Ok::<EthernetCommunicationConnector, AutosarAbstractionError>(c),
        lookup is None ==> (r matches Err(e) && is_invalid_parameter(e, unconnected_ecu_message())),
{
    match lookup {
        Some(connector) => Ok(connector),
        None => Err(
            AutosarAbstractionError::InvalidParameter("EcuInstance is not connected to the EthernetPhysicalChannel".to_owned()),
        ),
    }
}

/// Decide whether adding `ecu` to a socket address of type `current` needs a new reference.
///
/// A unicast socket address is refused; an ECU that the multicast address already names needs no
/// new reference; a socket address without a type gets its first ECU.
pub fn multicast_addition_needed(current: &Option<SocketAddressType>, ecu: &EcuInstance) -> (r: Result<
    bool,
    AutosarAbstractionError,
>)
    ensures
        match *current {
            Some(SocketAddressType::Unicast(_)) => r matches Err(e) && is_invalid_parameter(e, not_multicast_message()),
            Some(SocketAddressType::Multicast(v)) => r == Ok::<bool, AutosarAbstractionError>(
                !(exists|i: int| 0 <= i < v.len() && #[trigger] v@[i].spec_element() == ecu.spec_element()),
            ),
            None => r == Ok::<bool, AutosarAbstractionError>(true),
        },
{
    match current {
        Some(SocketAddressType::Multicast(multicast_ecus)) => Ok(!contains_ecu(multicast_ecus, ecu)),
        None => Ok(true),
        Some(SocketAddressType::Unicast(_)) => Err(
            AutosarAbstractionError::InvalidParameter("This SocketAddress is not a multicast socket".to_owned()),
        ),
    }
}

/// Check that the unicast ECU of a socket address of type `current` can be set: a multicast
/// socket address is refused.
pub fn check_unicast_type(current: &Option<SocketAddressType>) -> (r: Result<(), AutosarAbstractionError>)
    ensures
        r is Ok <==> !(*current matches Some(SocketAddressType::Multicast(_))),
        r matches Err(e) ==> is_invalid_parameter(e, not_unicast_message()),
{
    match current {
        Some(SocketAddressType::Multicast(_)) => Err(
            AutosarAbstractionError::InvalidParameter("This SocketAddress is not a unicast socket".to_owned()),
        ),
        _ => Ok(()),
    }
}

/// A socket address establishes the link between one or more ECUs and a `NetworkEndpoint`.
/// It contains all settings that are relevant for this combination.
#[derive(Debug, Clone, PartialEq, Eq, Hash)]
pub struct SocketAddress(Element);

impl AbstractionElement for SocketAddress {
    closed spec fn spec_element(&self) -> Element {
        self.0
    }

    fn element(&self) -> (r: &Element) {
        proof {
            assert(self.spec_element() == self.0);
        }
        &self.0
    }
}

impl SocketAddress {
    /// wrap an element of the model whose element name is `SOCKET-ADDRESS`
    pub fn from_element(element: Element) -> (r: Result<Self, AutosarAbstractionError>)
        ensures
            r is Ok <==> spec_element_name(element) == "SOCKET-ADDRESS"@,
            r matches Ok(x) ==> x.spec_element() == element,
            r matches Err(e) ==> is_conversion_error(e, element, "SocketAddress"@),
    {
        if has_element_name(&element, "SOCKET-ADDRESS") {
            Ok(SocketAddress(element))
        } else {
            Err(AutosarAbstractionError::ConversionError { element, dest: "SocketAddress".to_owned() })
        }
    }
}

impl TryFrom<Element> for SocketAddress {
    type Error = AutosarAbstractionError;

    fn try_from(element: Element) -> (r: Result<Self, Self::Error>)
        ensures
            r is Ok <==> spec_element_name(element) == "SOCKET-ADDRESS"@,
            r matches Ok(x) ==> x.spec_element() == element,
            r matches Err(e) ==> is_conversion_error(e, element, "SocketAddress"@),
    {
        SocketAddress::from_element(element)
    }
}

impl TryFromSpecImpl<Element> for SocketAddress {
    open spec fn obeys_try_from_spec() -> bool {
        false
    }

    open spec fn try_from_spec(v: Element) -> Result<Self, AutosarAbstractionError> {
        arbitrary()
    }
}

impl From<SocketAddress> for Element {
    fn from(value: SocketAddress) -> (r: Element)
        ensures
            r == value.spec_element(),
    {
        value.0
    }
}

impl FromSpecImpl<SocketAddress> for Element {
    open spec fn obeys_from_spec() -> bool {
        false
    }

    open spec fn from_spec(v: SocketAddress) -> Element {
        arbitrary()
    }
}

impl IdentifiableAbstractionElement for SocketAddress {}

impl SocketAddress {
    /// Create a new socket address in the channel.
    ///
    /// TCP cannot be used with a multicast socket address, and every `EcuInstance` of the
    /// socket address must be connected to the channel. Nothing is created when either fails.
    pub fn new(
        name: &str,
        channel: &EthernetPhysicalChannel,
        network_endpoint: &NetworkEndpoint,
        tp_config: &TpConfig,
        sa_type: SocketAddressType,
    ) -> (r: Result<Self, AutosarAbstractionError>)
        ensures
            (sa_type is Multicast && *tp_config is TcpTp) ==> (r matches Err(e) && is_invalid_parameter(
                e,
                tcp_multicast_message(),
            )),
            (r matches Err(e) && is_invalid_parameter(e, tcp_multicast_message())) ==> (sa_type is Multicast
                && *tp_config is TcpTp),
            r matches Ok(sa) ==> spec_element_name(sa.spec_element()) == "SOCKET-ADDRESS"@,
            r matches Err(e) ==> e is ModelError || e is InvalidParameter,
    {
        proof {
            lemma_texts_differ_from_tcp_message();
        }
        let ghost tcp_multicast = sa_type is Multicast && *tp_config is TcpTp;
        let (unicast, ecu_instances) = match sa_type {
            SocketAddressType::Unicast(Some(ecu_instance)) => (true, vec![ecu_instance]),
            SocketAddressType::Unicast(None) => (true, Vec::new()),
            SocketAddressType::Multicast(ecu_instances) => (false, ecu_instances),
        };

        // TCP connections don't work using multicast IP addresses
        if !unicast && tp_config.is_tcp() {
            return Err(AutosarAbstractionError::InvalidParameter("TCP is incomptible with multicasting".to_owned()));
        }
        // get the connector for each ECU in advance, so that nothing needs to be cleaned up if there is a problem here
        let mut lookups: Vec<Option<Element>> = Vec::new();
        for i in 0..ecu_instances.len() {
            match channel.ecu_connector(&ecu_instances[i]) {
                Some(connector) => lookups.push(Some(connector.element().clone())),
                None => lookups.push(None),
            }
        }
        let connectors = collect_connectors(lookups)?;

        let so_ad_config = get_or_create_sub_element(channel.element(), "SO-AD-CONFIG")?;
        let socket_addresses = get_or_create_sub_element(&so_ad_config, "SOCKET-ADDRESSS")?;
        let elem = create_named_sub_element(&socket_addresses, "SOCKET-ADDRESS", name)?;

        if unicast {
            if connectors.len() > 0 {
                let connector_ref = create_sub_element(&elem, "CONNECTOR-REF")?;
                set_reference_target(&connector_ref, &connectors[0])?;
            }
        } else {
            let mc_connectors = create_sub_element(&elem, "MULTICAST-CONNECTOR-REFS")?;
            for i in 0..connectors.len()
                invariant
                    !tcp_multicast,
                    tcp_multicast == (sa_type is Multicast && *tp_config is TcpTp),
            {
                proof {
                    lemma_texts_differ_from_tcp_message();
                }
                let mc_ref = create_sub_element(&mc_connectors, "MULTICAST-CONNECTOR-REF")?;
                set_reference_target(&mc_ref, &connectors[i])?;
            }
        }

        let ae_name = join_text(name, "_AE");
        let ae = create_named_sub_element(&elem, "APPLICATION-ENDPOINT", &ae_name)?;
        let ne_ref = create_sub_element(&ae, "NETWORK-ENDPOINT-REF")?;
        set_reference_target(&ne_ref, network_endpoint.element())?;
        let tp_configuration = create_sub_element(&ae, "TP-CONFIGURATION")?;
        match tp_config {
            TpConfig::TcpTp { port_number, port_dynamically_assigned } => {
                let tcptp = create_sub_element(&tp_configuration, "TCP-TP")?;
                let tcptp_port = create_sub_element(&tcptp, "TCP-TP-PORT")?;
                // PortNumber and DynamicallyAssigned are mutually exclusive.
                // The attribute DynamicallyAssigned is deprecated starting in Autosar 4.5.0
                if let Some(portnum) = port_number {
                    let port_text = decimal_text(*portnum as u64);
                    set_character_data_text(&create_sub_element(&tcptp_port, "PORT-NUMBER")?, &port_text)?;
                } else if let Some(dyn_assign) = port_dynamically_assigned {
                    set_character_data_bool(&create_sub_element(&tcptp_port, "DYNAMICALLY-ASSIGNED")?, *dyn_assign)?;
                }
            },
            TpConfig::UdpTp { port_number, port_dynamically_assigned } => {
                let udptp = create_sub_element(&tp_configuration, "UDP-TP")?;
                let udptp_port = create_sub_element(&udptp, "UDP-TP-PORT")?;
                // PortNumber and DynamicallyAssigned are mutually exclusive.
                // The attribute DynamicallyAssigned is deprecated starting in Autosar 4.5.0
                if let Some(portnum) = port_number {
                    let port_text = decimal_text(*portnum as u64);
                    set_character_data_text(&create_sub_element(&udptp_port, "PORT-NUMBER")?, &port_text)?;
                } else if let Some(dyn_assign) = port_dynamically_assigned {
                    let boolstr = if *dyn_assign { "true" } else { "false" };
                    set_character_data_text(&create_sub_element(&udptp_port, "DYNAMICALLY-ASSIGNED")?, boolstr)?;
                }
            },
        }

        Ok(SocketAddress(elem))
    }

    /// get the network endpoint of this `SocketAddress`
    pub fn network_endpoint(&self) -> (r: Option<NetworkEndpoint>)
        ensures
            r matches Some(x) ==> spec_element_name(x.spec_element()) == "NETWORK-ENDPOINT"@,
    {
        let ae = get_sub_element(self.element(), "APPLICATION-ENDPOINT")?;
        let ne_ref = get_sub_element(&ae, "NETWORK-ENDPOINT-REF")?;
        match get_reference_target(&ne_ref) {
            Ok(ne) => match NetworkEndpoint::from_element(ne) {
                Ok(network_endpoint) => Some(network_endpoint),
                Err(_) => None,
            },
            Err(_) => None,
        }
    }

    /// get the socket address type: unicast / multicast, as well as the connected ecus
    pub fn socket_address_type(&self) -> (r: Option<SocketAddressType>)
        ensures
            r matches Some(t) ==> t.spec_ecus_are_ecu_instances(),
    {
        if let Some(connector_ref) = get_sub_element(self.element(), "CONNECTOR-REF") {
            let ecu = referenced_ecu(&connector_ref)?;
            Some(SocketAddressType::Unicast(Some(ecu)))
        } else if let Some(mcr) = get_sub_element(self.element(), "MULTICAST-CONNECTOR-REFS") {
            let refs = sub_elements(&mcr);
            let mut ecus: Vec<EcuInstance> = Vec::new();
            for i in 0..refs.len()
                invariant
                    forall|j: int| 0 <= j < ecus.len() ==> spec_element_name(#[trigger] ecus@[j].spec_element()) == "ECU-INSTANCE"@,
            {
                if let Some(ecu) = referenced_ecu(&refs[i]) {
                    ecus.push(ecu);
                }
            }
            Some(SocketAddressType::Multicast(ecus))
        } else {
            None
        }
    }

    /// add an `EcuInstance` to this multicast `SocketAddress`
    pub fn add_multicast_ecu(&self, ecu: &EcuInstance) -> (r: Result<(), AutosarAbstractionError>)
        ensures
            r matches Err(e) ==> e is ModelError || e is InvalidParameter || e is ConversionError,
    {
        let current = self.socket_address_type();
        let add_needed = multicast_addition_needed(&current, ecu)?;
        if add_needed {
            let connector = require_connector(self.physical_channel()?.ecu_connector(ecu))?;
            let mcr = get_or_create_sub_element(self.element(), "MULTICAST-CONNECTOR-REFS")?;
            let mc_ref = create_sub_element(&mcr, "MULTICAST-CONNECTOR-REF")?;
            set_reference_target(&mc_ref, connector.element())?;
        }
        Ok(())
    }

    /// set the `EcuInstance` for this unicast `SocketAddress`
    pub fn set_unicast_ecu(&self, ecu: &EcuInstance) -> (r: Result<(), AutosarAbstractionError>)
        ensures
            r matches Err(e) ==> e is ModelError || e is InvalidParameter || e is ConversionError,
    {
        check_unicast_type(&self.socket_address_type())?;
        let channel = self.physical_channel()?;
        let connector = require_connector(channel.ecu_connector(ecu))?;
        let connector_ref = get_or_create_sub_element(self.element(), "CONNECTOR-REF")?;
        set_reference_target(&connector_ref, connector.element())
    }

    /// get the transport protocol settings for this `SocketAddress`
    pub fn tp_config(&self) -> Option<TpConfig> {
        let ae = get_sub_element(self.element(), "APPLICATION-ENDPOINT")?;
        let tp = get_sub_element(&ae, "TP-CONFIGURATION")?;
        if let Some(tcp_tp) = get_sub_element(&tp, "TCP-TP") {
            let port = get_sub_element(&tcp_tp, "TCP-TP-PORT")?;
            let (port_number, port_dynamically_assigned) = Self::port_config(&port);
            Some(TpConfig::TcpTp { port_number, port_dynamically_assigned })
        } else if let Some(udp_tp) = get_sub_element(&tp, "UDP-TP") {
            let port = get_sub_element(&udp_tp, "UDP-TP-PORT")?;
            let (port_number, port_dynamically_assigned) = Self::port_config(&port);
            Some(TpConfig::UdpTp { port_number, port_dynamically_assigned })
        } else {
            None
        }
    }

    // get the port number and dynamic assignment setting from a port element
    fn port_config(port_element: &Element) -> (Option<u16>, Option<bool>) {
        let port_number = match sub_element_cdata(port_element, "PORT-NUMBER") {
            Some(cdata) => parse_u16(&cdata),
            None => None,
        };
        let port_dynamically_assigned = match sub_element_string(port_element, "DYNAMICALLY-ASSIGNED") {
            Some(val) => Some(text_equals(val.as_str(), "true") || text_equals(val.as_str(), "1")),
            None => None,
        };
        (port_number, port_dynamically_assigned)
    }

    /// get the `PhysicalChannel` containing this `SocketAddress`
    pub fn physical_channel(&self) -> (r: Result<EthernetPhysicalChannel, AutosarAbstractionError>)
        ensures
            r matches Err(e) ==> e is ModelError || e is ConversionError || e is InvalidParameter,
    {
        match named_parent(self.element())? {
            Some(channel) => EthernetPhysicalChannel::from_element(channel),
            None => Err(
                AutosarAbstractionError::InvalidParameter(
                    "the socket address is not part of a physical channel".to_owned(),
                ),
            ),
        }
    }

    /// the application endpoint of this socket address, named after it, created if needed
    fn application_endpoint(&self) -> (r: Result<Element, AutosarAbstractionError>)
        ensures
            r matches Err(e) ==> e is ModelError || e is InvalidParameter,
    {
        let socket_name = match self.name() {
            Some(name) => name,
            None => String::new(),
        };
        let ae_name = join_text(&socket_name, "_AE");
        get_or_create_named_sub_element(self.element(), "APPLICATION-ENDPOINT", &ae_name)
    }

    /// create a `ProvidedServiceInstanceV1` in this `SocketAddress`
    ///
    /// Creating a `ProvidedServiceInstanceV1` in a `SocketAddress` is part of the old way of defining services (<= Autosar 4.5.0).
    /// It is obsolete in newer versions of the standard.
    pub fn create_provided_service_instance(&self, name: &str, service_identifier: u16, instance_identifier: u16) -> (r:
        Result<ProvidedServiceInstanceV1, AutosarAbstractionError>)
        ensures
            r matches Err(e) ==> e is ModelError || e is InvalidParameter,
    {
        let ae = self.application_endpoint()?;
        let psis = get_or_create_sub_element(&ae, "PROVIDED-SERVICE-INSTANCES")?;
        ProvidedServiceInstanceV1::new(name, &psis, service_identifier, instance_identifier)
    }

    /// the `ProvidedServiceInstanceV1`s in this `SocketAddress`
    pub fn provided_service_instances(&self) -> (r: Vec<ProvidedServiceInstanceV1>)
        ensures
            forall|i: int| 0 <= i < r.len() ==> spec_element_name(#[trigger] r@[i].spec_element()) == "PROVIDED-SERVICE-INSTANCE"@,
    {
        let mut result: Vec<ProvidedServiceInstanceV1> = Vec::new();
        if let Some(ae) = get_sub_element(self.element(), "APPLICATION-ENDPOINT") {
            if let Some(psis) = get_sub_element(&ae, "PROVIDED-SERVICE-INSTANCES") {
                let subs = sub_elements(&psis);
                for i in 0..subs.len()
                    invariant
                        forall|j: int| 0 <= j < result.len() ==> spec_element_name(#[trigger] result@[j].spec_element()) == "PROVIDED-SERVICE-INSTANCE"@,
                {
                    if let Ok(psi) = ProvidedServiceInstanceV1::from_element(subs[i].clone()) {
                        result.push(psi);
                    }
                }
            }
        }
        result
    }

    /// create a `ConsumedServiceInstanceV1` in this `SocketAddress`
    ///
    /// Creating a `ConsumedServiceInstanceV1` in a `SocketAddress` is part of the old way of defining services (<= Autosar 4.5.0).
    /// It is obsolete in newer versions of the standard.
    pub fn create_consumed_service_instance(&self, name: &str, provided_service_instance: &ProvidedServiceInstanceV1) -> (r:
        Result<ConsumedServiceInstanceV1, AutosarAbstractionError>)
        ensures
            r matches Err(e) ==> e is ModelError || e is InvalidParameter,
    {
        let ae = self.application_endpoint()?;
        let csis = get_or_create_sub_element(&ae, "CONSUMED-SERVICE-INSTANCES")?;
        ConsumedServiceInstanceV1::new(name, &csis, provided_service_instance)
    }

    /// the `ConsumedServiceInstanceV1`s in this `SocketAddress`
    pub fn consumed_service_instances(&self) -> (r: Vec<ConsumedServiceInstanceV1>)
        ensures
            forall|i: int| 0 <= i < r.len() ==> spec_element_name(#[trigger] r@[i].spec_element()) == "CONSUMED-SERVICE-INSTANCE"@,
    {
        let mut result: Vec<ConsumedServiceInstanceV1> = Vec::new();
        if let Some(ae) = get_sub_element(self.element(), "APPLICATION-ENDPOINT") {
            if let Some(csis) = get_sub_element(&ae, "CONSUMED-SERVICE-INSTANCES") {
                let subs = sub_elements(&csis);
                for i in 0..subs.len()
                    invariant
                        forall|j: int| 0 <= j < result.len() ==> spec_element_name(#[trigger] result@[j].spec_element()) == "CONSUMED-SERVICE-INSTANCE"@,
                {
                    if let Ok(csi) = ConsumedServiceInstanceV1::from_element(subs[i].clone()) {
                        result.push(csi);
                    }
                }
            }
        }
        result
    }
}

/// the `EcuInstance` that contains the connector which a reference element refers to
fn referenced_ecu(connector_ref: &Element) -> (r: Option<EcuInstance>)
    ensures
        r matches Some(x) ==> spec_element_name(x.spec_element()) == "ECU-INSTANCE"@,
{
    let connector = match get_reference_target(connector_ref) {
        Ok(connector) => connector,
        Err(_) => return None,
    };
    let ecu_elem = match named_parent(&connector) {
        Ok(Some(ecu_elem)) => ecu_elem,
        _ => return None,
    };
    match EcuInstance::from_element(ecu_elem) {
        Ok(ecu) => Some(ecu),
        Err(_) => None,
    }
}

/// some entry of the list is the same `EcuInstance`
fn contains_ecu(ecus: &Vec<EcuInstance>, ecu: &EcuInstance) -> (r: bool)
    ensures
        r == (exists|i: int| 0 <= i < ecus.len() && #[trigger] ecus@[i].spec_element() == ecu.spec_element()),
{
    let mut found = false;
    for i in 0..ecus.len()
        invariant
            found == (exists|k: int| 0 <= k < i && #[trigger] ecus@[k].spec_element() == ecu.spec_element()),
    {
        if same_element(ecus[i].element(), ecu.element()) {
            found = true;
        }
    }
    found
}

//##################################################################

/// transport protocol settings of a [`SocketAddress`]
#[derive(Debug, Clone, PartialEq, Eq)]
pub enum TpConfig {
    /// The socket uses TCP
    TcpTp {
        /// The port number used by the socket
        port_number: Option<u16>,
        /// If the port number is dynamically assigned. Obsolete; set the port number to None instead
        port_dynamically_assigned: Option<bool>,
    },
    /// The socket uses UDP
    UdpTp {
        /// The port number used by the socket
        port_number: Option<u16>,
        /// If the port number is dynamically assigned. Obsolete; set the port number to None instead
        port_dynamically_assigned: Option<bool>,
    },
}

impl TpConfig {
    /// the socket uses TCP
    pub fn is_tcp(&self) -> (r: bool)
        ensures
            r == (*self is TcpTp),
    {
        match self {
            TpConfig::TcpTp { .. } => true,
            TpConfig::UdpTp { .. } => false,
        }
    }
}

//##################################################################

/// Describes if a [`SocketAddress`] is used for unicast or multicast
#[derive(Debug, Clone, PartialEq)]
pub enum SocketAddressType {
    /// The socket is used for unicast communication with a single ECU
    Unicast(Option<EcuInstance>),
    /// The socket is used for multicast communication with multiple ECUs
    Multicast(Vec<EcuInstance>),
}

impl SocketAddressType {
    /// every `EcuInstance` that the socket address type names wraps an ECU-INSTANCE element
    pub open spec fn spec_ecus_are_ecu_instances(self) -> bool {
        match self {
            SocketAddressType::Unicast(Some(ecu)) => spec_element_name(ecu.spec_element()) == "ECU-INSTANCE"@,
            SocketAddressType::Unicast(None) => true,
            SocketAddressType::Multicast(ecus) => forall|i: int|
                0 <= i < ecus.len() ==> spec_element_name(#[trigger] ecus@[i].spec_element()) == "ECU-INSTANCE"@,
        }
    }
}

} // verus!
