//! The ethernet physical channel and its connectors, as far as network endpoints and
//! socket addresses need them.

use vstd::prelude::*;
use autosar_data::Element;
use vstd::std_specs::convert::{FromSpecImpl, TryFromSpecImpl};
use crate::{
    AbstractionElement, AutosarAbstractionError, EcuInstance, IdentifiableAbstractionElement, has_element_name,
    is_conversion_error, is_invalid_parameter,
};
use crate::communication::{
    NetworkEndpoint, NetworkEndpointAddress, SocketAddress, SocketAddressType, SocketConnectionBundle, TpConfig,
};
use crate::elements::{
    create_sub_element, get_or_create_sub_element, get_reference_target, get_sub_element, named_parent,
    same_element, set_reference_target, spec_element_name, sub_elements,
};

verus! {

/// An ethernet physical channel: the medium of network endpoints and socket addresses
#[derive(Debug, Clone, PartialEq, Eq, Hash)]
pub struct EthernetPhysicalChannel(Element);

impl AbstractionElement for EthernetPhysicalChannel {
    closed spec fn spec_element(&self) -> Element {
        self.0
    }

    fn element(&self) -> (r: &Element) {
        proof {
            assert(self.spec_element() == self.0);
        }
        &self.0
    }
}

impl EthernetPhysicalChannel {
    /// wrap an element of the model whose element name is `ETHERNET-PHYSICAL-CHANNEL`
    pub fn from_element(element: Element) -> (r: Result<Self, AutosarAbstractionError>)
        ensures
            r is Ok <==> spec_element_name(element) == "ETHERNET-PHYSICAL-CHANNEL"@,
            r matches Ok(x) ==> x.spec_element() == element,
            r matches Err(e) ==> is_conversion_error(e, element, "EthernetPhysicalChannel"@),
    {
        if has_element_name(&element, "ETHERNET-PHYSICAL-CHANNEL") {
            Ok(EthernetPhysicalChannel(element))
        } else {
            Err(AutosarAbstractionError::ConversionError { element, dest: "EthernetPhysicalChannel".to_owned() })
        }
    }
}

impl TryFrom<Element> for EthernetPhysicalChannel {
    type Error = AutosarAbstractionError;

    fn try_from(element: Element) -> (r: Result<Self, Self::Error>)
        ensures
            r is Ok <==> spec_element_name(element) == "ETHERNET-PHYSICAL-CHANNEL"@,
            r matches Ok(x) ==> x.spec_element() == element,
            r matches Err(e) ==> is_conversion_error(e, element, "EthernetPhysicalChannel"@),
    {
        EthernetPhysicalChannel::from_element(element)
    }
}

impl TryFromSpecImpl<Element> for EthernetPhysicalChannel {
    open spec fn obeys_try_from_spec() -> bool {
        false
    }

    open spec fn try_from_spec(v: Element) -> Result<Self, AutosarAbstractionError> {
        arbitrary()
    }
}

impl From<EthernetPhysicalChannel> for Element {
    fn from(value: EthernetPhysicalChannel) -> (r: Element)
        ensures
            r == value.spec_element(),
    {
        value.0
    }
}

impl FromSpecImpl<EthernetPhysicalChannel> for Element {
    open spec fn obeys_from_spec() -> bool {
        false
    }

    open spec fn from_spec(v: EthernetPhysicalChannel) -> Element {
        arbitrary()
    }
}

impl IdentifiableAbstractionElement for EthernetPhysicalChannel {}

impl EthernetPhysicalChannel {
    /// create a network endpoint with a first address in this channel
    ///
    /// If an `EcuInstance` is given and it is connected to this channel, its connector refers to
    /// the new network endpoint, where the version of the model has such references.
    pub fn create_network_endpoint(
        &self,
        name: &str,
        address: NetworkEndpointAddress,
        ecu: Option<&EcuInstance>,
    ) -> (r: Result<NetworkEndpoint, AutosarAbstractionError>)
        ensures
            r matches Err(e) ==> e is ModelError || e is InvalidParameter,
    {
        let network_endpoint = NetworkEndpoint::new(name, self, address)?;
        if let Some(ecu_instance) = ecu {
            if let Some(connector) = self.ecu_connector(ecu_instance) {
                if let Ok(refs) = get_or_create_sub_element(connector.element(), "NETWORK-ENDPOINT-REFS") {
                    if let Ok(ne_ref) = create_sub_element(&refs, "NETWORK-ENDPOINT-REF") {
                        let _ = set_reference_target(&ne_ref, network_endpoint.element());
                    }
                }
            }
        }
        Ok(network_endpoint)
    }

    /// all network endpoints of this channel
    pub fn network_endpoints(&self) -> (r: Vec<NetworkEndpoint>)
        ensures
            forall|i: int| 0 <= i < r.len() ==> spec_element_name(#[trigger] r@[i].spec_element()) == "NETWORK-ENDPOINT"@,
    {
        let mut result: Vec<NetworkEndpoint> = Vec::new();
        if let Some(endpoints) = get_sub_element(self.element(), "NETWORK-ENDPOINTS") {
            let subs = sub_elements(&endpoints);
            for i in 0..subs.len()
                invariant
                    forall|j: int| 0 <= j < result.len() ==> spec_element_name(#[trigger] result@[j].spec_element()) == "NETWORK-ENDPOINT"@,
            {
                if let Ok(endpoint) = NetworkEndpoint::from_element(subs[i].clone()) {
                    result.push(endpoint);
                }
            }
        }
        result
    }

    /// create a socket address in this channel
    ///
    /// The rules that apply are those of [`SocketAddress::new`].
    pub fn create_socket_address(
        &self,
        name: &str,
        network_endpoint: &NetworkEndpoint,
        tp_config: &TpConfig,
        sa_type: SocketAddressType,
    ) -> (r: Result<SocketAddress, AutosarAbstractionError>)
        ensures
            (sa_type is Multicast && *tp_config is TcpTp) ==> (r matches Err(e) && is_invalid_parameter(
                e,
                crate::communication::tcp_multicast_message(),
            )),
            r matches Err(e) ==> e is ModelError || e is InvalidParameter,
    {
        SocketAddress::new(name, self, network_endpoint, tp_config, sa_type)
    }

    /// all socket addresses of this channel
    pub fn socket_addresses(&self) -> (r: Vec<SocketAddress>)
        ensures
            forall|i: int| 0 <= i < r.len() ==> spec_element_name(#[trigger] r@[i].spec_element()) == "SOCKET-ADDRESS"@,
    {
        let mut result: Vec<SocketAddress> = Vec::new();
        if let Some(so_ad_config) = get_sub_element(self.element(), "SO-AD-CONFIG") {
            if let Some(addresses) = get_sub_element(&so_ad_config, "SOCKET-ADDRESSS") {
                let subs = sub_elements(&addresses);
                for i in 0..subs.len()
                    invariant
                        forall|j: int| 0 <= j < result.len() ==> spec_element_name(#[trigger] result@[j].spec_element()) == "SOCKET-ADDRESS"@,
                {
                    if let Ok(socket_address) = SocketAddress::from_element(subs[i].clone()) {
                        result.push(socket_address);
                    }
                }
            }
        }
        result
    }

    /// create a socket connection bundle with the given server port in this channel
    pub fn create_socket_connection_bundle(&self, name: &str, server_port: &SocketAddress) -> (r: Result<
        SocketConnectionBundle,
        AutosarAbstractionError,
    >)
        ensures
            r matches Ok(x) ==> spec_element_name(x.spec_element()) == "SOCKET-CONNECTION-BUNDLE"@,
            r matches Err(e) ==> e is ModelError || e is InvalidParameter,
    {
        let so_ad_config = get_or_create_sub_element(self.element(), "SO-AD-CONFIG")?;
        let connections = get_or_create_sub_element(&so_ad_config, "CONNECTION-BUNDLES")?;
        SocketConnectionBundle::new(name, server_port, &connections)
    }

    /// all socket connection bundles of this channel
    pub fn socket_connection_bundles(&self) -> (r: Vec<SocketConnectionBundle>)
        ensures
            forall|i: int| 0 <= i < r.len() ==> spec_element_name(#[trigger] r@[i].spec_element()) == "SOCKET-CONNECTION-BUNDLE"@,
    {
        let mut result: Vec<SocketConnectionBundle> = Vec::new();
        if let Some(so_ad_config) = get_sub_element(self.element(), "SO-AD-CONFIG") {
            if let Some(bundles) = get_sub_element(&so_ad_config, "CONNECTION-BUNDLES") {
                let subs = sub_elements(&bundles);
                for i in 0..subs.len()
                    invariant
                        forall|j: int| 0 <= j < result.len() ==> spec_element_name(#[trigger] result@[j].spec_element()) == "SOCKET-CONNECTION-BUNDLE"@,
                {
                    if let Ok(bundle) = SocketConnectionBundle::from_element(subs[i].clone()) {
                        result.push(bundle);
                    }
                }
            }
        }
        result
    }

    /// all connectors between this physical channel and any ECU
    pub fn connectors(&self) -> (r: Vec<EthernetCommunicationConnector>)
        ensures
            forall|i: int| 0 <= i < r.len() ==> spec_element_name(#[trigger] r@[i].spec_element()) == "ETHERNET-COMMUNICATION-CONNECTOR"@,
    {
        let mut result: Vec<EthernetCommunicationConnector> = Vec::new();
        if let Some(connectors) = get_sub_element(self.element(), "COMM-CONNECTORS") {
            let subs = sub_elements(&connectors);
            for i in 0..subs.len()
                invariant
                    forall|j: int| 0 <= j < result.len() ==> spec_element_name(#[trigger] result@[j].spec_element()) == "ETHERNET-COMMUNICATION-CONNECTOR"@,
            {
                if let Some(connector_ref) = get_sub_element(&subs[i], "COMMUNICATION-CONNECTOR-REF") {
                    if let Ok(target) = get_reference_target(&connector_ref) {
                        if let Ok(connector) = EthernetCommunicationConnector::from_element(target) {
                            result.push(connector);
                        }
                    }
                }
            }
        }
        result
    }

    /// the connector between this channel and an ECU, if the ECU is connected to it
    pub fn ecu_connector(&self, ecu_instance: &EcuInstance) -> (r: Option<EthernetCommunicationConnector>)
        ensures
            r matches Some(x) ==> spec_element_name(x.spec_element()) == "ETHERNET-COMMUNICATION-CONNECTOR"@,
    {
        let mut connectors = self.connectors();
        let count = connectors.len();
        for i in 0..count
            invariant
                connectors.len() == count,
                forall|j: int| 0 <= j < connectors.len() ==> spec_element_name(#[trigger] connectors@[j].spec_element()) == "ETHERNET-COMMUNICATION-CONNECTOR"@,
        {
            if let Ok(connector_ecu_instance) = connectors[i].ecu_instance() {
                if same_element(connector_ecu_instance.element(), ecu_instance.element()) {
                    return Some(connectors.remove(i));
                }
            }
        }
        None
    }
}
/// The connector between an ECU and an ethernet physical channel
#[derive(Debug, Clone, PartialEq, Eq, Hash)]
pub struct EthernetCommunicationConnector(Element);

impl AbstractionElement for EthernetCommunicationConnector {
    closed spec fn spec_element(&self) -> Element {
        self.0
    }

    fn element(&self) -> (r: &Element) {
        proof {
            assert(self.spec_element() == self.0);
        }
        &self.0
    }
}

impl EthernetCommunicationConnector {
    /// wrap an element of the model whose element name is `ETHERNET-COMMUNICATION-CONNECTOR`
    pub fn from_element(element: Element) -> (r: Result<Self, AutosarAbstractionError>)
        ensures
            r is Ok <==> spec_element_name(element) == "ETHERNET-COMMUNICATION-CONNECTOR"@,
            r matches Ok(x) ==> x.spec_element() == element,
            r matches Err(e) ==> is_conversion_error(e, element, "EthernetCommunicationConnector"@),
    {
        if has_element_name(&element, "ETHERNET-COMMUNICATION-CONNECTOR") {
            Ok(EthernetCommunicationConnector(element))
        } else {
            Err(AutosarAbstractionError::ConversionError { element, dest: "EthernetCommunicationConnector".to_owned() })
        }
    }
}

impl TryFrom<Element> for EthernetCommunicationConnector {
    type Error = AutosarAbstractionError;

    fn try_from(element: Element) -> (r: Result<Self, Self::Error>)
        ensures
            r is Ok <==> spec_element_name(element) == "ETHERNET-COMMUNICATION-CONNECTOR"@,
            r matches Ok(x) ==> x.spec_element() == element,
            r matches Err(e) ==> is_conversion_error(e, element, "EthernetCommunicationConnector"@),
    {
        EthernetCommunicationConnector::from_element(element)
    }
}

impl TryFromSpecImpl<Element> for EthernetCommunicationConnector {
    open spec fn obeys_try_from_spec() -> bool {
        false
    }

    open spec fn try_from_spec(v: Element) -> Result<Self, AutosarAbstractionError> {
        arbitrary()
    }
}

impl From<EthernetCommunicationConnector> for Element {
    fn from(value: EthernetCommunicationConnector) -> (r: Element)
        ensures
            r == value.spec_element(),
    {
        value.0
    }
}

impl FromSpecImpl<EthernetCommunicationConnector> for Element {
    open spec fn obeys_from_spec() -> bool {
        false
    }

    open spec fn from_spec(v: EthernetCommunicationConnector) -> Element {
        arbitrary()
    }
}

impl IdentifiableAbstractionElement for EthernetCommunicationConnector {}

impl EthernetCommunicationConnector {
    /// the `EcuInstance` that contains this connector
    pub fn ecu_instance(&self) -> (r: Result<EcuInstance, AutosarAbstractionError>)
        ensures
            r matches Err(e) ==> e is ModelError || e is ConversionError || e is InvalidParameter,
    {
        match named_parent(self.element())? {
            Some(ecu) => EcuInstance::from_element(ecu),
            None => Err(AutosarAbstractionError::InvalidParameter("the connector is not part of an ECU".to_owned())),
        }
    }
}

} // verus!
