//! Communication: ethernet network endpoints and socket addresses, SOME/IP service instances,
//! flexray channel names and the configurations of the CAN and `FlexRay` transport protocols.

mod can_tp;
mod channel;
mod cluster;
mod connector;
mod flexray_tp;
mod flexray;
mod networkendpoint;
mod pdu;
mod soad;
mod socketaddress;
mod someip;
pub(crate) mod someip_sd;
mod someip_tp;
mod someip_v1;
mod transport;

pub use channel::{EthernetCommunicationConnector, EthernetPhysicalChannel};
pub use networkendpoint::{
    IPv4AddressSource, IPv6AddressSource, NetworkEndpoint, NetworkEndpointAddress, capped_count,
    check_network_endpoint_address, lemma_check_keeps_addresses_valid, lemma_fixed_count_push,
    lemma_ipv4_address_source_roundtrip, spec_addresses_valid, lemma_ipv6_address_source_roundtrip,
    mixed_versions_message, second_fixed_message, spec_fixed_count, spec_fixed_total, spec_mixes_versions,
};
pub use socketaddress::{
    SocketAddress, SocketAddressType, TpConfig, check_unicast_type, collect_connectors, multicast_addition_needed,
    not_all_connected_message, not_multicast_message, not_unicast_message, require_connector, tcp_multicast_message,
    unconnected_ecu_message,
};
pub use flexray::{FlexrayChannelName, FlexrayPhysicalChannel, lemma_flexray_channel_name_roundtrip};
pub use transport::{
    CanTpAddressingFormat, CanTpChannelMode, TpAddress, lemma_can_tp_addressing_format_roundtrip,
    lemma_can_tp_channel_mode_roundtrip,
};
pub use someip::{
    ConsumedEventGroup, ConsumedServiceInstance, EventHandler, LocalUnicastAddress, PduActivationRoutingGroup,
    ProvidedServiceInstance,
    ServiceInstance, ServiceInstanceCollectionSet, check_local_unicast_target, no_application_endpoint_message,
    no_tp_configuration_message, not_a_service_instance_message, same_transport_protocol,
};
pub use someip_v1::{ConsumedEventGroupV1, ConsumedServiceInstanceV1, EventHandlerV1, ProvidedServiceInstanceV1};
pub use someip_sd::{
    SomeipSdClientEventGroupTimingConfig, SomeipSdClientServiceInstanceConfig, SomeipSdServerEventGroupTimingConfig,
    SomeipSdServerServiceInstanceConfig,
};
pub use can_tp::{CanTpAddress, CanTpChannel, CanTpConfig, CanTpConnection, CanTpEcu, CanTpNode};
pub use cluster::{CanCluster, Cluster, FlexrayCluster, is_cluster_element_name};
pub use connector::{CanCommunicationConnector, FlexrayCommunicationConnector};
pub use pdu::{IPdu, ISignalIPdu, NPdu, is_ipdu_element_name};
pub use flexray_tp::{
    FlexrayTpConfig, FlexrayTpConnection, FlexrayTpConnectionControl, FlexrayTpEcu, FlexrayTpNode, FlexrayTpPduPool,
    check_connector_count, too_many_connectors_message,
};
pub use soad::{
    EventGroupControlType, PduCollectionTrigger, PduTriggering, SoAdRoutingGroup, SoConIPduIdentifier,
    SocketConnection, SocketConnectionBundle, SocketConnectionIpduIdentifier, check_bundled_connection,
    lemma_event_group_control_type_roundtrip, lemma_pdu_collection_trigger_roundtrip, missing_server_port_message,
    spec_same_optional_protocol, transport_mismatch_message,
};
pub use someip_tp::{
    SomeipTpChannel, SomeipTpConfig, SomeipTpConnection, check_same_cluster, check_transport_pdu_kind,
    is_physical_channel_element_name, no_channel_cluster_message, no_config_cluster_message, not_general_purpose_message,
    not_segmented_message, other_cluster_message, require_channel_cluster,
};
