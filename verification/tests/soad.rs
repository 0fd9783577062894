use autosar_data::{AutosarVersion, Element, ElementName, EnumItem};
use autosar_data_abstraction::communication::{
    EthernetPhysicalChannel, EventGroupControlType, IPv4AddressSource, NetworkEndpointAddress, PduCollectionTrigger,
    PduTriggering, SoConIPduIdentifier, SocketAddress, SocketAddressType, SocketConnectionIpduIdentifier, TpConfig,
    check_bundled_connection, Cluster, ISignalIPdu, SomeipTpConnection, check_same_cluster, check_transport_pdu_kind,
    require_channel_cluster,
};
use autosar_data_abstraction::{
    AbstractionElement, ArPackage, AutosarAbstractionError, AutosarModelAbstraction, SystemCategory,
};

fn create_channel(model: &AutosarModelAbstraction, package: &ArPackage) -> EthernetPhysicalChannel {
    let _ = model;
    let channel_elem = package
        .element()
        .get_or_create_sub_element(ElementName::Elements)
        .unwrap()
        .create_named_sub_element(ElementName::EthernetCluster, "Cluster")
        .unwrap()
        .create_sub_element(ElementName::EthernetClusterVariants)
        .unwrap()
        .create_sub_element(ElementName::EthernetClusterConditional)
        .unwrap()
        .create_sub_element(ElementName::PhysicalChannels)
        .unwrap()
        .create_named_sub_element(ElementName::EthernetPhysicalChannel, "Channel")
        .unwrap();
    EthernetPhysicalChannel::try_from(channel_elem).unwrap()
}

fn socket(channel: &EthernetPhysicalChannel, name: &str, ip: &str, tp_config: TpConfig) -> SocketAddress {
    let endpoint = channel
        .create_network_endpoint(
            &format!("{name}Address"),
            NetworkEndpointAddress::IPv4 {
                address: Some(ip.to_string()),
                address_source: Some(IPv4AddressSource::Fixed),
                default_gateway: None,
                network_mask: None,
            },
            None,
        )
        .unwrap();
    channel
        .create_socket_address(name, &endpoint, &tp_config, SocketAddressType::Unicast(None))
        .unwrap()
}

fn tcp(port: u16) -> TpConfig {
    TpConfig::TcpTp {
        port_number: Some(port),
        port_dynamically_assigned: None,
    }
}

fn udp(port: u16) -> TpConfig {
    TpConfig::UdpTp {
        port_number: Some(port),
        port_dynamically_assigned: None,
    }
}

#[test]
fn socket_connection_bundle_and_connections() {
    let model = AutosarModelAbstraction::create("filename", AutosarVersion::Autosar_00048);
    let package = model.get_or_create_package("/pkg1").unwrap();
    let system = package.create_system("System", SystemCategory::SystemExtract).unwrap();
    let channel = create_channel(&model, &package);
    let server_socket = socket(&channel, "ServerSocket", "192.168.0.1", tcp(1234));
    let bundle = channel
        .create_socket_connection_bundle("Bundle", &server_socket)
        .unwrap();
    assert_eq!(channel.socket_connection_bundles().first().cloned(), Some(bundle.clone()));
    assert_eq!(channel.socket_connection_bundles().len(), 1);
    assert_eq!(channel, bundle.physical_channel().unwrap());
    assert_eq!(Some(server_socket), bundle.server_port());

    let client_socket = socket(&channel, "ClientSocket", "192.168.0.2", tcp(1235));
    let connection = bundle.create_bundled_connection(&client_socket).unwrap();
    assert_eq!(bundle.bundled_connections().len(), 1);
    assert_eq!(connection.client_port().unwrap(), client_socket);
    assert_eq!(connection.socket_connection_bundle().unwrap(), bundle);

    // a UDP client cannot be bundled with a TCP server port
    let udp_socket = socket(&channel, "UdpSocket", "192.168.0.3", udp(1236));
    match bundle.create_bundled_connection(&udp_socket) {
        Err(AutosarAbstractionError::InvalidParameter(message)) => {
            assert_eq!(message, "Both SocketAddresses must use the same transport protocol")
        },
        _ => panic!("the transport protocols differ"),
    }
    assert_eq!(bundle.bundled_connections().len(), 1);

    // a PDU identifier of the connection, with its PDU triggering in the channel
    let pt_elem = channel
        .element()
        .create_sub_element(ElementName::PduTriggerings)
        .unwrap()
        .create_named_sub_element(ElementName::PduTriggering, "Pt")
        .unwrap();
    let pt = PduTriggering::try_from(pt_elem.clone()).unwrap();
    let scii_elem: Element = connection
        .element()
        .create_sub_element(ElementName::Pdus)
        .unwrap()
        .create_sub_element(ElementName::SocketConnectionIpduIdentifier)
        .unwrap();
    scii_elem
        .create_sub_element(ElementName::PduTriggeringRef)
        .unwrap()
        .set_reference_target(&pt_elem)
        .unwrap();
    let scii = SocketConnectionIpduIdentifier::try_from(scii_elem).unwrap();
    assert_eq!(connection.socket_connection_ipdu_identifiers().len(), 1);
    assert_eq!(pt, scii.pdu_triggering().unwrap());
    assert_eq!(Some(pt.clone()), connection.pdu_triggerings().first().cloned());
    assert_eq!(scii.socket_connection().unwrap(), connection);

    scii.set_header_id(0x1234).unwrap();
    assert_eq!(Some(0x1234), scii.header_id());
    scii.set_collection_trigger(Some(PduCollectionTrigger::Always)).unwrap();
    assert_eq!(Some(PduCollectionTrigger::Always), scii.collection_trigger());
    scii.set_header_id(0x5678).unwrap();
    assert_eq!(Some(0x5678), scii.header_id());
    scii.set_collection_trigger(Some(PduCollectionTrigger::Never)).unwrap();
    assert_eq!(Some(PduCollectionTrigger::Never), scii.collection_trigger());
    scii.set_collection_trigger(None).unwrap();
    assert_eq!(None, scii.collection_trigger());

    connection
        .set_client_ip_addr_from_connection_request(Some(true))
        .unwrap();
    assert_eq!(connection.client_ip_addr_from_connection_request(), Some(true));
    connection.set_client_ip_addr_from_connection_request(None).unwrap();
    assert_eq!(connection.client_ip_addr_from_connection_request(), None);
    connection.set_client_port_from_connection_request(Some(false)).unwrap();
    assert_eq!(connection.client_port_from_connection_request(), Some(false));
    connection.set_client_port_from_connection_request(None).unwrap();
    assert_eq!(connection.client_port_from_connection_request(), None);
    connection.set_runtime_ip_address_configuration(true).unwrap();
    assert!(connection.runtime_ip_address_configuration());
    connection.set_runtime_port_configuration(true).unwrap();
    assert!(connection.runtime_port_configuration());
    connection.set_runtime_ip_address_configuration(false).unwrap();
    assert!(!connection.runtime_ip_address_configuration());
    connection.set_runtime_port_configuration(false).unwrap();
    assert!(!connection.runtime_port_configuration());

    let routing_group = system
        .create_so_ad_routing_group("RoutingGroup", &package, None)
        .unwrap();
    scii.add_routing_group(&routing_group).unwrap();
    assert_eq!(scii.routing_groups().first().cloned(), Some(routing_group.clone()));
    assert_eq!(scii.routing_groups().len(), 1);

    assert_eq!(routing_group.control_type(), None);
    routing_group
        .set_control_type(EventGroupControlType::TriggerUnicast)
        .unwrap();
    assert_eq!(
        routing_group.control_type(),
        Some(EventGroupControlType::TriggerUnicast)
    );
}

#[test]
fn bundled_connection_rules() {
    assert!(check_bundled_connection(true, &Some(tcp(1)), &Some(tcp(2))).is_ok());
    assert!(check_bundled_connection(true, &Some(udp(1)), &Some(udp(2))).is_ok());
    assert!(check_bundled_connection(true, &None, &None).is_ok());
    assert!(check_bundled_connection(true, &Some(tcp(1)), &Some(udp(2))).is_err());
    assert!(check_bundled_connection(true, &Some(udp(1)), &None).is_err());
    match check_bundled_connection(false, &None, &None) {
        Err(AutosarAbstractionError::InvalidParameter(message)) => {
            assert_eq!(message, "SocketConnectionBundle has no server port")
        },
        _ => panic!("a bundle without a server port refuses connections"),
    }
}

#[test]
fn control_type_and_trigger_items() {
    for value in [
        EventGroupControlType::ActivationAndTriggerUnicast,
        EventGroupControlType::ActivationMulticast,
        EventGroupControlType::ActivationUnicast,
        EventGroupControlType::TriggerUnicast,
    ] {
        let item: EnumItem = value.into();
        assert_eq!(EventGroupControlType::try_from(item).unwrap(), value);
    }
    assert_eq!(EnumItem::from(EventGroupControlType::ActivationMulticast), EnumItem::ActivationMulticast);
    assert!(EventGroupControlType::try_from(EnumItem::Always).is_err());
    for value in [PduCollectionTrigger::Always, PduCollectionTrigger::Never] {
        let item: EnumItem = value.into();
        assert_eq!(PduCollectionTrigger::try_from(item).unwrap(), value);
    }
    assert_eq!(EnumItem::from(PduCollectionTrigger::Never), EnumItem::Never);
    assert!(matches!(
        PduCollectionTrigger::try_from(EnumItem::Sd),
        Err(AutosarAbstractionError::ValueConversionError { .. })
    ));
}

#[test]
fn pdu_activation_routing_groups() {
    let model = AutosarModelAbstraction::create("file", AutosarVersion::LATEST);
    let package = model.get_or_create_package("/package").unwrap();
    let system = package.create_system("system", SystemCategory::EcuExtract).unwrap();

    let si_set = system
        .create_service_instance_collection_set("service_instance_collection_set", &package)
        .unwrap();
    let psi = si_set
        .create_provided_service_instance("ProvidedInstance", 1, 1, 1, 0)
        .unwrap();
    let eh = psi.create_event_handler("EventHandler", 1).unwrap();
    let prg = eh
        .create_pdu_activation_routing_group("PduActivationRoutingGroup", EventGroupControlType::ActivationUnicast)
        .unwrap();
    assert_eq!(eh.pdu_activation_routing_groups().len(), 1);
    assert_eq!(
        prg.event_group_control_type().unwrap(),
        EventGroupControlType::ActivationUnicast
    );

    let csi = si_set
        .create_consumed_service_instance("ConsumedInstance", 1, 1, 1, "0")
        .unwrap();
    let ceg = csi.create_consumed_event_group("EventGroup", 1).unwrap();
    let prg2 = ceg
        .create_pdu_activation_routing_group("Prg", EventGroupControlType::ActivationMulticast)
        .unwrap();
    assert_eq!(ceg.pdu_activation_routing_groups().len(), 1);
    assert_eq!(
        prg2.event_group_control_type().unwrap(),
        EventGroupControlType::ActivationMulticast
    );

    let identifier = SoConIPduIdentifier::try_from(
        package
            .element()
            .get_or_create_sub_element(ElementName::Elements)
            .unwrap()
            .create_named_sub_element(ElementName::SocketConnectionIpduIdentifierSet, "set")
            .unwrap()
            .create_sub_element(ElementName::IPduIdentifiers)
            .unwrap()
            .create_named_sub_element(ElementName::SoConIPduIdentifier, "id")
            .unwrap(),
    )
    .unwrap();
    prg.add_ipdu_identifier_udp(&identifier).unwrap();
    assert_eq!(prg.ipdu_identifiers_udp(), vec![identifier.clone()]);
    assert!(prg.ipdu_identifiers_tcp().is_empty());
    prg.add_ipdu_identifier_tcp(&identifier).unwrap();
    assert_eq!(prg.ipdu_identifiers_tcp(), vec![identifier]);
}

fn ethernet_cluster_and_channel(package: &ArPackage, name: &str) -> (Element, Element) {
    let cluster = package
        .element()
        .get_or_create_sub_element(ElementName::Elements)
        .unwrap()
        .create_named_sub_element(ElementName::EthernetCluster, name)
        .unwrap();
    let channel = cluster
        .create_sub_element(ElementName::EthernetClusterVariants)
        .unwrap()
        .create_sub_element(ElementName::EthernetClusterConditional)
        .unwrap()
        .create_sub_element(ElementName::PhysicalChannels)
        .unwrap()
        .create_named_sub_element(ElementName::EthernetPhysicalChannel, "channel")
        .unwrap();
    (cluster, channel)
}

fn triggering(channel: &Element, name: &str, pdu: &Element) -> PduTriggering {
    let pt = channel
        .get_or_create_sub_element(ElementName::PduTriggerings)
        .unwrap()
        .create_named_sub_element(ElementName::PduTriggering, name)
        .unwrap();
    pt.create_sub_element(ElementName::IPduRef)
        .unwrap()
        .set_reference_target(pdu)
        .unwrap();
    PduTriggering::try_from(pt).unwrap()
}

fn package_pdu(package: &ArPackage, kind: ElementName, name: &str, category: Option<&str>) -> Element {
    let pdu = package
        .element()
        .get_or_create_sub_element(ElementName::Elements)
        .unwrap()
        .create_named_sub_element(kind, name)
        .unwrap();
    if let Some(category) = category {
        pdu.create_sub_element(ElementName::Category)
            .unwrap()
            .set_character_data(category)
            .unwrap();
    }
    pdu
}

#[test]
fn someip_tp_transport_pdu() {
    let model = AutosarModelAbstraction::create("file", AutosarVersion::LATEST);
    let package = model.get_or_create_package("/package").unwrap();
    let system = package.create_system("system", SystemCategory::EcuExtract).unwrap();
    let (cluster_elem, channel) = ethernet_cluster_and_channel(&package, "ethcluster");
    let cluster = Cluster::try_from(cluster_elem).unwrap();
    let (_, other_channel) = ethernet_cluster_and_channel(&package, "other_cluster");

    let gp_ipdu = package_pdu(&package, ElementName::GeneralPurposeIPdu, "gp_ipdu", Some("SOMEIP_SEGMENTED_IPDU"));
    let xcp_ipdu = package_pdu(&package, ElementName::GeneralPurposeIPdu, "xcp_ipdu", Some("XCP"));
    let isignal_ipdu = package_pdu(&package, ElementName::ISignalIPdu, "isignal_ipdu", None);
    let transport_pdu_triggering = triggering(&channel, "pt_gp", &gp_ipdu);

    let tp_config = system
        .create_somip_tp_config("someip_tp_config", &package, &cluster)
        .unwrap();
    assert_eq!(tp_config.cluster().unwrap(), cluster);
    let tp_channel = tp_config.create_someip_tp_channel("someip_tp_channel").unwrap();
    assert_eq!(tp_config.someip_tp_channels().len(), 1);

    let connections = tp_config
        .element()
        .create_sub_element(ElementName::TpConnections)
        .unwrap();
    let new_connection =
        || SomeipTpConnection::try_from(connections.create_sub_element(ElementName::SomeipTpConnection).unwrap()).unwrap();
    let tp_conn = new_connection();
    tp_conn.set_transport_pdu_triggering(&transport_pdu_triggering).unwrap();
    tp_conn.set_tp_channel(Some(tp_channel.clone())).unwrap();
    let tp_sdu_triggering = triggering(&channel, "pt_isignal", &isignal_ipdu);
    tp_conn
        .element()
        .create_sub_element(ElementName::TpSduRef)
        .unwrap()
        .set_reference_target(tp_sdu_triggering.element())
        .unwrap();
    assert_eq!(tp_config.someip_tp_connections().len(), 1);
    assert_eq!(tp_config.someip_tp_connections()[0], tp_conn);
    assert_eq!(tp_conn.tp_sdu(), Some(ISignalIPdu::try_from(isignal_ipdu.clone()).unwrap()));
    assert_eq!(tp_conn.tp_channel(), Some(tp_channel));
    assert_eq!(tp_conn.transport_pdu_triggering(), Some(transport_pdu_triggering));
    assert_eq!(tp_conn.someip_tp_config().unwrap(), tp_config);
    tp_conn.set_tp_channel(None).unwrap();
    assert_eq!(tp_conn.tp_channel(), None);

    let refused = |pt: &PduTriggering| match new_connection().set_transport_pdu_triggering(pt) {
        Err(AutosarAbstractionError::InvalidParameter(message)) => message,
        other => panic!("expected a refusal, got {other:?}"),
    };
    assert_eq!(
        refused(&triggering(&channel, "pt_not_gp", &isignal_ipdu)),
        "Invalid transport PDU for the SomeIpTpConnection: it must be a GeneralPurposeIPdu"
    );
    assert_eq!(
        refused(&triggering(&channel, "pt_xcp", &xcp_ipdu)),
        "Invalid transport PDU for the SomeIpTpConnection: it must be a segmented IPDU"
    );
    assert_eq!(
        refused(&triggering(&other_channel, "pt_other", &gp_ipdu)),
        "The transport PDU must be in the same cluster as the SomeIpTpConfig"
    );
}

#[test]
fn transport_pdu_rules() {
    assert!(check_transport_pdu_kind(true, true).is_ok());
    assert!(check_transport_pdu_kind(false, true).is_err());
    assert!(check_transport_pdu_kind(true, false).is_err());
    let model = AutosarModelAbstraction::create("file", AutosarVersion::LATEST);
    let package = model.get_or_create_package("/package").unwrap();
    let (a, _) = ethernet_cluster_and_channel(&package, "a");
    let (b, _) = ethernet_cluster_and_channel(&package, "b");
    let a = Cluster::try_from(a).unwrap();
    let b = Cluster::try_from(b).unwrap();
    assert!(check_same_cluster(&a, &Some(a.clone())).is_ok());
    assert!(check_same_cluster(&a, &Some(b)).is_err());
    match check_same_cluster(&a, &None) {
        Err(AutosarAbstractionError::InvalidParameter(message)) => {
            assert_eq!(message, "Invalid SomeIpTpConfig: missing cluster reference")
        },
        _ => panic!("a configuration without a cluster refuses"),
    }
    assert!(require_channel_cluster(None).is_err());
    assert!(require_channel_cluster(Some(a)).is_ok());
}
