use autosar_data::{AutosarVersion, ElementName, EnumItem};
use autosar_data_abstraction::communication::{
    EthernetPhysicalChannel, IPv4AddressSource, IPv6AddressSource, NetworkEndpointAddress, SocketAddressType,
    TpConfig, check_network_endpoint_address,
};
use autosar_data_abstraction::{
    AbstractionElement, ArPackage, AutosarAbstractionError, AutosarModelAbstraction, EcuInstance,
};

fn create_channel(version: AutosarVersion) -> (AutosarModelAbstraction, ArPackage, EthernetPhysicalChannel) {
    let model = AutosarModelAbstraction::create("filename", version);
    let package = model.get_or_create_package("/test").unwrap();
    let elements = package.element().get_or_create_sub_element(ElementName::Elements).unwrap();
    let cluster = elements
        .create_named_sub_element(ElementName::EthernetCluster, "EthCluster")
        .unwrap();
    let channel_elem = cluster
        .create_sub_element(ElementName::EthernetClusterVariants)
        .unwrap()
        .create_sub_element(ElementName::EthernetClusterConditional)
        .unwrap()
        .create_sub_element(ElementName::PhysicalChannels)
        .unwrap()
        .create_named_sub_element(ElementName::EthernetPhysicalChannel, "Channel")
        .unwrap();
    let channel = EthernetPhysicalChannel::try_from(channel_elem).unwrap();
    (model, package, channel)
}

fn connected_ecu(package: &ArPackage, channel: &EthernetPhysicalChannel, name: &str) -> EcuInstance {
    let ecu = EcuInstance::new(name, package).unwrap();
    let connector = ecu
        .element()
        .get_or_create_sub_element(ElementName::Connectors)
        .unwrap()
        .create_named_sub_element(ElementName::EthernetCommunicationConnector, "connection")
        .unwrap();
    channel
        .element()
        .get_or_create_sub_element(ElementName::CommConnectors)
        .unwrap()
        .create_sub_element(ElementName::CommunicationConnectorRefConditional)
        .unwrap()
        .create_sub_element(ElementName::CommunicationConnectorRef)
        .unwrap()
        .set_reference_target(&connector)
        .unwrap();
    ecu
}

#[test]
fn test_network_endpoint_ipv4() {
    let (_model, _package, channel) = create_channel(AutosarVersion::LATEST);

    let address1 = NetworkEndpointAddress::IPv4 {
        address: Some("192.168.0.1".to_string()),
        address_source: Some(IPv4AddressSource::Fixed),
        default_gateway: Some("192.168.0.2".to_string()),
        network_mask: Some("255.255.0.0".to_string()),
    };
    let network_endpoint = channel
        .create_network_endpoint("RemoteAddress", address1.clone(), None)
        .unwrap();
    assert_eq!(network_endpoint.addresses().len(), 1);
    assert_eq!(network_endpoint.addresses()[0], address1);

    let address2 = NetworkEndpointAddress::IPv4 {
        address: None,
        address_source: Some(IPv4AddressSource::AutoIp),
        default_gateway: None,
        network_mask: None,
    };
    network_endpoint.add_network_endpoint_address(address2).unwrap();
    assert_eq!(network_endpoint.addresses().len(), 2);
}

#[test]
fn test_network_endpoint_ipv6() {
    let (_model, _package, channel) = create_channel(AutosarVersion::LATEST);

    let address1 = NetworkEndpointAddress::IPv6 {
        address: Some("2001:0db8:0000:0000:0000:0000:0000:0001".to_string()),
        address_source: Some(IPv6AddressSource::Fixed),
        default_router: Some("2001:0db8:0000:0000:0000:0000:0000:0002".to_string()),
    };
    let network_endpoint = channel
        .create_network_endpoint("RemoteAddress", address1.clone(), None)
        .unwrap();
    assert_eq!(network_endpoint.addresses().len(), 1);
    assert_eq!(network_endpoint.addresses()[0], address1);

    let address2 = NetworkEndpointAddress::IPv6 {
        address: None,
        address_source: Some(IPv6AddressSource::LinkLocal),
        default_router: None,
    };
    network_endpoint.add_network_endpoint_address(address2).unwrap();
    assert_eq!(network_endpoint.addresses().len(), 2);
}

#[test]
fn socket_address() {
    let (_model, package, channel) = create_channel(AutosarVersion::Autosar_4_3_0);
    let ecu_instance = connected_ecu(&package, &channel, "Ecu");
    let ecu_instance2 = connected_ecu(&package, &channel, "Ecu2");
    let ecu_instance3 = connected_ecu(&package, &channel, "Ecu3");

    let endpoint_address = NetworkEndpointAddress::IPv4 {
        address: Some("192.168.0.1".to_string()),
        address_source: Some(IPv4AddressSource::Fixed),
        default_gateway: Some("192.168.0.2".to_string()),
        network_mask: Some("255.255.255.0".to_string()),
    };
    let network_endpoint = channel
        .create_network_endpoint("Address", endpoint_address, Some(&ecu_instance))
        .unwrap();
    let tcp_port = TpConfig::UdpTp {
        port_number: Some(1234),
        port_dynamically_assigned: None,
    };

    // create a unicast socket with an EcuInstance
    let socket_type: SocketAddressType = SocketAddressType::Unicast(Some(ecu_instance.clone()));
    let unicast_socket_address = channel
        .create_socket_address("Socket", &network_endpoint, &tcp_port, socket_type.clone())
        .unwrap();
    assert_eq!(channel.socket_addresses().len(), 1);
    assert_eq!(unicast_socket_address.network_endpoint().unwrap(), network_endpoint);
    assert_eq!(unicast_socket_address.socket_address_type().unwrap(), socket_type);
    // replace the EcuInstance in the socket
    unicast_socket_address.set_unicast_ecu(&ecu_instance2).unwrap();
    assert_eq!(
        unicast_socket_address.socket_address_type().unwrap(),
        SocketAddressType::Unicast(Some(ecu_instance2.clone()))
    );

    // create a unicast socket without an EcuInstance
    let socket_type: SocketAddressType = SocketAddressType::Unicast(None);
    let unicast_socket_address2 = channel
        .create_socket_address("Socket2", &network_endpoint, &tcp_port, socket_type.clone())
        .unwrap();
    // set the EcuInstance and verify that it is set
    unicast_socket_address2.set_unicast_ecu(&ecu_instance).unwrap();
    assert_eq!(
        unicast_socket_address2.socket_address_type().unwrap(),
        SocketAddressType::Unicast(Some(ecu_instance.clone()))
    );

    // create a multicast socket with multiple EcuInstances
    let socket_type: SocketAddressType =
        SocketAddressType::Multicast(vec![ecu_instance.clone(), ecu_instance2.clone()]);
    let multicast_socket_address = channel
        .create_socket_address("Socket3", &network_endpoint, &tcp_port, socket_type.clone())
        .unwrap();
    assert_eq!(multicast_socket_address.socket_address_type().unwrap(), socket_type);
    // add an EcuInstance to the multicast socket
    multicast_socket_address.add_multicast_ecu(&ecu_instance3).unwrap();
    assert_eq!(
        multicast_socket_address.socket_address_type().unwrap(),
        SocketAddressType::Multicast(vec![ecu_instance.clone(), ecu_instance2.clone(), ecu_instance3.clone()])
    );
}

fn ipv4(source: Option<IPv4AddressSource>) -> NetworkEndpointAddress {
    NetworkEndpointAddress::IPv4 {
        address: None,
        address_source: source,
        default_gateway: None,
        network_mask: None,
    }
}

fn ipv6(source: Option<IPv6AddressSource>) -> NetworkEndpointAddress {
    NetworkEndpointAddress::IPv6 {
        address: None,
        address_source: source,
        default_router: None,
    }
}

#[test]
fn network_endpoint_address_rules() {
    let existing = vec![ipv4(Some(IPv4AddressSource::Fixed)), ipv4(Some(IPv4AddressSource::DHCPv4))];
    assert!(check_network_endpoint_address(&existing, &ipv4(Some(IPv4AddressSource::AutoIp))).is_ok());
    assert!(check_network_endpoint_address(&existing, &ipv4(None)).is_ok());
    assert!(matches!(
        check_network_endpoint_address(&existing, &ipv4(Some(IPv4AddressSource::Fixed))),
        Err(AutosarAbstractionError::InvalidParameter(msg)) if msg == "Only one NetworkEndpointAddress can be a fixed address"
    ));
    assert!(matches!(
        check_network_endpoint_address(&existing, &ipv6(Some(IPv6AddressSource::Fixed))),
        Err(AutosarAbstractionError::InvalidParameter(msg)) if msg == "you cannot mix IPv4 and IPv6 inside one NetworkEndpoint"
    ));
    assert!(check_network_endpoint_address(&vec![], &ipv6(Some(IPv6AddressSource::Fixed))).is_ok());
    let two_fixed = vec![ipv6(Some(IPv6AddressSource::Fixed)), ipv6(Some(IPv6AddressSource::Fixed))];
    assert!(check_network_endpoint_address(&two_fixed, &ipv6(None)).is_err());
}

#[test]
fn network_endpoint_rejects_bad_addresses() {
    let (_model, _package, channel) = create_channel(AutosarVersion::LATEST);
    let network_endpoint = channel
        .create_network_endpoint("Endpoint", ipv4(Some(IPv4AddressSource::Fixed)), None)
        .unwrap();
    assert!(network_endpoint
        .add_network_endpoint_address(ipv4(Some(IPv4AddressSource::Fixed)))
        .is_err());
    assert!(network_endpoint
        .add_network_endpoint_address(ipv6(Some(IPv6AddressSource::DHCPv6)))
        .is_err());
    assert_eq!(network_endpoint.addresses().len(), 1);
    assert_eq!(channel.network_endpoints().len(), 1);
}

#[test]
fn address_source_items() {
    assert_eq!(EnumItem::from(IPv4AddressSource::AutoIp), EnumItem::AutoIp);
    assert_eq!(EnumItem::from(IPv4AddressSource::AutoIpDoIp), EnumItem::AutoIpDoip);
    assert_eq!(EnumItem::from(IPv4AddressSource::DHCPv4), EnumItem::Dhcpv4);
    assert_eq!(EnumItem::from(IPv4AddressSource::Fixed), EnumItem::Fixed);
    assert_eq!(IPv4AddressSource::DHCPv4.item_text(), "DHCPV-4");
    assert_eq!(IPv6AddressSource::LinkLocalDoIp.item_text(), "LINK-LOCAL--DOIP");
    for source in [
        IPv6AddressSource::DHCPv6,
        IPv6AddressSource::Fixed,
        IPv6AddressSource::LinkLocal,
        IPv6AddressSource::LinkLocalDoIp,
        IPv6AddressSource::RouterAdvertisement,
    ] {
        let item: EnumItem = source.item_text().parse().unwrap();
        assert_eq!(item.to_str(), source.item_text());
    }
}

#[test]
fn network_endpoint_address_conversion() {
    let (_model, _package, channel) = create_channel(AutosarVersion::LATEST);
    let result = NetworkEndpointAddress::try_from(channel.element().clone());
    assert!(matches!(result, Err(AutosarAbstractionError::ConversionError { .. })));
}

#[test]
fn socket_address_rules() {
    let (_model, package, channel) = create_channel(AutosarVersion::Autosar_4_3_0);
    let ecu_instance = connected_ecu(&package, &channel, "Ecu");
    let unconnected = EcuInstance::new("Unconnected", &package).unwrap();
    let network_endpoint = channel
        .create_network_endpoint("Address", ipv4(Some(IPv4AddressSource::DHCPv4)), None)
        .unwrap();
    let tcp = TpConfig::TcpTp {
        port_number: Some(1234),
        port_dynamically_assigned: None,
    };
    assert!(tcp.is_tcp());
    let result = channel.create_socket_address(
        "Multicast",
        &network_endpoint,
        &tcp,
        SocketAddressType::Multicast(vec![ecu_instance.clone()]),
    );
    assert!(matches!(
        result,
        Err(AutosarAbstractionError::InvalidParameter(msg)) if msg == "TCP is incomptible with multicasting"
    ));
    let result = channel.create_socket_address(
        "Unconnected",
        &network_endpoint,
        &tcp,
        SocketAddressType::Unicast(Some(unconnected.clone())),
    );
    assert!(result.is_err());
    assert_eq!(channel.socket_addresses().len(), 0);

    let socket = channel
        .create_socket_address("Tcp", &network_endpoint, &tcp, SocketAddressType::Unicast(None))
        .unwrap();
    assert_eq!(socket.tp_config(), Some(tcp));
    assert!(socket.set_unicast_ecu(&unconnected).is_err());
    assert_eq!(socket.physical_channel().unwrap(), channel);

    let udp = TpConfig::UdpTp {
        port_number: None,
        port_dynamically_assigned: Some(true),
    };
    let socket2 = channel
        .create_socket_address("Udp", &network_endpoint, &udp, SocketAddressType::Multicast(vec![]))
        .unwrap();
    assert_eq!(socket2.tp_config(), Some(udp));
    assert!(socket2.set_unicast_ecu(&ecu_instance).is_err());
    socket2.add_multicast_ecu(&ecu_instance).unwrap();
    assert_eq!(
        socket2.socket_address_type(),
        Some(SocketAddressType::Multicast(vec![ecu_instance.clone()]))
    );
}
