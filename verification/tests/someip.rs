use autosar_data::{AutosarVersion, ElementName};
use autosar_data_abstraction::communication::{
    ConsumedEventGroup, ConsumedEventGroupV1, ConsumedServiceInstance, ConsumedServiceInstanceV1, EventHandler,
    EventHandlerV1, EthernetPhysicalChannel, EventGroupControlType, LocalUnicastAddress, NetworkEndpointAddress, ProvidedServiceInstance,
    ProvidedServiceInstanceV1, ServiceInstance, SocketAddress, SocketAddressType, SomeipSdClientEventGroupTimingConfig,
    SomeipSdClientServiceInstanceConfig, SomeipSdServerEventGroupTimingConfig, SomeipSdServerServiceInstanceConfig,
    TpConfig, IPv4AddressSource,
    same_transport_protocol,
};
use autosar_data_abstraction::{
    AbstractionElement, AutosarAbstractionError, AutosarModelAbstraction, IdentifiableAbstractionElement,
    SystemCategory,
};

/// a channel with a network endpoint and a UDP socket address "socket"
fn helper_create_test_objects(model: &AutosarModelAbstraction) -> SocketAddress {
    let package = model.get_or_create_package("/ethernet").unwrap();
    let elements = package.element().get_or_create_sub_element(ElementName::Elements).unwrap();
    let channel_elem = elements
        .create_named_sub_element(ElementName::EthernetCluster, "ethcluster")
        .unwrap()
        .create_sub_element(ElementName::EthernetClusterVariants)
        .unwrap()
        .create_sub_element(ElementName::EthernetClusterConditional)
        .unwrap()
        .create_sub_element(ElementName::PhysicalChannels)
        .unwrap()
        .create_named_sub_element(ElementName::EthernetPhysicalChannel, "channel")
        .unwrap();
    let channel = EthernetPhysicalChannel::try_from(channel_elem).unwrap();
    let network_endpoint_address = NetworkEndpointAddress::IPv4 {
        address: Some("192.168.2.222".to_string()),
        address_source: None,
        default_gateway: None,
        network_mask: None,
    };
    let network_endpoint = channel
        .create_network_endpoint("endpoint", network_endpoint_address, None)
        .unwrap();
    let tp_config = TpConfig::UdpTp {
        port_number: Some(1234),
        port_dynamically_assigned: None,
    };
    channel
        .create_socket_address(
            "socket",
            &network_endpoint,
            &tp_config,
            SocketAddressType::Unicast(None),
        )
        .unwrap()
}

#[test]
fn socket_sd_config() {
    let model = AutosarModelAbstraction::create("filename", AutosarVersion::Autosar_4_3_0);
    let package = model.get_or_create_package("/pkg1").unwrap();
    let elements = package.element().get_or_create_sub_element(ElementName::Elements).unwrap();
    let channel_elem = elements
        .create_named_sub_element(ElementName::EthernetCluster, "Cluster")
        .unwrap()
        .create_sub_element(ElementName::EthernetClusterVariants)
        .unwrap()
        .create_sub_element(ElementName::EthernetClusterConditional)
        .unwrap()
        .create_sub_element(ElementName::PhysicalChannels)
        .unwrap()
        .create_named_sub_element(ElementName::EthernetPhysicalChannel, "Channel")
        .unwrap();
    let channel = EthernetPhysicalChannel::try_from(channel_elem).unwrap();

    let endpoint_address = NetworkEndpointAddress::IPv4 {
        address: Some("192.168.0.1".to_string()),
        address_source: Some(IPv4AddressSource::Fixed),
        default_gateway: None,
        network_mask: None,
    };
    let network_endpoint = channel
        .create_network_endpoint("Address", endpoint_address, None)
        .unwrap();
    let tcp_port = TpConfig::TcpTp {
        port_number: Some(1234),
        port_dynamically_assigned: None,
    };
    let socket_type: SocketAddressType = SocketAddressType::Unicast(None);
    let socket = channel
        .create_socket_address("Socket", &network_endpoint, &tcp_port, socket_type.clone())
        .unwrap();

    let provided_service_instance = socket.create_provided_service_instance("psi", 1, 2).unwrap();
    let consumed_service_instance = socket
        .create_consumed_service_instance("csi", &provided_service_instance)
        .unwrap();

    assert_eq!(socket.provided_service_instances().len(), 1);
    assert_eq!(socket.provided_service_instances()[0], provided_service_instance);
    assert_eq!(socket.consumed_service_instances().len(), 1);
    assert_eq!(socket.consumed_service_instances()[0], consumed_service_instance);
}

#[test]
fn test_service_instance_collection_set() {
    let model = AutosarModelAbstraction::create("file", AutosarVersion::LATEST);
    let package = model.get_or_create_package("/package").unwrap();
    let system = package.create_system("system", SystemCategory::EcuExtract).unwrap();

    let si_set = system
        .create_service_instance_collection_set("service_instance_collection_set", &package)
        .unwrap();
    assert_eq!(si_set.name().unwrap(), "service_instance_collection_set");

    let psi = si_set
        .create_provided_service_instance("ProvidedInstance", 1, 1, 1, 0)
        .unwrap();
    let csi = si_set
        .create_consumed_service_instance("ConsumedInstance", 1, 1, 1, "1")
        .unwrap();

    assert_eq!(si_set.service_instances().len(), 2);
    let service_instances: Vec<ServiceInstance> = si_set.service_instances();
    assert_eq!(service_instances[0].element(), psi.element());
    assert_eq!(service_instances[0], ServiceInstance::Provided(psi));
    assert_eq!(service_instances[1].element(), csi.element());
    assert_eq!(service_instances[1], ServiceInstance::Consumed(csi));
}

#[test]
fn test_provided_service_instance() {
    let model = AutosarModelAbstraction::create("file", AutosarVersion::LATEST);
    let package = model.get_or_create_package("/package").unwrap();
    let system = package.create_system("system", SystemCategory::EcuExtract).unwrap();

    let socket = helper_create_test_objects(&model);

    let si_set = system
        .create_service_instance_collection_set("service_instance_collection_set", &package)
        .unwrap();
    let psi = si_set
        .create_provided_service_instance("ProvidedInstance", 1, 1, 1, 0)
        .unwrap();

    psi.set_local_unicast_address(&socket).unwrap();

    assert_eq!(psi.service_identifier().unwrap(), 1);
    assert_eq!(psi.instance_identifier().unwrap(), 1);
    assert_eq!(psi.major_version().unwrap(), 1);
    assert_eq!(psi.minor_version().unwrap(), 0);
    assert_eq!(
        psi.local_unicast_addresses().first().cloned(),
        Some(LocalUnicastAddress::Udp(socket.clone()))
    );

    let eh = psi.create_event_handler("EventHandler", 1).unwrap();
    assert_eq!(eh.event_group_identifier().unwrap(), 1);

    let sd_config_package = model.get_or_create_package("/SomeipSdTimingConfigs").unwrap();
    let server_service_instance_config =
        SomeipSdServerServiceInstanceConfig::new("ssssic", &sd_config_package, 10).unwrap();
    psi.set_sd_server_instance_config(&server_service_instance_config)
        .unwrap();
    assert_eq!(psi.sd_server_instance_config().unwrap(), server_service_instance_config);
}

#[test]
fn test_consumed_service_instance() {
    let model = AutosarModelAbstraction::create("file", AutosarVersion::LATEST);
    let package = model.get_or_create_package("/package").unwrap();
    let system = package.create_system("system", SystemCategory::EcuExtract).unwrap();

    let socket = helper_create_test_objects(&model);

    let si_set = system
        .create_service_instance_collection_set("service_instance_collection_set", &package)
        .unwrap();
    let csi = si_set
        .create_consumed_service_instance("ConsumedInstance", 1, 1, 1, "1")
        .unwrap();

    csi.set_local_unicast_address(&socket).unwrap();

    assert_eq!(csi.service_identifier().unwrap(), 1);
    assert_eq!(csi.instance_identifier().unwrap(), 1);
    assert_eq!(csi.major_version().unwrap(), 1);
    assert_eq!(csi.minor_version().unwrap(), "1");
    assert_eq!(
        csi.local_unicast_addresses().first().cloned(),
        Some(LocalUnicastAddress::Udp(socket.clone()))
    );

    let ceg = csi.create_consumed_event_group("EventGroup", 1).unwrap();
    assert_eq!(ceg.event_group_identifier().unwrap(), 1);

    let sd_config_package = model.get_or_create_package("/SomeipSdTimingConfigs").unwrap();
    let client_service_instance_config =
        SomeipSdClientServiceInstanceConfig::new("cscic", &sd_config_package).unwrap();
    csi.set_sd_client_instance_config(&client_service_instance_config)
        .unwrap();
    assert_eq!(csi.sd_client_instance_config().unwrap(), client_service_instance_config);
}

#[test]
fn test_local_unicast_addresses() {
    let model = AutosarModelAbstraction::create("file", AutosarVersion::LATEST);
    let package = model.get_or_create_package("/package").unwrap();
    let system = package.create_system("system", SystemCategory::EcuExtract).unwrap();

    let udp_socket = helper_create_test_objects(&model);
    let network_endpoint = udp_socket.network_endpoint().unwrap();
    let channel = udp_socket.physical_channel().unwrap();
    let tcp_socket = channel
        .create_socket_address(
            "tcp_socket",
            &network_endpoint,
            &TpConfig::TcpTp {
                port_number: Some(1234),
                port_dynamically_assigned: None,
            },
            SocketAddressType::Unicast(None),
        )
        .unwrap();
    let udp_socket_2 = channel
        .create_socket_address(
            "udp_socket_2",
            &network_endpoint,
            &TpConfig::UdpTp {
                port_number: Some(1235),
                port_dynamically_assigned: None,
            },
            SocketAddressType::Unicast(None),
        )
        .unwrap();

    let si_set = system
        .create_service_instance_collection_set("service_instance_collection_set", &package)
        .unwrap();
    let psi = si_set
        .create_provided_service_instance("ProvidedInstance", 1, 1, 1, 0)
        .unwrap();

    // there are no local unicast addresses yet
    assert_eq!(psi.local_unicast_addresses().len(), 0);

    // add the UDP socket
    psi.set_local_unicast_address(&udp_socket).unwrap();
    assert_eq!(psi.local_unicast_addresses().len(), 1);

    // add the TCP socket
    psi.set_local_unicast_address(&tcp_socket).unwrap();
    assert_eq!(psi.local_unicast_addresses().len(), 2);

    // add the second UDP socket, replacing the first one
    psi.set_local_unicast_address(&udp_socket_2).unwrap();
    assert_eq!(psi.local_unicast_addresses().len(), 2);
    let addresses = psi.local_unicast_addresses();
    assert!(addresses.contains(&LocalUnicastAddress::Udp(udp_socket_2.clone())));
    assert!(addresses.contains(&LocalUnicastAddress::Tcp(tcp_socket.clone())));
    assert!(!addresses.contains(&LocalUnicastAddress::Udp(udp_socket.clone())));
}

#[test]
fn test_conversion() {
    let model = AutosarModelAbstraction::create("file", AutosarVersion::LATEST);
    let package = model.get_or_create_package("/package").unwrap();
    let system = package.create_system("system", SystemCategory::EcuExtract).unwrap();

    let si_set = system
        .create_service_instance_collection_set("service_instance_collection_set", &package)
        .unwrap();
    let psi = si_set
        .create_provided_service_instance("ProvidedInstance", 1, 1, 1, 0)
        .unwrap();
    let element = psi.element().clone();
    let psi2 = ProvidedServiceInstance::try_from(element).unwrap();
    assert_eq!(psi, psi2);

    let eh = psi.create_event_handler("EventHandler", 1).unwrap();
    let element = eh.element().clone();
    let eh2 = EventHandler::try_from(element).unwrap();
    assert_eq!(eh, eh2);

    let csi = si_set
        .create_consumed_service_instance("ConsumedInstance", 1, 1, 1, "1")
        .unwrap();
    let element = csi.element().clone();
    let csi2 = ConsumedServiceInstance::try_from(element).unwrap();
    assert_eq!(csi, csi2);

    let ceg = csi.create_consumed_event_group("EventGroup", 1).unwrap();
    let element = ceg.element().clone();
    let ceg2 = ConsumedEventGroup::try_from(element).unwrap();
    assert_eq!(ceg, ceg2);

    // create someip configuration items using the old structure
    let socket = helper_create_test_objects(&model);
    let ae = socket
        .element()
        .get_sub_element(ElementName::ApplicationEndpoint)
        .unwrap();

    // prove that the conversion of an old ProvidedServiceInstance fails
    let psi_old_elem = ae
        .create_sub_element(ElementName::ProvidedServiceInstances)
        .unwrap()
        .create_named_sub_element(ElementName::ProvidedServiceInstance, "PSI")
        .unwrap();
    let result = ProvidedServiceInstance::try_from(psi_old_elem.clone());
    assert!(result.is_err());

    // prove that the conversion of an old EventHandler fails
    let eh_old_elem = psi_old_elem
        .create_sub_element(ElementName::EventHandlers)
        .unwrap()
        .create_named_sub_element(ElementName::EventHandler, "EH")
        .unwrap();
    let result = EventHandler::try_from(eh_old_elem);
    assert!(result.is_err());

    // prove that the conversion of an old ConsumedServiceInstance fails
    let csi_old_elem = ae
        .create_sub_element(ElementName::ConsumedServiceInstances)
        .unwrap()
        .create_named_sub_element(ElementName::ConsumedServiceInstance, "CSI")
        .unwrap();
    let result = ConsumedServiceInstance::try_from(csi_old_elem.clone());
    assert!(result.is_err());

    // prove that the conversion of an old ConsumedEventGroup fails
    let ceg_old_elem = csi_old_elem
        .create_sub_element(ElementName::ConsumedEventGroups)
        .unwrap()
        .create_named_sub_element(ElementName::ConsumedEventGroup, "CEG")
        .unwrap();
    let result = ConsumedEventGroup::try_from(ceg_old_elem);
    assert!(result.is_err());
}

#[test]
fn element_conversion() {
    let model = AutosarModelAbstraction::create("file.arxml", AutosarVersion::Autosar_00047);

    let socket_address = helper_create_test_objects(&model);
    let psi = socket_address
        .create_provided_service_instance("provided_service", 0x1234, 0x5678)
        .unwrap();
    let eh = psi.create_event_handler("event").unwrap();

    let csi = socket_address
        .create_consumed_service_instance("consumed_service", &psi)
        .unwrap();
    let ceg = csi.create_consumed_event_group("consumed_event", 0x1234, &eh).unwrap();

    let psi2 = ProvidedServiceInstanceV1::try_from(psi.element().clone()).unwrap();
    assert_eq!(psi2, psi);

    let eh2 = EventHandlerV1::try_from(eh.element().clone()).unwrap();
    assert_eq!(eh2, eh);

    let csi2 = ConsumedServiceInstanceV1::try_from(csi.element().clone()).unwrap();
    assert_eq!(csi2, csi);

    let ceg2 = ConsumedEventGroupV1::try_from(ceg.element().clone()).unwrap();
    assert_eq!(ceg2, ceg);
}

#[test]
fn someip_v1_relations() {
    let model = AutosarModelAbstraction::create("file.arxml", AutosarVersion::Autosar_00047);
    let socket_address = helper_create_test_objects(&model);
    let psi = socket_address
        .create_provided_service_instance("provided_service", 0x1234, 0x5678)
        .unwrap();
    assert_eq!(psi.service_identifier(), Some(0x1234));
    assert_eq!(psi.instance_identifier(), Some(0x5678));
    let eh = psi.create_event_handler("event").unwrap();
    assert_eq!(psi.event_handlers(), vec![eh.clone()]);
    let csi = socket_address
        .create_consumed_service_instance("consumed_service", &psi)
        .unwrap();
    assert_eq!(csi.provided_service_instance(), Some(psi.clone()));
    let ceg = csi.create_consumed_event_group("consumed_event", 7, &eh).unwrap();
    assert_eq!(ceg.event_group_identifier(), Some(7));
    assert_eq!(csi.consumed_event_groups(), vec![ceg.clone()]);
    assert_eq!(eh.consumed_event_groups(), vec![ceg.clone()]);
    assert_eq!(ceg.event_handlers(), vec![eh.clone()]);
    assert_eq!(ceg.application_endpoint(), Some(socket_address.clone()));
    ceg.set_application_endpoint(&socket_address).unwrap();
    assert_eq!(ceg.application_endpoint(), Some(socket_address.clone()));
}

#[test]
fn someip_rules() {
    let tcp = TpConfig::TcpTp { port_number: None, port_dynamically_assigned: None };
    let udp = TpConfig::UdpTp { port_number: Some(1), port_dynamically_assigned: None };
    assert!(same_transport_protocol(&tcp, &tcp.clone()));
    assert!(same_transport_protocol(&udp, &udp.clone()));
    assert!(!same_transport_protocol(&tcp, &udp));

    let model = AutosarModelAbstraction::create("file", AutosarVersion::LATEST);
    let package = model.get_or_create_package("/package").unwrap();
    let system = package.create_system("system", SystemCategory::EcuExtract).unwrap();
    let si_set = system.create_service_instance_collection_set("set", &package).unwrap();
    assert!(matches!(
        ServiceInstance::try_from(package.element().clone()),
        Err(AutosarAbstractionError::InvalidParameter(msg)) if msg == "Element is not a ServiceInstance"
    ));
    let csi = si_set.create_consumed_service_instance("Consumed", 1, 2, 3, "ANY").unwrap();
    assert_eq!(csi.minor_version(), Some("ANY".to_string()));
    let ceg = csi.create_consumed_event_group("Group", 5).unwrap();
    let socket = helper_create_test_objects(&model);
    ceg.add_event_multicast_address(&socket).unwrap();
    assert_eq!(ceg.event_multicast_addresses(), vec![socket.clone()]);

    let sd_package = model.get_or_create_package("/Sd").unwrap();
    let timing = SomeipSdClientEventGroupTimingConfig::new("timing", &sd_package, 3).unwrap();
    assert_eq!(timing.time_to_live(), Some(3));
    timing.set_subscribe_eventgroup_retry_max(4).unwrap();
    assert_eq!(timing.subscribe_eventgroup_retry_max(), Some(4));
    ceg.set_sd_client_timer_config(&timing).unwrap();
    assert_eq!(ceg.sd_client_timer_config(), Some(timing));
    let server = SomeipSdServerServiceInstanceConfig::new("server", &sd_package, 10).unwrap();
    server.set_priority(3).unwrap();
    assert_eq!(server.priority(), Some(3));
    server.set_service_offer_time_to_live(20).unwrap();
    assert_eq!(server.service_offer_time_to_live(), Some(20));
}

#[test]
fn someip_v1_routing_groups() {
    let model = AutosarModelAbstraction::create("file.arxml", AutosarVersion::Autosar_00047);
    let socket_address = helper_create_test_objects(&model);
    let package = model.get_or_create_package("/routing").unwrap();
    let system = package.create_system("system", SystemCategory::EcuExtract).unwrap();
    let psi = socket_address
        .create_provided_service_instance("provided_service", 0x1234, 0x5678)
        .unwrap();
    let eh = psi.create_event_handler("event").unwrap();
    let csi = socket_address
        .create_consumed_service_instance("consumed_service", &psi)
        .unwrap();
    let ceg = csi.create_consumed_event_group("consumed_event", 0x1234, &eh).unwrap();

    let rg = system
        .create_so_ad_routing_group("routing_group", &package, Some(EventGroupControlType::ActivationMulticast))
        .unwrap();
    assert_eq!(rg.control_type(), Some(EventGroupControlType::ActivationMulticast));
    assert!(eh.routing_groups().is_empty());
    eh.add_routing_group(&rg).unwrap();
    assert_eq!(eh.routing_groups(), vec![rg.clone()]);
    ceg.add_routing_group(&rg).unwrap();
    ceg.add_routing_group(&rg).unwrap();
    assert_eq!(ceg.routing_groups(), vec![rg.clone(), rg]);
}

#[test]
fn test_consumed_event_group() {
    let model = AutosarModelAbstraction::create("file", AutosarVersion::LATEST);
    let package = model.get_or_create_package("/package").unwrap();
    let system = package.create_system("system", SystemCategory::EcuExtract).unwrap();

    let socket = helper_create_test_objects(&model);

    let si_set = system
        .create_service_instance_collection_set("service_instance_collection_set", &package)
        .unwrap();
    let csi = si_set
        .create_consumed_service_instance("ConsumedInstance", 1, 1, 1, "1")
        .unwrap();
    assert_eq!(csi.consumed_event_groups().len(), 0);
    let ceg = csi.create_consumed_event_group("EventGroup", 1).unwrap();
    assert_eq!(csi.consumed_event_groups().len(), 1);
    assert_eq!(ceg.event_group_identifier().unwrap(), 1);

    ceg.add_event_multicast_address(&socket).unwrap();
    assert_eq!(ceg.event_multicast_addresses()[0], socket);

    let prg = ceg
        .create_pdu_activation_routing_group(
            "PduActivationRoutingGroup",
            EventGroupControlType::ActivationMulticast,
        )
        .unwrap();
    assert_eq!(ceg.pdu_activation_routing_groups().len(), 1);
    assert_eq!(
        prg.event_group_control_type().unwrap(),
        EventGroupControlType::ActivationMulticast
    );

    let sd_config_package = model.get_or_create_package("/SomeipSdTimingConfigs").unwrap();
    let client_event_group_timing_config =
        SomeipSdClientEventGroupTimingConfig::new("cegtc", &sd_config_package, 10).unwrap();
    ceg.set_sd_client_timer_config(&client_event_group_timing_config)
        .unwrap();
    assert_eq!(ceg.sd_client_timer_config().unwrap(), client_event_group_timing_config);
}

#[test]
fn test_event_handler() {
    let model = AutosarModelAbstraction::create("file", AutosarVersion::LATEST);
    let package = model.get_or_create_package("/package").unwrap();
    let system = package.create_system("system", SystemCategory::EcuExtract).unwrap();

    let si_set = system
        .create_service_instance_collection_set("service_instance_collection_set", &package)
        .unwrap();
    let psi = si_set
        .create_provided_service_instance("ProvidedInstance", 1, 1, 1, 0)
        .unwrap();
    assert_eq!(psi.event_handlers().len(), 0);
    let eh = psi.create_event_handler("EventHandler", 1).unwrap();
    assert_eq!(psi.event_handlers().len(), 1);
    assert_eq!(eh.event_group_identifier().unwrap(), 1);

    let prg = eh
        .create_pdu_activation_routing_group("PduActivationRoutingGroup", EventGroupControlType::ActivationUnicast)
        .unwrap();
    assert_eq!(eh.pdu_activation_routing_groups().len(), 1);
    assert_eq!(
        prg.event_group_control_type().unwrap(),
        EventGroupControlType::ActivationUnicast
    );

    // the timing configuration holds floating point delays, so it is made through the model here
    let sd_config_package = model.get_or_create_package("/SomeipSdTimingConfigs").unwrap();
    let server_event_group_timing_config = SomeipSdServerEventGroupTimingConfig::try_from(
        sd_config_package
            .element()
            .get_or_create_sub_element(ElementName::Elements)
            .unwrap()
            .create_named_sub_element(ElementName::SomeipSdServerEventGroupTimingConfig, "segtc")
            .unwrap(),
    )
    .unwrap();
    eh.set_sd_server_event_group_timing_config(&server_event_group_timing_config)
        .unwrap();
    assert_eq!(
        eh.sd_server_event_group_timing_config().unwrap(),
        server_event_group_timing_config
    );
}
