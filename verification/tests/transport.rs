use autosar_data::{AutosarVersion, Element, ElementName};
use autosar_data_abstraction::communication::{
    CanCluster, CanCommunicationConnector, CanTpAddressingFormat, CanTpChannelMode, FlexrayCluster,
    FlexrayCommunicationConnector, IPdu, NPdu, check_connector_count,
};
use autosar_data_abstraction::{
    AbstractionElement, ArPackage, AutosarAbstractionError, AutosarModelAbstraction, EcuInstance,
    IdentifiableAbstractionElement, SystemCategory,
};

fn package_element(package: &ArPackage, name: ElementName, item_name: &str) -> Element {
    package
        .element()
        .get_or_create_sub_element(ElementName::Elements)
        .unwrap()
        .create_named_sub_element(name, item_name)
        .unwrap()
}

fn ecu_connector(ecu: &EcuInstance, name: ElementName) -> Element {
    ecu.element()
        .get_or_create_sub_element(ElementName::Connectors)
        .unwrap()
        .create_named_sub_element(name, "name")
        .unwrap()
}

#[test]
fn can_transport_protocol() {
    let model = AutosarModelAbstraction::create("filename", AutosarVersion::LATEST);
    let package = model.get_or_create_package("/pkg1").unwrap();

    let system = package.create_system("system", SystemCategory::EcuExtract).unwrap();
    let can_cluster = CanCluster::try_from(package_element(&package, ElementName::CanCluster, "can_cluster")).unwrap();
    let ecu_instance = EcuInstance::new("ecu_instance", &package).unwrap();
    let connector =
        CanCommunicationConnector::try_from(ecu_connector(&ecu_instance, ElementName::CanCommunicationConnector))
            .unwrap();

    let can_tp_config = system
        .create_can_tp_config("can_tp_config", &package, &can_cluster)
        .unwrap();
    assert_eq!(can_tp_config.cluster().unwrap(), can_cluster);

    let tp_ecu = can_tp_config.create_can_tp_ecu(&ecu_instance).unwrap();
    assert_eq!(can_tp_config.can_tp_ecus().len(), 1);
    assert_eq!(can_tp_config.can_tp_ecus()[0], tp_ecu);
    assert_eq!(tp_ecu.ecu_instance().unwrap().name().unwrap(), "ecu_instance");

    let address = can_tp_config.create_can_tp_address("address", 0x1234).unwrap();
    assert_eq!(address.tp_address().unwrap(), 0x1234);
    assert_eq!(can_tp_config.can_tp_addresses().len(), 1);
    assert_eq!(can_tp_config.can_tp_addresses()[0], address);

    let channel = can_tp_config
        .create_can_tp_channel("channel", 1, CanTpChannelMode::FullDuplex)
        .unwrap();
    let channel2 = can_tp_config
        .create_can_tp_channel("channel2", 2, CanTpChannelMode::FullDuplex)
        .unwrap();
    assert_eq!(can_tp_config.can_tp_channels().len(), 2);
    assert_eq!(channel.channel_id().unwrap(), 1);
    assert_eq!(channel.channel_mode().unwrap(), CanTpChannelMode::FullDuplex);

    let data_pdu = NPdu::try_from(package_element(&package, ElementName::NPdu, "data_pdu")).unwrap();
    let data_pdu2 = NPdu::try_from(package_element(&package, ElementName::NPdu, "data_pdu2")).unwrap();
    let tp_sdu = IPdu::try_from(package_element(&package, ElementName::DcmIPdu, "ipdu")).unwrap();
    let tp_sdu2 = IPdu::try_from(package_element(&package, ElementName::DcmIPdu, "ipdu2")).unwrap();

    let connection = can_tp_config
        .create_can_tp_connection(
            Some("connection"),
            CanTpAddressingFormat::Standard,
            &channel,
            &data_pdu,
            &tp_sdu,
            false,
        )
        .unwrap();
    assert_eq!(can_tp_config.can_tp_connections().len(), 1);
    assert_eq!(can_tp_config.can_tp_connections()[0], connection);

    assert_eq!(connection.name().unwrap(), "connection");
    // in a CanTpConnection, the name is provided by the optional IDENT sub-element
    connection
        .element()
        .remove_sub_element_kind(ElementName::Ident)
        .unwrap();
    assert_eq!(connection.name(), None);
    connection.set_name("new_name").unwrap();
    assert_eq!(connection.name().unwrap(), "new_name");

    assert_eq!(connection.channel().unwrap(), channel);
    connection.set_channel(&channel2).unwrap();
    assert_eq!(connection.channel().unwrap(), channel2);

    assert_eq!(connection.data_pdu().unwrap(), data_pdu);
    connection.set_data_pdu(&data_pdu2).unwrap();
    assert_eq!(connection.data_pdu().unwrap(), data_pdu2);

    assert_eq!(connection.tp_sdu().unwrap(), tp_sdu);
    connection.set_tp_sdu(&tp_sdu2).unwrap();
    assert_eq!(connection.tp_sdu().unwrap(), tp_sdu2);

    assert_eq!(connection.addressing_format().unwrap(), CanTpAddressingFormat::Standard);
    connection
        .set_addressing_format(CanTpAddressingFormat::Extended)
        .unwrap();
    assert_eq!(connection.addressing_format().unwrap(), CanTpAddressingFormat::Extended);

    assert_eq!(connection.padding_activation().unwrap(), false);
    connection.set_padding_activation(true).unwrap();
    assert_eq!(connection.padding_activation().unwrap(), true);

    let node = can_tp_config.create_can_tp_node("node").unwrap();
    assert_eq!(can_tp_config.can_tp_nodes().len(), 1);
    assert_eq!(can_tp_config.can_tp_nodes()[0], node);

    node.set_address(&address).unwrap();
    assert_eq!(node.address().unwrap(), address);
    node.set_connector(&connector).unwrap();
    assert_eq!(node.connector().unwrap(), connector);
    connection.set_transmitter(&node).unwrap();
    assert_eq!(connection.transmitter().unwrap(), node);

    connection.add_receiver(&node).unwrap();
    assert_eq!(connection.receivers().len(), 1);
}

#[test]
fn test_flexray_iso_transport_protocol() {
    let model = AutosarModelAbstraction::create("DoipTp.arxml", AutosarVersion::LATEST);
    let package = model.get_or_create_package("/pkg1").unwrap();

    let system = package.create_system("system", SystemCategory::EcuExtract).unwrap();
    let flexray_cluster =
        FlexrayCluster::try_from(package_element(&package, ElementName::FlexrayCluster, "flexray_cluster")).unwrap();
    let ecu_instance = EcuInstance::new("ecu_instance", &package).unwrap();
    let connector = FlexrayCommunicationConnector::try_from(ecu_connector(
        &ecu_instance,
        ElementName::FlexrayCommunicationConnector,
    ))
    .unwrap();

    // create a direct TP SDU (DCM-I-PDU)
    let tp_sdu = IPdu::try_from(package_element(&package, ElementName::DcmIPdu, "diag")).unwrap();
    // create a reversed TP SDU (DCM-I-PDU)
    let reversed_tp_sdu = IPdu::try_from(package_element(&package, ElementName::DcmIPdu, "diag_rev")).unwrap();

    // create some NPdus
    let npdu1 = NPdu::try_from(package_element(&package, ElementName::NPdu, "npdu1")).unwrap();
    let npdu2 = NPdu::try_from(package_element(&package, ElementName::NPdu, "npdu2")).unwrap();

    // create a FlexrayTpConfig
    let fr_tp_config = system
        .create_flexray_tp_config("FrTpConfig", &package, &flexray_cluster)
        .unwrap();
    assert_eq!(fr_tp_config.cluster().unwrap(), flexray_cluster);

    // create a FlexrayTpPduPool
    let fr_tp_pdu_pool_tx = fr_tp_config.create_flexray_tp_pdu_pool("FrTpPduPool_Tx").unwrap();
    fr_tp_pdu_pool_tx.add_n_pdu(&npdu1).unwrap();
    assert_eq!(fr_tp_pdu_pool_tx.n_pdus().first().cloned(), Some(npdu1));
    let fr_tp_pdu_pool_rx = fr_tp_config.create_flexray_tp_pdu_pool("FrTpPduPool_Rx").unwrap();
    fr_tp_pdu_pool_rx.add_n_pdu(&npdu2).unwrap();
    assert_eq!(fr_tp_pdu_pool_rx.n_pdus().first().cloned(), Some(npdu2));

    assert!(fr_tp_config.flexray_tp_pdu_pools().len() == 2);

    // create a FlexrayTpAddress
    let tp_address_1 = fr_tp_config.create_tp_address("TpAddress1", 0x1234).unwrap();
    assert_eq!(fr_tp_config.tp_addresses().first().cloned(), Some(tp_address_1.clone()));
    assert_eq!(tp_address_1.address().unwrap(), 0x1234);
    let tp_address_2 = fr_tp_config.create_tp_address("TpAddress2", 0x5678).unwrap();
    assert_eq!(fr_tp_config.tp_addresses().len(), 2);

    // create a FlexrayTpNode
    let tp_node_1 = fr_tp_config.create_flexray_tp_node("TpNode1").unwrap();
    tp_node_1.set_tp_address(Some(&tp_address_1)).unwrap();
    assert_eq!(tp_node_1.tp_address().unwrap(), tp_address_1);
    tp_node_1.add_communication_connector(&connector).unwrap();
    assert_eq!(tp_node_1.communication_connectors().first().cloned(), Some(connector));
    let tp_node_2 = fr_tp_config.create_flexray_tp_node("TpNode2").unwrap();
    tp_node_2.set_tp_address(Some(&tp_address_2)).unwrap();

    assert_eq!(fr_tp_config.flexray_tp_nodes().len(), 2);
    assert_eq!(fr_tp_config.flexray_tp_nodes().first().cloned(), Some(tp_node_1.clone()));

    // create a FlexrayTpConnectionControl
    let connection_control = fr_tp_config
        .create_flexray_tp_connection_control("ConnectionControl")
        .unwrap();
    assert_eq!(fr_tp_config.flexray_tp_connection_controls().len(), 1);
    assert_eq!(fr_tp_config.flexray_tp_connection_controls()[0], connection_control);
    connection_control.set_max_fc_wait(10).unwrap();
    assert_eq!(connection_control.max_fc_wait().unwrap(), 10);
    connection_control.set_max_number_of_npdu_per_cycle(5).unwrap();
    assert_eq!(connection_control.max_number_of_npdu_per_cycle().unwrap(), 5);
    connection_control.set_max_retries(3).unwrap();
    assert_eq!(connection_control.max_retries().unwrap(), 3);
    connection_control.set_separation_cycle_exponent(2).unwrap();
    assert_eq!(connection_control.separation_cycle_exponent().unwrap(), 2);

    // create a FlexrayTpConnection
    let connection = fr_tp_config
        .create_flexray_tp_connection(None, &tp_node_1, &tp_sdu, &connection_control)
        .unwrap();
    assert_eq!(fr_tp_config.flexray_tp_connections().len(), 1);
    assert_eq!(fr_tp_config.flexray_tp_connections()[0], connection);

    connection.add_receiver(&tp_node_2).unwrap();
    connection.set_tx_pdu_pool(&fr_tp_pdu_pool_tx).unwrap();
    connection.set_rx_pdu_pool(&fr_tp_pdu_pool_rx).unwrap();
    connection.set_multicast_address(Some(&tp_address_2)).unwrap();
    connection.set_reversed_tp_sdu(&reversed_tp_sdu).unwrap();
    assert_eq!(connection.receivers().len(), 1);
    assert_eq!(connection.receivers().first().cloned(), Some(tp_node_2));
    assert_eq!(connection.tx_pdu_pool().unwrap(), fr_tp_pdu_pool_tx);
    assert_eq!(connection.rx_pdu_pool().unwrap(), fr_tp_pdu_pool_rx);
    assert_eq!(connection.multicast_address().unwrap(), tp_address_2);
    assert_eq!(connection.connection_control().unwrap(), connection_control);
    assert_eq!(connection.transmitter().unwrap(), tp_node_1);
    assert_eq!(connection.direct_tp_sdu().unwrap(), tp_sdu.clone());
    assert_eq!(connection.reversed_tp_sdu().unwrap(), reversed_tp_sdu.clone());

    assert_eq!(connection.name(), None);
    connection.set_name("Connection1").unwrap();
    assert_eq!(connection.name(), Some("Connection1".to_string()));

    // add a FlexrayTpEcu to the FlexrayTpConfig
    let fr_tp_ecu = fr_tp_config.create_flexray_tp_ecu(&ecu_instance, true).unwrap();
    fr_tp_ecu.set_cancellation(Some(true)).unwrap();
    assert_eq!(fr_tp_config.flexray_tp_ecus().len(), 1);
    assert_eq!(fr_tp_config.flexray_tp_ecus()[0], fr_tp_ecu);
    assert_eq!(fr_tp_ecu.ecu_instance().unwrap(), ecu_instance);
    assert!(fr_tp_ecu.full_duplex_enabled().unwrap());
    assert!(fr_tp_ecu.cancellation().unwrap());
}

#[test]
fn flexray_tp_node_connector_limit() {
    let model = AutosarModelAbstraction::create("filename", AutosarVersion::LATEST);
    let package = model.get_or_create_package("/pkg1").unwrap();
    let system = package.create_system("system", SystemCategory::EcuExtract).unwrap();
    let cluster = FlexrayCluster::try_from(package_element(&package, ElementName::FlexrayCluster, "cluster")).unwrap();
    let ecu = EcuInstance::new("ecu", &package).unwrap();
    let connector =
        FlexrayCommunicationConnector::try_from(ecu_connector(&ecu, ElementName::FlexrayCommunicationConnector))
            .unwrap();
    let config = system.create_flexray_tp_config("config", &package, &cluster).unwrap();
    let node = config.create_flexray_tp_node("node").unwrap();
    node.add_communication_connector(&connector).unwrap();
    node.add_communication_connector(&connector).unwrap();
    let result = node.add_communication_connector(&connector);
    assert!(matches!(result, Err(AutosarAbstractionError::InvalidParameter(_))));
    assert_eq!(node.communication_connectors().len(), 2);

    assert!(check_connector_count(0).is_ok());
    assert!(check_connector_count(1).is_ok());
    match check_connector_count(2) {
        Err(AutosarAbstractionError::InvalidParameter(message)) => {
            assert_eq!(message, "A FlexrayTpNode can only have up to 2 connectors")
        },
        _ => panic!("a third connector must be refused"),
    }

    // a TP address can be removed again
    let address = config.create_tp_address("address", 7).unwrap();
    node.set_tp_address(Some(&address)).unwrap();
    assert_eq!(node.tp_address().unwrap(), address);
    node.set_tp_address(None).unwrap();
    assert!(node.tp_address().is_none());
}

#[test]
fn ipdu_kinds() {
    let model = AutosarModelAbstraction::create("filename", AutosarVersion::LATEST);
    let package = model.get_or_create_package("/pkg1").unwrap();
    for (name, kind) in [
        ("a", ElementName::ISignalIPdu),
        ("b", ElementName::DcmIPdu),
        ("c", ElementName::GeneralPurposeIPdu),
        ("d", ElementName::ContainerIPdu),
        ("e", ElementName::SecuredIPdu),
        ("f", ElementName::MultiplexedIPdu),
    ] {
        assert!(IPdu::try_from(package_element(&package, kind, name)).is_ok());
    }
    let npdu = package_element(&package, ElementName::NPdu, "n");
    match IPdu::try_from(npdu.clone()) {
        Err(AutosarAbstractionError::ConversionError { dest, .. }) => assert_eq!(dest, "IPdu"),
        _ => panic!("an N-PDU is no I-PDU"),
    }
    assert!(NPdu::try_from(npdu).is_ok());
    assert!(CanCluster::try_from(package_element(&package, ElementName::FlexrayCluster, "fr")).is_err());
}
