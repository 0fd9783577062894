use autosar_data::{AutosarVersion, ElementName};
use autosar_data_abstraction::communication::{
    NetworkEndpointAddress, SocketAddressType, TpConfig, check_local_unicast_target, check_unicast_type,
    collect_connectors, multicast_addition_needed, require_connector,
};
use autosar_data_abstraction::datatype::{
    ApplicationArraySize, ApplicationPrimitiveCategory, ImplementationDataCategory, ImplementationDataTypeSettings,
    check_set_size, settings_from_parts, size_from_parts,
};
use autosar_data_abstraction::{AbstractionElement, AutosarAbstractionError, AutosarModelAbstraction, EcuInstance};
use std::str::FromStr;

fn invalid_parameter_text<T: std::fmt::Debug>(result: Result<T, AutosarAbstractionError>) -> String {
    match result {
        Err(AutosarAbstractionError::InvalidParameter(text)) => text,
        other => panic!("expected an invalid parameter, got {other:?}"),
    }
}

#[test]
fn settings_assembly() {
    let nested = vec![ImplementationDataTypeSettings::DataReference { name: "ptr".to_string() }];
    let structure = settings_from_parts(
        ImplementationDataCategory::Structure,
        "s".to_string(),
        None,
        None,
        None,
        None,
        None,
        Some(nested),
    );
    assert_eq!(
        structure,
        Some(ImplementationDataTypeSettings::Structure {
            name: "s".to_string(),
            elements: vec![ImplementationDataTypeSettings::DataReference { name: "ptr".to_string() }],
        })
    );
    // an array needs the settings of an element and a length
    let array = settings_from_parts(
        ImplementationDataCategory::Array,
        "a".to_string(),
        None,
        None,
        None,
        None,
        Some(4),
        Some(vec![ImplementationDataTypeSettings::FunctionReference { name: "f".to_string() }]),
    );
    assert_eq!(
        array,
        Some(ImplementationDataTypeSettings::Array {
            name: "a".to_string(),
            length: 4,
            element_type: Box::new(ImplementationDataTypeSettings::FunctionReference { name: "f".to_string() }),
        })
    );
    let no_element = settings_from_parts(
        ImplementationDataCategory::Array,
        "a".to_string(),
        None,
        None,
        None,
        None,
        Some(4),
        Some(Vec::new()),
    );
    assert_eq!(no_element, None);
    // a value needs a base type
    let value = settings_from_parts(ImplementationDataCategory::Value, "v".to_string(), None, None, None, None, None, None);
    assert_eq!(value, None);
}

#[test]
fn array_size_rules() {
    assert_eq!(
        invalid_parameter_text(check_set_size(false, None, &ApplicationArraySize::Fixed(3))),
        "Array data type has no array element"
    );
    assert!(check_set_size(true, None, &ApplicationArraySize::VariableSquare).is_ok());
    assert!(check_set_size(true, Some(true), &ApplicationArraySize::VariableLinear(3)).is_err());
    assert!(check_set_size(true, Some(false), &ApplicationArraySize::VariableLinear(3)).is_ok());
    assert!(check_set_size(true, Some(false), &ApplicationArraySize::VariableRectangular(3)).is_err());
    assert!(check_set_size(true, Some(true), &ApplicationArraySize::Fixed(3)).is_ok());

    assert_eq!(size_from_parts(false, Some("VSA_SQUARE"), Some(2)), None);
    assert_eq!(size_from_parts(true, None, Some(2)), Some(ApplicationArraySize::Fixed(2)));
    assert_eq!(size_from_parts(true, Some("VSA_SQUARE"), None), Some(ApplicationArraySize::VariableSquare));
    assert_eq!(size_from_parts(true, Some("VSA_LINEAR"), Some(5)), Some(ApplicationArraySize::VariableLinear(5)));
    assert_eq!(size_from_parts(true, Some("VSA_OTHER"), Some(5)), None);
}

#[test]
fn primitive_category_from_str() {
    assert_eq!(ApplicationPrimitiveCategory::from_str("COM_AXIS").unwrap(), ApplicationPrimitiveCategory::ComAxis);
    assert!(matches!(
        ApplicationPrimitiveCategory::from_str("nothing"),
        Err(AutosarAbstractionError::ValueConversionError { .. })
    ));
}

#[test]
fn socket_address_decisions() {
    let model = AutosarModelAbstraction::create("filename", AutosarVersion::LATEST);
    let package = model.get_or_create_package("/test").unwrap();
    let ecu = EcuInstance::new("ecu", &package).unwrap();
    let other = EcuInstance::new("other", &package).unwrap();

    let elem = ecu.element().clone();
    assert_eq!(collect_connectors(vec![Some(elem.clone())]).unwrap(), vec![elem.clone()]);
    assert_eq!(
        invalid_parameter_text(collect_connectors(vec![Some(elem.clone()), None])),
        "All EcuInstances must be connected to the EthernetPhysicalChannel"
    );
    assert_eq!(
        invalid_parameter_text(require_connector(None)),
        "EcuInstance is not connected to the EthernetPhysicalChannel"
    );

    assert_eq!(multicast_addition_needed(&None, &ecu).unwrap(), true);
    let multicast = Some(SocketAddressType::Multicast(vec![ecu.clone()]));
    assert_eq!(multicast_addition_needed(&multicast, &ecu).unwrap(), false);
    assert_eq!(multicast_addition_needed(&multicast, &other).unwrap(), true);
    let unicast = Some(SocketAddressType::Unicast(Some(ecu.clone())));
    assert_eq!(
        invalid_parameter_text(multicast_addition_needed(&unicast, &ecu)),
        "This SocketAddress is not a multicast socket"
    );
    assert!(check_unicast_type(&unicast).is_ok());
    assert!(check_unicast_type(&None).is_ok());
    assert_eq!(invalid_parameter_text(check_unicast_type(&multicast)), "This SocketAddress is not a unicast socket");

    let tcp = TpConfig::TcpTp { port_number: Some(1), port_dynamically_assigned: None };
    assert!(check_local_unicast_target(Some(elem.clone()), Some(tcp.clone())).is_ok());
    assert!(invalid_parameter_text(check_local_unicast_target(None, Some(tcp))).contains("ApplicationEndpoint"));
    assert!(invalid_parameter_text(check_local_unicast_target(Some(elem), None)).contains("TP configuration"));
}

#[test]
fn network_endpoint_address_variant() {
    let model = AutosarModelAbstraction::create("filename", AutosarVersion::LATEST);
    let package = model.get_or_create_package("/test").unwrap();
    let v4 = package
        .element()
        .create_sub_element(ElementName::Elements)
        .unwrap()
        .create_named_sub_element(ElementName::EthernetCluster, "c")
        .unwrap();
    let endpoint = v4
        .create_sub_element(ElementName::EthernetClusterVariants)
        .unwrap()
        .create_sub_element(ElementName::EthernetClusterConditional)
        .unwrap()
        .create_sub_element(ElementName::PhysicalChannels)
        .unwrap()
        .create_named_sub_element(ElementName::EthernetPhysicalChannel, "ch")
        .unwrap()
        .create_sub_element(ElementName::NetworkEndpoints)
        .unwrap()
        .create_named_sub_element(ElementName::NetworkEndpoint, "ne")
        .unwrap()
        .create_sub_element(ElementName::NetworkEndpointAddresses)
        .unwrap();
    let ipv4 = endpoint.create_sub_element(ElementName::Ipv4Configuration).unwrap();
    let ipv6 = endpoint.create_sub_element(ElementName::Ipv6Configuration).unwrap();
    assert!(matches!(NetworkEndpointAddress::try_from(ipv4), Ok(NetworkEndpointAddress::IPv4 { .. })));
    assert!(matches!(NetworkEndpointAddress::try_from(ipv6), Ok(NetworkEndpointAddress::IPv6 { .. })));
    assert!(NetworkEndpointAddress::try_from(endpoint).is_err());
}
