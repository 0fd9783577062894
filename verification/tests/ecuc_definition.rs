use autosar_data::{AutosarVersion, EnumItem};
use autosar_data_abstraction::ecu_configuration::{
    EcucCommonAttributes, EcucConfigurationClass, EcucConfigurationVariant, EcucContainerDef, EcucDefinitionCollection,
    EcucDefinitionElement, EcucDestinationUriDefSet, EcucDestinationUriNestingContract, EcucModuleDef,
    EcucModuleDefCategory,
};
use autosar_data_abstraction::{AbstractionElement, AutosarAbstractionError, AutosarModelAbstraction};

#[test]
fn ecuc_module_def() {
    let model = AutosarModelAbstraction::create("file.arxml", AutosarVersion::LATEST);
    let package = model.get_or_create_package("/package").unwrap();

    let ecuc_definition_collection = EcucDefinitionCollection::new("collection", &package).unwrap();
    assert_eq!(ecuc_definition_collection.module_defs().len(), 0);

    let ecuc_module_def = EcucModuleDef::new("module_def", &package).unwrap();
    ecuc_definition_collection.add_module_def(&ecuc_module_def).unwrap();
    assert_eq!(ecuc_definition_collection.module_defs().len(), 1);

    assert_eq!(ecuc_module_def.api_service_prefix(), None);
    assert_eq!(
        ecuc_module_def.supported_config_variants(),
        Vec::<EcucConfigurationVariant>::new()
    );
    assert_eq!(ecuc_module_def.post_build_variant_support(), None);
    assert_eq!(ecuc_module_def.category(), None);
    assert_eq!(ecuc_module_def.refined_module_def(), None);
    assert_eq!(ecuc_module_def.lower_multiplicity(), None);
    assert_eq!(ecuc_module_def.upper_multiplicity(), None);
    assert_eq!(ecuc_module_def.upper_multiplicity_infinite(), None);

    let base_ecuc_module_def = EcucModuleDef::new("base_module_def", &package).unwrap();
    ecuc_module_def
        .set_refined_module_def(Some(&base_ecuc_module_def))
        .unwrap();
    assert_eq!(ecuc_module_def.refined_module_def(), Some(base_ecuc_module_def.clone()));
    ecuc_module_def.set_api_service_prefix(Some("prefix")).unwrap();
    assert_eq!(ecuc_module_def.api_service_prefix(), Some("prefix".to_string()));
    ecuc_module_def
        .set_supported_config_variants(&[
            EcucConfigurationVariant::PreconfiguredConfiguration,
            EcucConfigurationVariant::VariantLinkTime,
        ])
        .unwrap();
    assert_eq!(
        ecuc_module_def.supported_config_variants(),
        vec![
            EcucConfigurationVariant::PreconfiguredConfiguration,
            EcucConfigurationVariant::VariantLinkTime
        ]
    );
    ecuc_module_def.set_post_build_variant_support(Some(true)).unwrap();
    assert_eq!(ecuc_module_def.post_build_variant_support(), Some(true));
    ecuc_module_def
        .set_category(Some(EcucModuleDefCategory::VendorSpecificModuleDefinition))
        .unwrap();
    assert_eq!(
        ecuc_module_def.category(),
        Some(EcucModuleDefCategory::VendorSpecificModuleDefinition)
    );
    ecuc_module_def.set_lower_multiplicity(Some(1)).unwrap();
    assert_eq!(ecuc_module_def.lower_multiplicity(), Some(1));
    ecuc_module_def.set_upper_multiplicity(Some(2)).unwrap();
    assert_eq!(ecuc_module_def.upper_multiplicity(), Some(2));
    ecuc_module_def.set_upper_multiplicity_infinite(Some(true)).unwrap();
    assert_eq!(ecuc_module_def.upper_multiplicity_infinite(), Some(true));
}

#[test]
fn ecuc_configuration_variant_enum_conversion() {
    let variants = [
        EcucConfigurationVariant::PreconfiguredConfiguration,
        EcucConfigurationVariant::RecommendedConfiguration,
        EcucConfigurationVariant::VariantLinkTime,
        EcucConfigurationVariant::VariantPostBuild,
        EcucConfigurationVariant::VariantPreCompile,
        EcucConfigurationVariant::VariantPostBuildLoadable,
        EcucConfigurationVariant::VariantPostBuildSelectable,
    ];

    for variant in &variants {
        let enum_item: EnumItem = (*variant).into();
        let converted_variant = EcucConfigurationVariant::try_from(enum_item).unwrap();
        assert_eq!(*variant, converted_variant);
    }
}

#[test]
fn destionation_uri_defs() {
    let model = AutosarModelAbstraction::create("file.arxml", AutosarVersion::LATEST);
    let package = model.get_or_create_package("/package").unwrap();

    let ecuc_destination_uri_def_set = EcucDestinationUriDefSet::new("destination_uri_def_set", &package).unwrap();
    assert_eq!(ecuc_destination_uri_def_set.destination_uri_defs().len(), 0);

    let ecuc_destination_uri_def = ecuc_destination_uri_def_set
        .create_destination_uri_def(
            "destination_uri_def",
            EcucDestinationUriNestingContract::LeafOfTargetContainer,
        )
        .unwrap();
    assert_eq!(ecuc_destination_uri_def_set.destination_uri_defs().len(), 1);

    assert_eq!(
        ecuc_destination_uri_def.nesting_contract(),
        Some(EcucDestinationUriNestingContract::LeafOfTargetContainer)
    );
    assert_eq!(ecuc_destination_uri_def.containers().len(), 0);

    let _param_conf_container_def = ecuc_destination_uri_def
        .create_param_conf_container_def("param_conf_container")
        .unwrap();
    assert_eq!(ecuc_destination_uri_def.containers().len(), 1);

    let _choice_container_def = ecuc_destination_uri_def
        .create_choice_container_def("choice_container")
        .unwrap();
    assert_eq!(ecuc_destination_uri_def.containers().len(), 2);
}

#[test]
fn configuration_class_and_contract_items() {
    for class in [
        EcucConfigurationClass::Link,
        EcucConfigurationClass::PostBuild,
        EcucConfigurationClass::PreCompile,
        EcucConfigurationClass::PublishedInformation,
    ] {
        let item: EnumItem = class.into();
        assert_eq!(item.to_str(), class.item_text());
        assert_eq!(EcucConfigurationClass::try_from(item).unwrap(), class);
    }
    for contract in [
        EcucDestinationUriNestingContract::LeafOfTargetContainer,
        EcucDestinationUriNestingContract::TargetContainer,
        EcucDestinationUriNestingContract::VertexOfTargetContainer,
    ] {
        let item: EnumItem = contract.into();
        assert_eq!(EcucDestinationUriNestingContract::try_from(item).unwrap(), contract);
    }
    assert!(matches!(
        EcucConfigurationClass::try_from(EnumItem::Fixed),
        Err(AutosarAbstractionError::ValueConversionError { value, dest }) if value == "FIXED" && dest == "EcucConfigurationClass"
    ));
    assert!(EcucConfigurationVariant::try_from(EnumItem::Link).is_err());
    assert_eq!(EcucConfigurationVariant::VariantPostBuild.item_text(), "VARIANT-POST-BUILD");
}

#[test]
fn module_def_category_text() {
    assert_eq!(
        EcucModuleDefCategory::StandardizedModuleDefinition.to_string(),
        "STANDARDIZED_MODULE_DEFINITION"
    );
    assert_eq!(
        EcucModuleDefCategory::try_from("VENDOR_SPECIFIC_MODULE_DEFINITION").unwrap(),
        EcucModuleDefCategory::VendorSpecificModuleDefinition
    );
    assert!(matches!(
        EcucModuleDefCategory::try_from("other"),
        Err(AutosarAbstractionError::ValueConversionError { .. })
    ));
}

#[test]
fn containers_and_multiplicity() {
    let model = AutosarModelAbstraction::create("file.arxml", AutosarVersion::LATEST);
    let package = model.get_or_create_package("/package").unwrap();
    let module_def = EcucModuleDef::new("module_def", &package).unwrap();
    let choice = module_def.create_choice_container_def("ChoiceContainer").unwrap();
    let param_conf = module_def.create_param_conf_container_def("ParamConfContainer").unwrap();
    choice.create_param_conf_container_def("Choice1").unwrap();
    choice.create_param_conf_container_def("Choice2").unwrap();
    assert_eq!(choice.choices().len(), 2);
    param_conf.create_choice_container_def("SubChoice").unwrap();
    param_conf.create_param_conf_container_def("SubParamConf").unwrap();
    assert_eq!(param_conf.sub_containers().len(), 2);

    let containers = module_def.containers();
    assert_eq!(containers.len(), 2);
    assert!(matches!(containers[0], EcucContainerDef::Choice(_)));
    assert!(matches!(containers[1], EcucContainerDef::ParamConf(_)));
    assert!(EcucContainerDef::try_from(module_def.element().clone()).is_err());

    param_conf.set_upper_multiplicity(Some(5)).unwrap();
    assert_eq!(param_conf.upper_multiplicity(), Some(5));
    param_conf.set_upper_multiplicity_infinite(Some(true)).unwrap();
    assert_eq!(param_conf.upper_multiplicity(), None);
    assert_eq!(param_conf.upper_multiplicity_infinite(), Some(true));
    param_conf.set_upper_multiplicity_infinite(None).unwrap();
    assert_eq!(param_conf.upper_multiplicity_infinite(), None);
    param_conf.set_lower_multiplicity(Some(0)).unwrap();
    param_conf.set_lower_multiplicity(None).unwrap();
    assert_eq!(param_conf.lower_multiplicity(), None);
}
