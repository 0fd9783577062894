use autosar_data::{AutosarModel, AutosarVersion, ElementName};
use autosar_data_abstraction::ecu_configuration::EcucAnyReferenceValue;
use autosar_data_abstraction::{AbstractionElement, ArPackage, AutosarModelAbstraction, SystemCategory};

#[test]
fn mod_test_ecu_configuration_values() {
    let definition_model = AutosarModel::new();
    let _file = definition_model
        .create_file("definition.arxml", AutosarVersion::LATEST)
        .unwrap();
    let def_package = ArPackage::get_or_create(&definition_model, "/def_package").unwrap();

    let values_model = AutosarModel::new();
    let _file = values_model
        .create_file("values.arxml", AutosarVersion::LATEST)
        .unwrap();
    let val_package = ArPackage::get_or_create(&values_model, "/val_package").unwrap();

    // create a definition for the ECU configuration
    let module_def = def_package.create_ecuc_module_def("ModuleDef").unwrap();
    let container_def = module_def.create_param_conf_container_def("ContainerDef").unwrap();

    // create an ecu configuration based on the definition model
    let ecuc_value_collection = val_package.create_ecuc_value_collection("EcucValues").unwrap();
    assert_eq!(ecuc_value_collection.ecu_extract_reference(), None);
    let system = val_package
        .create_system("System", SystemCategory::EcuExtract)
        .unwrap();
    ecuc_value_collection.set_ecu_extract_reference(&system).unwrap();
    assert_eq!(ecuc_value_collection.ecu_extract_reference().unwrap(), system);
    assert_eq!(ecuc_value_collection.module_configurations().len(), 0);

    let ecuc_config_values = val_package
        .create_ecuc_module_configuration_values("Module", &module_def)
        .unwrap();
    ecuc_value_collection
        .add_module_configuration(&ecuc_config_values)
        .unwrap();
    assert_eq!(ecuc_value_collection.module_configurations().len(), 1);
    assert_eq!(ecuc_config_values.definition_ref(), module_def.element().path().ok());
    // the definition is not loaded in the same model, so we can't get it
    assert!(ecuc_config_values.definition().is_none());

    let container_values = ecuc_config_values
        .create_container_value("Container", &container_def)
        .unwrap();
    assert_eq!(container_values.definition_ref(), container_def.element().path().ok());
    assert!(container_values.definition().is_none());
    assert_eq!(container_values.index(), None);
    container_values.set_index(Some(0)).unwrap();
    assert_eq!(container_values.index(), Some(0));
    assert_eq!(ecuc_config_values.container_values().len(), 1);

    let sub_container_value = container_values
        .create_sub_container("SubContainer", &container_def)
        .unwrap();
    assert_eq!(
        sub_container_value.definition_ref(),
        container_def.element().path().ok()
    );
    assert_eq!(container_values.sub_containers().len(), 1);

    // copy the definition into the value model
    values_model
        .root_element()
        .get_sub_element(ElementName::ArPackages)
        .unwrap()
        .create_copied_sub_element(def_package.element())
        .unwrap();
}

#[test]
fn reference_test_ecu_configuration_values() {
    let definition_model = AutosarModelAbstraction::create("definition.arxml", AutosarVersion::LATEST);
    let def_package = definition_model.get_or_create_package("/def_package").unwrap();

    let values_model = AutosarModelAbstraction::create("values.arxml", AutosarVersion::LATEST);
    let val_package = values_model.get_or_create_package("/val_package").unwrap();

    // create a definition for the ECU configuration
    let module_def = def_package.create_ecuc_module_def("ModuleDef").unwrap();
    let container_def = module_def.create_param_conf_container_def("ContainerDef").unwrap();
    let instance_ref_def = container_def
        .create_instance_reference_def("InstanceRefDef", "origin")
        .unwrap();
    let foreign_reference_def = container_def
        .create_foreign_reference_def("ForeignRefDef", "origin")
        .unwrap();
    let choice_reference_def = container_def
        .create_choice_reference_def("ChoiceRefDef", "origin")
        .unwrap();
    let reference_def = container_def.create_reference_def("RefDef", "origin").unwrap();
    let uri_reference_def = container_def.create_uri_reference_def("UriRefDef", "origin").unwrap();

    // create an ecu configuration based on the definition model
    let ecuc_config_values = val_package
        .create_ecuc_module_configuration_values("Module", &module_def)
        .unwrap();
    let container_values = ecuc_config_values
        .create_container_value("Container", &container_def)
        .unwrap();

    // the "infrastructure" for the instance reference: a composition with a port
    let elements = val_package.element().get_or_create_sub_element(ElementName::Elements).unwrap();
    let comp = elements
        .create_named_sub_element(ElementName::CompositionSwComponentType, "comp")
        .unwrap();
    let port_interface = elements
        .create_named_sub_element(ElementName::SenderReceiverInterface, "sr_interface")
        .unwrap();
    let r_port_prototype = comp
        .create_sub_element(ElementName::Ports)
        .unwrap()
        .create_named_sub_element(ElementName::RPortPrototype, "sr_r_port")
        .unwrap();
    r_port_prototype
        .create_sub_element(ElementName::RequiredInterfaceTref)
        .unwrap()
        .set_reference_target(&port_interface)
        .unwrap();
    // create the instance reference value
    let instance_ref = container_values
        .create_instance_reference(&instance_ref_def, &[&r_port_prototype], &r_port_prototype)
        .unwrap();
    // the definition is in a different model, so it can't be resolved
    assert!(instance_ref.definition().is_none());
    assert_eq!(instance_ref.definition_ref(), instance_ref_def.element().path().ok());
    let (target_context, target) = instance_ref.target().unwrap();
    assert_eq!(&target, &r_port_prototype);
    assert_eq!(target_context, &[r_port_prototype.clone()]);
    assert_eq!(instance_ref.index(), None);
    instance_ref.set_index(Some(42)).unwrap();
    assert_eq!(instance_ref.index(), Some(42));
    assert_eq!(instance_ref.is_auto_value(), None);
    instance_ref.set_is_auto_value(Some(true)).unwrap();
    assert_eq!(instance_ref.is_auto_value(), Some(true));

    let foreign_ref = container_values
        .create_reference_value(&foreign_reference_def, val_package.element())
        .unwrap();
    assert!(foreign_ref.definition().is_none());
    assert_eq!(
        foreign_ref.definition_ref(),
        foreign_reference_def.element().path().ok()
    );
    assert_eq!(&foreign_ref.target().unwrap(), val_package.element());
    assert_eq!(foreign_ref.index(), None);
    foreign_ref.set_index(Some(42)).unwrap();
    assert_eq!(foreign_ref.index(), Some(42));
    assert_eq!(foreign_ref.is_auto_value(), None);
    foreign_ref.set_is_auto_value(Some(true)).unwrap();
    assert_eq!(foreign_ref.is_auto_value(), Some(true));

    let choice_ref = container_values
        .create_reference_value(&choice_reference_def, val_package.element())
        .unwrap();
    assert!(choice_ref.definition().is_none());
    assert_eq!(choice_ref.definition_ref(), choice_reference_def.element().path().ok());
    assert_eq!(&choice_ref.target().unwrap(), val_package.element());
    assert_eq!(choice_ref.index(), None);
    choice_ref.set_index(Some(42)).unwrap();
    assert_eq!(choice_ref.index(), Some(42));
    assert_eq!(choice_ref.is_auto_value(), None);
    choice_ref.set_is_auto_value(Some(true)).unwrap();
    assert_eq!(choice_ref.is_auto_value(), Some(true));

    let ref_ref = container_values
        .create_reference_value(&reference_def, val_package.element())
        .unwrap();
    assert!(ref_ref.definition().is_none());
    assert_eq!(ref_ref.definition_ref(), reference_def.element().path().ok());
    assert_eq!(&ref_ref.target().unwrap(), val_package.element());
    assert_eq!(ref_ref.index(), None);
    ref_ref.set_index(Some(42)).unwrap();
    assert_eq!(ref_ref.index(), Some(42));
    assert_eq!(ref_ref.is_auto_value(), None);
    ref_ref.set_is_auto_value(Some(true)).unwrap();
    assert_eq!(ref_ref.is_auto_value(), Some(true));

    let uri_ref = container_values
        .create_reference_value(&uri_reference_def, val_package.element())
        .unwrap();
    assert!(uri_ref.definition().is_none());
    assert_eq!(uri_ref.definition_ref(), uri_reference_def.element().path().ok());
    assert_eq!(&uri_ref.target().unwrap(), val_package.element());
    assert_eq!(uri_ref.index(), None);
    uri_ref.set_index(Some(42)).unwrap();
    assert_eq!(uri_ref.index(), Some(42));
    assert_eq!(uri_ref.is_auto_value(), None);
    uri_ref.set_is_auto_value(Some(true)).unwrap();
    assert_eq!(uri_ref.is_auto_value(), Some(true));

    assert_eq!(container_values.reference_values().len(), 5);

    let any_ref = EcucAnyReferenceValue::try_from(instance_ref.element().clone()).unwrap();
    assert!(matches!(any_ref, EcucAnyReferenceValue::Instance(_)));
    assert_eq!(any_ref.element(), instance_ref.element());
    let any_ref = EcucAnyReferenceValue::try_from(foreign_ref.element().clone()).unwrap();
    assert!(matches!(any_ref, EcucAnyReferenceValue::Reference(_)));
    assert_eq!(any_ref.element(), foreign_ref.element());
    let err = EcucAnyReferenceValue::try_from(val_package.element().clone());
    assert!(err.is_err());
}

#[test]
fn system_category_text() {
    let model = AutosarModelAbstraction::create("values.arxml", AutosarVersion::LATEST);
    let package = model.get_or_create_package("/pkg").unwrap();
    let system = package.create_system("System", SystemCategory::SystemExtract).unwrap();
    assert_eq!(system.category(), Some(SystemCategory::SystemExtract));
    assert_eq!(SystemCategory::EcuExtract.text(), "ECU_EXTRACT");
    assert_eq!(SystemCategory::from_text("RPT_SYSTEM").unwrap(), SystemCategory::RptSystem);
    assert!(SystemCategory::from_text("system").is_err());
}
