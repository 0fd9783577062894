use autosar_data::{AutosarModel, AutosarVersion};
use autosar_data_abstraction::ecu_configuration::{
    EcucAbstractStringParamDef, EcucCommonAttributes, EcucConfigurationClass, EcucConfigurationVariant,
    EcucContainerDef, EcucDestinationUriNestingContract, EcucParameterDef,
};
use autosar_data_abstraction::{
    AbstractionElement, ArPackage, AutosarModelAbstraction, IdentifiableAbstractionElement,
};

#[test]
fn container() {
    let model = AutosarModelAbstraction::create("filename", AutosarVersion::LATEST);
    let package = model.get_or_create_package("/pkg1").unwrap();
    let ecuc_module = package.create_ecuc_module_def("ecuc_module").unwrap();
    assert_eq!(ecuc_module.containers().len(), 0);

    let choice_container = ecuc_module.create_choice_container_def("ChoiceContainer").unwrap();
    assert_eq!(choice_container.choices().len(), 0);
    choice_container
        .create_param_conf_container_def("ParamConfContainerChoice1")
        .unwrap();
    choice_container
        .create_param_conf_container_def("ParamConfContainerChoice2")
        .unwrap();
    assert_eq!(choice_container.choices().len(), 2);

    let param_conf_container = ecuc_module
        .create_param_conf_container_def("ParamConfContainer")
        .unwrap();
    assert_eq!(param_conf_container.sub_containers().len(), 0);
    param_conf_container
        .create_choice_container_def("ChoiceContainer")
        .unwrap();
    assert_eq!(param_conf_container.sub_containers().len(), 1);

    assert_eq!(param_conf_container.parameters().len(), 0);
    param_conf_container
        .create_add_info_param_def("AddInfoParam", "origin")
        .unwrap();
    param_conf_container
        .create_boolean_param_def("BooleanParam", "origin")
        .unwrap();
    param_conf_container
        .create_enumeration_param_def("EnumerationParam", "origin")
        .unwrap();
    param_conf_container
        .create_float_param_def("FloatParam", "origin")
        .unwrap();
    param_conf_container
        .create_integer_param_def("IntegerParam", "origin")
        .unwrap();
    param_conf_container
        .create_function_name_def("FunctionName", "origin")
        .unwrap();
    param_conf_container
        .create_linker_symbol_def("LinkerSymbol", "origin")
        .unwrap();
    param_conf_container
        .create_multiline_string_param_def("MultilineStringParam", "origin")
        .unwrap();
    param_conf_container
        .create_string_param_def("StringParam", "origin")
        .unwrap();
    assert_eq!(param_conf_container.parameters().len(), 9);

    assert_eq!(param_conf_container.references().len(), 0);
    param_conf_container
        .create_foreign_reference_def("ForeignReference", "origin")
        .unwrap();
    param_conf_container
        .create_instance_reference_def("InstanceReference", "origin")
        .unwrap();
    param_conf_container
        .create_choice_reference_def("ChoiceReference", "origin")
        .unwrap();
    param_conf_container
        .create_reference_def("Reference", "origin")
        .unwrap();
    param_conf_container
        .create_uri_reference_def("UriReference", "origin")
        .unwrap();
    assert_eq!(param_conf_container.references().len(), 5);

    assert_eq!(ecuc_module.containers().len(), 2);
    let containers = ecuc_module.containers();
    assert_eq!(containers[0].element(), choice_container.element());
    assert_eq!(containers[1].element(), param_conf_container.element());
}

#[test]
fn parameter() {
    let model = AutosarModelAbstraction::create("test.arxml", AutosarVersion::Autosar_00048);
    let pkg = model.get_or_create_package("/test").unwrap();
    let ecuc_module = pkg.create_ecuc_module_def("EcucModule").unwrap();
    let container = ecuc_module.create_param_conf_container_def("Container").unwrap();

    let addinfo = container.create_add_info_param_def("AddInfo", "origin").unwrap();
    let boolean = container.create_boolean_param_def("Boolean", "origin").unwrap();
    let enumeration = container.create_enumeration_param_def("Enumeration", "origin").unwrap();
    let float = container.create_float_param_def("Float", "origin").unwrap();
    let integer = container.create_integer_param_def("Integer", "origin").unwrap();
    let function_name = container
        .create_function_name_param_def("FunctionName", "origin")
        .unwrap();
    let linker_symbol = container
        .create_linker_symbol_param_def("LinkerSymbol", "origin")
        .unwrap();
    let multiline_string = container
        .create_multiline_string_param_def("MultilineString", "origin")
        .unwrap();
    let string = container.create_string_param_def("String", "origin").unwrap();

    let addinfo2 = EcucParameterDef::AddInfo(addinfo);
    let boolean2 = EcucParameterDef::Boolean(boolean);
    let enumeration2 = EcucParameterDef::Enumeration(enumeration);
    let float2 = EcucParameterDef::Float(float);
    let integer2 = EcucParameterDef::Integer(integer);
    let function_name2 = EcucParameterDef::FunctionName(function_name);
    let linker_symbol2 = EcucParameterDef::LinkerSymbol(linker_symbol);
    let multiline_string2 = EcucParameterDef::MultilineString(multiline_string);
    let string2 = EcucParameterDef::String(string);

    assert_eq!(addinfo2.name(), Some("AddInfo".to_string()));
    assert_eq!(boolean2.name(), Some("Boolean".to_string()));
    assert_eq!(enumeration2.name(), Some("Enumeration".to_string()));
    assert_eq!(float2.name(), Some("Float".to_string()));
    assert_eq!(integer2.name(), Some("Integer".to_string()));
    assert_eq!(function_name2.name(), Some("FunctionName".to_string()));
    assert_eq!(linker_symbol2.name(), Some("LinkerSymbol".to_string()));
    assert_eq!(multiline_string2.name(), Some("MultilineString".to_string()));
    assert_eq!(string2.name(), Some("String".to_string()));
}

fn check_string_param<T: EcucAbstractStringParamDef>(param: &T) {
    param.set_max_length(Some(10)).unwrap();
    assert_eq!(param.max_length(), Some(10));
    param.set_max_length(None).unwrap();
    assert_eq!(param.max_length(), None);
    param.set_min_length(Some(5)).unwrap();
    assert_eq!(param.min_length(), Some(5));
    param.set_min_length(None).unwrap();
    assert_eq!(param.min_length(), None);
    param.set_regular_expression(Some(r"^\d{5}$")).unwrap();
    assert_eq!(param.regular_expression(), Some(r"^\d{5}$".to_string()));
    param.set_regular_expression(None).unwrap();
    assert_eq!(param.regular_expression(), None);
    param.set_default_value(Some("12345")).unwrap();
    assert_eq!(param.default_value(), Some("12345".to_string()));
    param.set_default_value(None).unwrap();
    assert_eq!(param.default_value(), None);
}

#[test]
fn string_parameters() {
    let model = AutosarModelAbstraction::create("test.arxml", AutosarVersion::Autosar_00048);
    let pkg = model.get_or_create_package("/test").unwrap();
    let ecuc_module = pkg.create_ecuc_module_def("EcucModule").unwrap();
    let container = ecuc_module.create_param_conf_container_def("Container").unwrap();

    let function_name = container
        .create_function_name_param_def("FunctionName", "origin")
        .unwrap();
    check_string_param(&function_name);
    let linker_symbol = container
        .create_linker_symbol_param_def("LinkerSymbol", "origin")
        .unwrap();
    check_string_param(&linker_symbol);
    let multiline_string = container
        .create_multiline_string_param_def("MultilineString", "origin")
        .unwrap();
    check_string_param(&multiline_string);
    let string = container.create_string_param_def("String", "origin").unwrap();
    check_string_param(&string);

    // trait functions
    let mcc = [(
        EcucConfigurationClass::PreCompile,
        EcucConfigurationVariant::VariantPreCompile,
    )];
    string.set_multiplicity_config_classes(&mcc).unwrap();
    assert_eq!(string.multiplicity_config_classes(), mcc);
    string.set_origin("AUTOSAR_ECUC").unwrap();
    assert_eq!(string.origin().as_deref(), Some("AUTOSAR_ECUC"));
    string.set_post_build_variant_multiplicity(Some(true)).unwrap();
    assert_eq!(string.post_build_variant_multiplicity(), Some(true));
    string.set_post_build_variant_value(Some(true)).unwrap();
    assert_eq!(string.post_build_variant_value(), Some(true));
    string.set_requires_index(Some(false)).unwrap();
    assert_eq!(string.requires_index(), Some(false));
    let vcc = [(
        EcucConfigurationClass::PostBuild,
        EcucConfigurationVariant::VariantPostBuild,
    )];
    string.set_value_config_classes(&vcc).unwrap();
    assert_eq!(string.value_config_classes(), vcc);
    string.set_with_auto(Some(true)).unwrap();
    assert_eq!(string.with_auto(), Some(true));
}

#[test]
fn boolean_parameters() {
    let model = AutosarModelAbstraction::create("test.arxml", AutosarVersion::Autosar_00048);
    let pkg = model.get_or_create_package("/test").unwrap();
    let ecuc_module = pkg.create_ecuc_module_def("EcucModule").unwrap();
    let container = ecuc_module.create_param_conf_container_def("Container").unwrap();

    let boolean = container.create_boolean_param_def("Boolean", "origin").unwrap();
    boolean.set_default_value(Some(true)).unwrap();
    assert_eq!(boolean.default_value(), Some(true));
    boolean.set_default_value(None).unwrap();
    assert_eq!(boolean.default_value(), None);
}

#[test]
fn enumeration_parameters() {
    let model = AutosarModelAbstraction::create("test.arxml", AutosarVersion::Autosar_00048);
    let pkg = model.get_or_create_package("/test").unwrap();
    let ecuc_module = pkg.create_ecuc_module_def("EcucModule").unwrap();
    let container = ecuc_module.create_param_conf_container_def("Container").unwrap();

    let enumeration = container.create_enumeration_param_def("Enumeration", "origin").unwrap();
    // setting a default value before creating literals should fail
    let result = enumeration.set_default_value(Some("Literal1"));
    assert!(result.is_err());
    // create literals
    let _literal1 = enumeration.create_enumeration_literal("Literal1").unwrap();
    let _literal2 = enumeration.create_enumeration_literal("Literal2").unwrap();

    enumeration.set_default_value(Some("Literal1")).unwrap();
    assert_eq!(enumeration.default_value(), Some("Literal1".to_string()));
}

#[test]
fn integer_parameters() {
    let model = AutosarModelAbstraction::create("test.arxml", AutosarVersion::Autosar_00048);
    let pkg = model.get_or_create_package("/test").unwrap();
    let ecuc_module = pkg.create_ecuc_module_def("EcucModule").unwrap();
    let container = ecuc_module.create_param_conf_container_def("Container").unwrap();

    let integer = container.create_integer_param_def("Integer", "origin").unwrap();
    integer.set_default_value(Some(123)).unwrap();
    assert_eq!(integer.default_value(), Some(123));
    integer.set_min(Some(0)).unwrap();
    assert_eq!(integer.min(), Some(0));
    integer.set_max(Some(200)).unwrap();
    assert_eq!(integer.max(), Some(200));
}

#[test]
fn integer_parameters_signed_and_extreme() {
    let model = AutosarModelAbstraction::create("test.arxml", AutosarVersion::Autosar_00048);
    let pkg = model.get_or_create_package("/test").unwrap();
    let ecuc_module = pkg.create_ecuc_module_def("EcucModule").unwrap();
    let container = ecuc_module.create_param_conf_container_def("Container").unwrap();
    let integer = container.create_integer_param_def("Integer", "origin").unwrap();
    integer.set_min(Some(i64::MIN)).unwrap();
    assert_eq!(integer.min(), Some(i64::MIN));
    integer.set_max(Some(i64::MAX)).unwrap();
    assert_eq!(integer.max(), Some(i64::MAX));
    integer.set_default_value(Some(-42)).unwrap();
    assert_eq!(integer.default_value(), Some(-42));
    integer.set_default_value(None).unwrap();
    assert_eq!(integer.default_value(), None);
}

fn module_container(model: &AutosarModel) -> (ArPackage, autosar_data_abstraction::ecu_configuration::EcucParamConfContainerDef) {
    let _file = model.create_file("file.arxml", AutosarVersion::LATEST).unwrap();
    let pkg = ArPackage::get_or_create(model, "/pkg").unwrap();
    let ecuc_module_def = pkg.create_ecuc_module_def("module").unwrap();
    let container = ecuc_module_def.create_param_conf_container_def("container").unwrap();
    (pkg, container)
}

#[test]
fn test_foreign_reference_def() {
    let model = AutosarModel::new();
    let (_pkg, container) = module_container(&model);
    let foreign_ref = container.create_foreign_reference_def("foreign_ref", "origin").unwrap();
    assert_eq!(container.references().len(), 1);

    assert_eq!(foreign_ref.destination_type(), None);
    foreign_ref.set_destination_type(Some("type")).unwrap();
    assert_eq!(foreign_ref.destination_type(), Some("type".to_string()));
    assert_eq!(container.references()[0].element(), foreign_ref.element());
}

#[test]
fn test_instance_reference_def() {
    let model = AutosarModel::new();
    let (_pkg, container) = module_container(&model);
    let instance_ref = container
        .create_instance_reference_def("instance_ref", "origin")
        .unwrap();
    assert_eq!(container.references().len(), 1);

    assert_eq!(instance_ref.destination_type(), None);
    instance_ref.set_destination_type(Some("type")).unwrap();
    assert_eq!(instance_ref.destination_type(), Some("type".to_string()));

    assert_eq!(instance_ref.destination_context(), None);
    instance_ref.set_destination_context(Some("context")).unwrap();
    assert_eq!(instance_ref.destination_context(), Some("context".to_string()));
    assert_eq!(container.references()[0].element(), instance_ref.element());
}

#[test]
fn test_choice_reference_def() {
    let model = AutosarModel::new();
    let (_pkg, container) = module_container(&model);
    let choice_ref = container.create_choice_reference_def("choice_ref", "origin").unwrap();
    assert_eq!(container.references().len(), 1);

    assert_eq!(choice_ref.destination_refs().len(), 0);
    let dest = container.create_param_conf_container_def("dest").unwrap();
    choice_ref.add_destination(&dest).unwrap();
    assert_eq!(choice_ref.destination_refs().len(), 1);
    assert_eq!(container.references()[0].element(), choice_ref.element());
}

#[test]
fn test_reference_def() {
    let model = AutosarModel::new();
    let (_pkg, container) = module_container(&model);
    let reference = container.create_reference_def("reference", "origin").unwrap();
    assert_eq!(container.references().len(), 1);

    assert_eq!(reference.destination(), None);
    let dest = container.create_param_conf_container_def("dest").unwrap();
    reference.set_destination(Some(&dest)).unwrap();
    assert_eq!(reference.destination().unwrap(), EcucContainerDef::ParamConf(dest));
    assert_eq!(container.references()[0].element(), reference.element());
}

#[test]
fn test_uri_reference_def() {
    let model = AutosarModel::new();
    let (pkg, container) = module_container(&model);
    let uri_ref = container.create_uri_reference_def("uri_ref", "origin").unwrap();
    assert_eq!(container.references().len(), 1);

    let uri_def_set = pkg.create_ecuc_destination_uri_def_set("uri_def").unwrap();
    let uri_def = uri_def_set
        .create_destination_uri_def("uri", EcucDestinationUriNestingContract::VertexOfTargetContainer)
        .unwrap();

    assert_eq!(uri_ref.destination_uri(), None);
    uri_ref.set_destination_uri(Some(&uri_def)).unwrap();
    assert_eq!(uri_ref.destination_uri(), Some(uri_def));
    assert_eq!(container.references()[0].element(), uri_ref.element());
}
