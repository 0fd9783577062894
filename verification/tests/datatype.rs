use autosar_data::{AutosarModel, AutosarVersion, ElementName};
use autosar_data_abstraction::datatype::{
    AbstractImplementationDataType, ApplicationArrayDataType, ApplicationArraySize, ApplicationDataType,
    ApplicationPrimitiveCategory, ApplicationPrimitiveDataType, ApplicationRecordDataType, AutosarDataType,
    CompuMethod, DataConstr, DataTypeMappingSet, ImplementationDataCategory, ImplementationDataType,
    ImplementationDataTypeSettings, SwBaseType, Unit, check_array_size,
};
use autosar_data_abstraction::{AbstractionElement, ArPackage, AutosarModelAbstraction};

fn new_sw_base_type(package: &ArPackage, name: &str) -> SwBaseType {
    let elements = package.element().get_or_create_sub_element(ElementName::Elements).unwrap();
    let elem = elements.create_named_sub_element(ElementName::SwBaseType, name).unwrap();
    SwBaseType::try_from(elem).unwrap()
}

fn new_compu_method(package: &ArPackage, name: &str) -> CompuMethod {
    let elements = package.element().get_or_create_sub_element(ElementName::Elements).unwrap();
    let elem = elements.create_named_sub_element(ElementName::CompuMethod, name).unwrap();
    CompuMethod::try_from(elem).unwrap()
}

#[test]
fn implementation_data_category() {
    assert_eq!(ImplementationDataCategory::Value.to_string(), "VALUE");
    assert_eq!(ImplementationDataCategory::DataReference.to_string(), "DATA_REFERENCE");
    assert_eq!(
        ImplementationDataCategory::FunctionReference.to_string(),
        "FUNCTION_REFERENCE"
    );
    assert_eq!(ImplementationDataCategory::TypeReference.to_string(), "TYPE_REFERENCE");
    assert_eq!(ImplementationDataCategory::Structure.to_string(), "STRUCTURE");
    assert_eq!(ImplementationDataCategory::Union.to_string(), "UNION");
    assert_eq!(ImplementationDataCategory::Array.to_string(), "ARRAY");

    assert_eq!(
        ImplementationDataCategory::try_from("VALUE").unwrap(),
        ImplementationDataCategory::Value
    );
    assert_eq!(
        ImplementationDataCategory::try_from("DATA_REFERENCE").unwrap(),
        ImplementationDataCategory::DataReference
    );
    assert_eq!(
        ImplementationDataCategory::try_from("FUNCTION_REFERENCE").unwrap(),
        ImplementationDataCategory::FunctionReference
    );
    assert_eq!(
        ImplementationDataCategory::try_from("TYPE_REFERENCE").unwrap(),
        ImplementationDataCategory::TypeReference
    );
    assert_eq!(
        ImplementationDataCategory::try_from("STRUCTURE").unwrap(),
        ImplementationDataCategory::Structure
    );
    assert_eq!(
        ImplementationDataCategory::try_from("UNION").unwrap(),
        ImplementationDataCategory::Union
    );
    assert_eq!(
        ImplementationDataCategory::try_from("ARRAY").unwrap(),
        ImplementationDataCategory::Array
    );

    assert!(ImplementationDataCategory::try_from("invalid").is_err());
}

#[test]
fn test_application_array_data_type() {
    let model = AutosarModelAbstraction::create("filename", AutosarVersion::LATEST);
    let package = model.get_or_create_package("/DataTypes").unwrap();
    let element_type = ApplicationPrimitiveDataType::new(
        "Element",
        &package,
        ApplicationPrimitiveCategory::Value,
        None,
        None,
        None,
    )
    .unwrap();
    let array_data_type =
        ApplicationArrayDataType::new("Array", &package, &element_type, ApplicationArraySize::Fixed(10)).unwrap();
    let array_type_2 =
        ApplicationArrayDataType::new("Array2", &package, &element_type, ApplicationArraySize::Fixed(100)).unwrap();

    assert_eq!(
        array_data_type.array_element().unwrap().data_type().unwrap(),
        ApplicationDataType::Primitive(element_type)
    );
    assert_eq!(array_data_type.size().unwrap(), ApplicationArraySize::Fixed(10));

    array_data_type
        .set_size(ApplicationArraySize::VariableLinear(100))
        .unwrap();
    assert_eq!(
        array_data_type.size().unwrap(),
        ApplicationArraySize::VariableLinear(100)
    );

    // the inner type must be an array type for the following size settings
    let result = array_data_type.set_size(ApplicationArraySize::VariableSquare);
    assert!(result.is_err());
    let result = array_data_type.set_size(ApplicationArraySize::VariableRectangular(100));
    assert!(result.is_err());
    let result = array_data_type.set_size(ApplicationArraySize::VariableFullyFlexible(100));
    assert!(result.is_err());

    // reassign the array element type to an array type
    array_data_type
        .array_element()
        .unwrap()
        .set_data_type(&array_type_2)
        .unwrap();
    array_data_type.set_size(ApplicationArraySize::VariableSquare).unwrap();
    assert_eq!(array_data_type.size().unwrap(), ApplicationArraySize::VariableSquare);
    array_data_type
        .set_size(ApplicationArraySize::VariableRectangular(100))
        .unwrap();
    assert_eq!(
        array_data_type.size().unwrap(),
        ApplicationArraySize::VariableRectangular(100)
    );
    array_data_type
        .set_size(ApplicationArraySize::VariableFullyFlexible(100))
        .unwrap();
    assert_eq!(
        array_data_type.size().unwrap(),
        ApplicationArraySize::VariableFullyFlexible(100)
    );

    // reassign the array element type
    let element_type_2 = ApplicationPrimitiveDataType::new(
        "Element2",
        &package,
        ApplicationPrimitiveCategory::Value,
        None,
        None,
        None,
    )
    .unwrap();
    let array_element = array_data_type.array_element().unwrap();
    array_element.set_data_type(&element_type_2).unwrap();
    assert_eq!(
        array_element.data_type().unwrap(),
        ApplicationDataType::Primitive(element_type_2)
    );
}

#[test]
fn test_application_record_data_type() {
    let model = AutosarModelAbstraction::create("filename", AutosarVersion::LATEST);
    let package = model.get_or_create_package("/DataTypes").unwrap();
    let record_data_type = ApplicationRecordDataType::new("Record", &package).unwrap();
    let element_type = ApplicationPrimitiveDataType::new(
        "Element",
        &package,
        ApplicationPrimitiveCategory::Value,
        None,
        None,
        None,
    )
    .unwrap();
    let record_element = record_data_type
        .create_record_element("Element", &element_type)
        .unwrap();

    assert_eq!(
        record_element.data_type().unwrap(),
        ApplicationDataType::Primitive(element_type)
    );
    assert_eq!(record_data_type.record_elements()[0], record_element);
}

#[test]
fn test_application_primitive_data_type() {
    let model = AutosarModelAbstraction::create("filename", AutosarVersion::LATEST);
    let package = model.get_or_create_package("/DataTypes").unwrap();
    let compu_method = new_compu_method(&package, "CompuMethod");
    let unit = Unit::new("Unit", &package, Some("Unit name")).unwrap();
    let data_constraint = DataConstr::new("DataConstraint", &package).unwrap();
    let primitive_data_type = ApplicationPrimitiveDataType::new(
        "Primitive",
        &package,
        ApplicationPrimitiveCategory::Value,
        Some(&compu_method),
        Some(&unit),
        Some(&data_constraint),
    )
    .unwrap();

    assert_eq!(
        primitive_data_type.category().unwrap(),
        ApplicationPrimitiveCategory::Value
    );
    assert_eq!(primitive_data_type.compu_method().unwrap(), compu_method);
    assert_eq!(primitive_data_type.unit().unwrap(), unit);
    assert_eq!(primitive_data_type.data_constraint().unwrap(), data_constraint);

    primitive_data_type
        .set_category(ApplicationPrimitiveCategory::Boolean)
        .unwrap();
    assert_eq!(
        primitive_data_type.category().unwrap(),
        ApplicationPrimitiveCategory::Boolean
    );
    primitive_data_type.set_compu_method(None).unwrap();
    assert!(primitive_data_type.compu_method().is_none());
    primitive_data_type.set_unit(None).unwrap();
    assert!(primitive_data_type.unit().is_none());
    primitive_data_type.set_data_constraint(None).unwrap();
    assert!(primitive_data_type.data_constraint().is_none());
}

#[test]
fn test_application_data_type() {
    let model = AutosarModelAbstraction::create("filename", AutosarVersion::LATEST);
    let package = model.get_or_create_package("/DataTypes").unwrap();
    let element_type = ApplicationPrimitiveDataType::new(
        "Element",
        &package,
        ApplicationPrimitiveCategory::Value,
        None,
        None,
        None,
    )
    .unwrap();
    let array_data_type =
        ApplicationArrayDataType::new("Array", &package, &element_type, ApplicationArraySize::Fixed(10)).unwrap();
    let record_data_type = ApplicationRecordDataType::new("Record", &package).unwrap();
    let primitive_data_type = ApplicationPrimitiveDataType::new(
        "Primitive",
        &package,
        ApplicationPrimitiveCategory::Value,
        None,
        None,
        None,
    )
    .unwrap();

    let data_type: ApplicationDataType = array_data_type.clone().into();
    assert_eq!(data_type, ApplicationDataType::Array(array_data_type.clone()));
    assert_eq!(data_type.category().unwrap(), "ARRAY");

    let data_type: ApplicationDataType = record_data_type.clone().into();
    assert_eq!(data_type, ApplicationDataType::Record(record_data_type.clone()));
    assert_eq!(data_type.category().unwrap(), "STRUCTURE");

    let data_type: ApplicationDataType = primitive_data_type.clone().into();
    assert_eq!(data_type, ApplicationDataType::Primitive(primitive_data_type.clone()));
    assert_eq!(data_type.category().unwrap(), "VALUE");

    let result = ApplicationDataType::try_from(package.element().clone());
    assert!(result.is_err());
}

#[test]
fn remove() {
    let model = AutosarModelAbstraction::create("filename", AutosarVersion::LATEST);
    let package = model.get_or_create_package("/DataTypes").unwrap();
    let element_type = ApplicationPrimitiveDataType::new(
        "AppPrimitive",
        &package,
        ApplicationPrimitiveCategory::Value,
        None,
        None,
        None,
    )
    .unwrap();
    let array_data_type =
        ApplicationArrayDataType::new("AppArray", &package, &element_type, ApplicationArraySize::Fixed(10)).unwrap();

    // create a matching implementation data type
    let base_type = new_sw_base_type(&package, "uint8");
    let impl_array = ImplementationDataType::new(
        &package,
        ImplementationDataTypeSettings::Array {
            name: "ImplArray".to_string(),
            length: 10,
            element_type: Box::new(ImplementationDataTypeSettings::Value {
                name: "ImplPrimitive".to_string(),
                base_type,
                compu_method: None,
                data_constraint: None,
            }),
        },
    )
    .unwrap();

    // create a data type mapping that maps the implementation array to the application array
    let data_type_mapping_set = DataTypeMappingSet::new("DataTypeMappingSet", &package).unwrap();
    data_type_mapping_set
        .create_data_type_map(&impl_array, &array_data_type)
        .unwrap();

    // create a SenderReceiverInterface whose data element uses the application array data type
    let elements = package.element().get_sub_element(ElementName::Elements).unwrap();
    let sr_interface = elements
        .create_named_sub_element(ElementName::SenderReceiverInterface, "SRInterface")
        .unwrap();
    let data_elements = sr_interface.create_sub_element(ElementName::DataElements).unwrap();
    let vdp = data_elements
        .create_named_sub_element(ElementName::VariableDataPrototype, "VDP")
        .unwrap();
    vdp.create_sub_element(ElementName::TypeTref)
        .unwrap()
        .set_reference_target(array_data_type.element())
        .unwrap();
    // create a client-server interface whose operation argument uses the application array data type
    let cs_interface = elements
        .create_named_sub_element(ElementName::ClientServerInterface, "CSInterface")
        .unwrap();
    let cso = cs_interface
        .create_sub_element(ElementName::Operations)
        .unwrap()
        .create_named_sub_element(ElementName::ClientServerOperation, "ADP")
        .unwrap();
    let arguments = cso.create_sub_element(ElementName::Arguments).unwrap();
    let adp = arguments
        .create_named_sub_element(ElementName::ArgumentDataPrototype, "ADP")
        .unwrap();
    adp.create_sub_element(ElementName::TypeTref)
        .unwrap()
        .set_reference_target(array_data_type.element())
        .unwrap();

    // create an application record data type that uses the application array data type
    let record_data_type = ApplicationRecordDataType::new("AppRecord", &package).unwrap();
    let _record_element = record_data_type
        .create_record_element("RecordElement", &array_data_type)
        .unwrap();

    // remove the application array data type deeply
    array_data_type.remove(true).unwrap();

    // check that all related elements have been removed
    assert_eq!(data_type_mapping_set.data_type_maps().len(), 0);
    assert_eq!(data_elements.sub_elements().count(), 0);
    assert_eq!(arguments.sub_elements().count(), 0);
    assert_eq!(record_data_type.record_elements().len(), 0);
}

#[test]
fn test_impl_data_type() {
    let model = AutosarModel::new();
    let _file = model.create_file("filename", AutosarVersion::LATEST).unwrap();
    let package = ArPackage::get_or_create(&model, "/DataTypes").unwrap();
    let base_type = new_sw_base_type(&package, "uint8");
    let compu_method = new_compu_method(&package, "linear");
    let data_constraint = DataConstr::new("constraint", &package).unwrap();
    let other_impl_data_type = ImplementationDataType::new(
        &package,
        ImplementationDataTypeSettings::Value {
            name: "OtherImplDataType".to_string(),
            base_type: base_type.clone(),
            compu_method: Some(compu_method.clone()),
            data_constraint: None,
        },
    )
    .unwrap();
    let settings = ImplementationDataTypeSettings::Structure {
        name: "Structure".to_string(),
        elements: vec![
            ImplementationDataTypeSettings::Union {
                name: "union".to_string(),
                elements: vec![ImplementationDataTypeSettings::Value {
                    name: "MyImplDataType1".to_string(),
                    base_type: base_type.clone(),
                    compu_method: Some(compu_method.clone()),
                    data_constraint: Some(data_constraint.clone()),
                }],
            },
            ImplementationDataTypeSettings::Value {
                name: "MyImplDataType1".to_string(),
                base_type: base_type.clone(),
                compu_method: Some(compu_method.clone()),
                data_constraint: Some(data_constraint.clone()),
            },
            ImplementationDataTypeSettings::Array {
                name: "MyArray".to_string(),
                length: 10,
                element_type: Box::new(ImplementationDataTypeSettings::Value {
                    name: "MyImplDataType2".to_string(),
                    base_type: base_type.clone(),
                    compu_method: Some(compu_method.clone()),
                    data_constraint: None,
                }),
            },
            ImplementationDataTypeSettings::TypeReference {
                name: "ReferenceType".to_string(),
                reftype: other_impl_data_type.clone(),
                compu_method: Some(compu_method.clone()),
                data_constraint: Some(data_constraint.clone()),
            },
        ],
    };
    let impl_data_type = ImplementationDataType::new(&package, settings.clone()).unwrap();

    assert_eq!(impl_data_type.category(), Some(ImplementationDataCategory::Structure));

    let sub_elements = impl_data_type.sub_elements();
    assert_eq!(sub_elements.len(), 4);
    assert_eq!(sub_elements[0].category(), Some(ImplementationDataCategory::Union));
    assert_eq!(sub_elements[1].category(), Some(ImplementationDataCategory::Value));
    assert_eq!(sub_elements[2].category(), Some(ImplementationDataCategory::Array));
    assert_eq!(
        sub_elements[3].category(),
        Some(ImplementationDataCategory::TypeReference)
    );

    let settings2 = impl_data_type.settings().unwrap();
    assert_eq!(settings, settings2);
}

#[test]
fn test_data_type_mapping_set() {
    let model = AutosarModelAbstraction::create("test.arxml", AutosarVersion::LATEST);
    let package = model.get_or_create_package("/DataTypeMappingSets").unwrap();
    let mapping_set = DataTypeMappingSet::new("MappingSet", &package).unwrap();

    // create an implementation data type
    let base_type = new_sw_base_type(&package, "uint8");
    let impl_data_type = ImplementationDataType::new(
        &package,
        ImplementationDataTypeSettings::Value {
            name: "ImplDataType".to_string(),
            base_type: base_type.clone(),
            compu_method: None,
            data_constraint: None,
        },
    )
    .unwrap();
    // create an application data type
    let app_data_type: ApplicationDataType = ApplicationPrimitiveDataType::new(
        "AppDataType",
        &package,
        ApplicationPrimitiveCategory::Value,
        None,
        None,
        None,
    )
    .unwrap()
    .into();

    let data_type_map = mapping_set
        .create_data_type_map(&impl_data_type, &app_data_type)
        .unwrap();

    assert_eq!(data_type_map.implementation_data_type().unwrap(), impl_data_type);
    assert_eq!(data_type_map.application_data_type().unwrap(), app_data_type);

    assert_eq!(mapping_set.data_type_maps().len(), 1);
}

#[test]
fn autosar_data_type() {
    let model = AutosarModelAbstraction::create("filename", AutosarVersion::LATEST);
    let package = model.get_or_create_package("/DataTypes").unwrap();

    let app_primitive = ApplicationPrimitiveDataType::new(
        "Primitive",
        &package,
        ApplicationPrimitiveCategory::Value,
        None,
        None,
        None,
    )
    .unwrap();
    let app_array = ApplicationArrayDataType::new("Array", &package, &app_primitive, ApplicationArraySize::Fixed(1))
        .unwrap();
    let app_record = ApplicationRecordDataType::new("Record", &package).unwrap();
    let base_type = new_sw_base_type(&package, "uint8");
    let impl_settings = ImplementationDataTypeSettings::Value {
        name: "ImplValue".to_string(),
        base_type: base_type.clone(),
        compu_method: None,
        data_constraint: None,
    };
    let impl_type = ImplementationDataType::new(&package, impl_settings).unwrap();

    let app_primitive2 = AutosarDataType::try_from(app_primitive.element().clone()).unwrap();
    assert!(matches!(
        app_primitive2,
        AutosarDataType::ApplicationPrimitiveDataType(_)
    ));
    assert_eq!(app_primitive2.element(), app_primitive.element());

    let app_array2 = AutosarDataType::try_from(app_array.element().clone()).unwrap();
    assert!(matches!(app_array2, AutosarDataType::ApplicationArrayDataType(_)));
    assert_eq!(app_array2.element(), app_array.element());

    let app_record2 = AutosarDataType::try_from(app_record.element().clone()).unwrap();
    assert!(matches!(app_record2, AutosarDataType::ApplicationRecordDataType(_)));
    assert_eq!(app_record2.element(), app_record.element());

    let impl_type2 = AutosarDataType::try_from(impl_type.element().clone()).unwrap();
    assert!(matches!(impl_type2, AutosarDataType::ImplementationDataType(_)));
    assert_eq!(impl_type2.element(), impl_type.element());
}

// the size checks of set_size, on concrete values
#[test]
fn array_size_checks() {
    assert!(check_array_size(true, &ApplicationArraySize::VariableLinear(5)).is_err());
    assert!(check_array_size(false, &ApplicationArraySize::VariableLinear(5)).is_ok());
    assert!(check_array_size(false, &ApplicationArraySize::VariableSquare).is_err());
    assert!(check_array_size(true, &ApplicationArraySize::VariableSquare).is_ok());
    assert!(check_array_size(false, &ApplicationArraySize::Fixed(3)).is_ok());
    assert!(check_array_size(true, &ApplicationArraySize::Fixed(3)).is_ok());
}

// the stored content of an array size reads back as the size
#[test]
fn array_size_settings_roundtrip() {
    for size in [
        ApplicationArraySize::Fixed(10),
        ApplicationArraySize::VariableLinear(7),
        ApplicationArraySize::VariableSquare,
        ApplicationArraySize::VariableRectangular(3),
        ApplicationArraySize::VariableFullyFlexible(9),
    ] {
        let settings = size.settings();
        assert_eq!(
            ApplicationArraySize::from_settings(settings.size_profile, settings.max_number_of_elements),
            Some(size)
        );
    }
    assert_eq!(ApplicationArraySize::from_settings(Some("VSA_OTHER"), Some(3)), None);
    assert_eq!(ApplicationArraySize::from_settings(None, None), None);
}

// the text of each primitive category reads back as the category
#[test]
fn application_primitive_category_roundtrip() {
    for category in [
        ApplicationPrimitiveCategory::Value,
        ApplicationPrimitiveCategory::ValBlk,
        ApplicationPrimitiveCategory::String,
        ApplicationPrimitiveCategory::Boolean,
        ApplicationPrimitiveCategory::ComAxis,
        ApplicationPrimitiveCategory::ResAxis,
        ApplicationPrimitiveCategory::Curve,
        ApplicationPrimitiveCategory::Map2D,
        ApplicationPrimitiveCategory::Cuboid,
        ApplicationPrimitiveCategory::Cube4,
        ApplicationPrimitiveCategory::Cube5,
    ] {
        let text = category.to_string();
        assert_eq!(text.parse::<ApplicationPrimitiveCategory>().unwrap(), category);
    }
    assert_eq!(ApplicationPrimitiveCategory::Cube4.to_string(), "CUBE_4");
    assert!("cube".parse::<ApplicationPrimitiveCategory>().is_err());
}
