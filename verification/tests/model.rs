use autosar_data::{AutosarModel, AutosarVersion, ElementName, EnumItem};
use autosar_data_abstraction::{
    AbstractionElement, AutosarAbstractionError, AutosarModelAbstraction, ByteOrder, EcuInstance,
    IdentifiableAbstractionElement, SystemCategory,
};

#[test]
fn create_model() {
    // create a new AutosarModelAbstraction based on an existing AutosarModel
    let raw_model = AutosarModel::new();
    let model = AutosarModelAbstraction::new(raw_model.clone());
    assert_eq!(model.model(), &raw_model);

    // create an empty AutosarModelAbstraction from scratch
    let model = AutosarModelAbstraction::create("filename", AutosarVersion::Autosar_00049);
    let root = model.root_element();
    assert_eq!(root.element_name(), ElementName::Autosar);
}

#[test]
fn model_files() {
    let model = AutosarModelAbstraction::create("file1.arxml", AutosarVersion::Autosar_00049);
    let file = model.create_file("file2.arxml", AutosarVersion::Autosar_00049).unwrap();
    let files: Vec<_> = model.files();
    assert_eq!(files.len(), 2);
    assert_eq!(files[1], file);
}

#[test]
fn model_packages() {
    let model = AutosarModelAbstraction::create("filename", AutosarVersion::Autosar_00049);
    let package = model.get_or_create_package("/package").unwrap();
    let package2 = model.get_or_create_package("/other_package").unwrap();
    model.get_or_create_package("/other_package/sub_package").unwrap();
    let packages: Vec<_> = model.packages();
    assert_eq!(packages.len(), 2);
    assert_eq!(packages[0], package);
    assert_eq!(packages[1], package2);
}

#[test]
fn errors() {
    let model = AutosarModel::new();

    let err = AutosarAbstractionError::ConversionError {
        element: model.root_element(),
        dest: "TEST".to_string(),
    };
    let string = err.to_string();
    assert!(!string.is_empty());

    let err = AutosarAbstractionError::InvalidPath("lorem ipsum".to_string());
    let string = err.to_string();
    assert!(!string.is_empty());

    let err = AutosarAbstractionError::ItemAlreadyExists;
    let string = err.to_string();
    assert!(!string.is_empty());
}

#[test]
fn error_messages() {
    let model = AutosarModel::new();
    let err = AutosarAbstractionError::ConversionError {
        element: model.root_element(),
        dest: "TEST".to_string(),
    };
    assert_eq!(err.to_string(), "conversion error: could not convert AUTOSAR to TEST");
    let err = AutosarAbstractionError::ValueConversionError {
        value: "x".to_string(),
        dest: "ByteOrder".to_string(),
    };
    assert_eq!(err.to_string(), "value conversion error: could not convert x to ByteOrder");
    assert_eq!(
        AutosarAbstractionError::InvalidParameter("p".to_string()).to_string(),
        "invalid parameter: p"
    );
    assert_eq!(AutosarAbstractionError::ItemAlreadyExists.to_string(), "the item already exists");
    let model_error = model.root_element().remove_sub_element_kind(ElementName::ArPackages).unwrap_err();
    let err = AutosarAbstractionError::ModelError(model_error);
    assert!(err.to_string().starts_with("model error: "));
}

#[test]
fn find_system() {
    let model = AutosarModelAbstraction::create("filename", AutosarVersion::Autosar_00048);
    assert!(model.find_system().is_none());
    let package = model.get_or_create_package("/my/pkg").unwrap();
    let system = package.create_system("System", SystemCategory::SystemExtract).unwrap();
    assert_eq!(model.find_system(), Some(system));
}

#[test]
fn get_or_create_package_rules() {
    let model = AutosarModelAbstraction::create("filename", AutosarVersion::LATEST);
    assert!(matches!(
        model.get_or_create_package("relative"),
        Err(AutosarAbstractionError::InvalidPath(p)) if p == "relative"
    ));
    let pkg = model.get_or_create_package("/a/b").unwrap();
    assert_eq!(pkg.name(), Some("b".to_string()));
    assert_eq!(model.get_or_create_package("/a/b").unwrap(), pkg);
}

#[test]
fn byte_order_items() {
    for order in [
        ByteOrder::MostSignificantByteFirst,
        ByteOrder::MostSignificantByteLast,
        ByteOrder::Opaque,
    ] {
        let item: EnumItem = order.into();
        assert_eq!(ByteOrder::try_from(item).unwrap(), order);
    }
    assert!(ByteOrder::try_from(EnumItem::Fixed).is_err());
}

#[test]
fn ecu_instance_remove() {
    let model = AutosarModelAbstraction::create("filename", AutosarVersion::LATEST);
    let package = model.get_or_create_package("/pkg1").unwrap();
    let ecu = EcuInstance::new("ecu_name", &package).unwrap();
    assert_eq!(ecu.name(), Some("ecu_name".to_string()));
    let path = ecu.element().path().unwrap();
    ecu.remove(true).unwrap();
    assert!(model.get_element_by_path(&path).is_none());
}
