use vstd::prelude::*;
use autosar_data::Element;
use vstd::std_specs::convert::{FromSpecImpl, TryFromSpecImpl};
use crate::{
    AbstractionElement, AutosarAbstractionError, IdentifiableAbstractionElement, ArPackage,
    has_element_name, is_conversion_error,
};
use crate::datatype::{ApplicationDataType, ImplementationDataType, is_application_data_type_name};
use crate::elements::{
    create_named_sub_element, create_sub_element, get_or_create_sub_element, get_reference_target, get_sub_element,
    set_reference_target, spec_element_name, sub_elements,
};

verus! {

/// A [`DataTypeMappingSet`] contains `DataTypeMap`s
#[derive(Debug, Clone, PartialEq, Eq, Hash)]
pub struct DataTypeMappingSet(Element);

impl AbstractionElement for DataTypeMappingSet {
    closed spec fn spec_element(&self) -> Element {
        self.0
    }

    fn element(&self) -> (r: &Element) {
        proof {
            assert(self.spec_element() == self.0);
        }
        &self.0
    }
}

impl DataTypeMappingSet {
    /// wrap an element of the model whose element name is `DATA-TYPE-MAPPING-SET`
    pub fn from_element(element: Element) -> (r: Result<Self, AutosarAbstractionError>)
        ensures
            r is Ok <==> spec_element_name(element) == "DATA-TYPE-MAPPING-SET"@,
            r matches Ok(x) ==> x.spec_element() == element,
            r matches Err(e) ==> is_conversion_error(e, element, "DataTypeMappingSet"@),
    {
        if has_element_name(&element, "DATA-TYPE-MAPPING-SET") {
            Ok(DataTypeMappingSet(element))
        } else {
            Err(AutosarAbstractionError::ConversionError { element, dest: "DataTypeMappingSet".to_owned() })
        }
    }
}

impl TryFrom<Element> for DataTypeMappingSet {
    type Error = AutosarAbstractionError;

    fn try_from(element: Element) -> (r: Result<Self, Self::Error>)
        ensures
            r is Ok <==> spec_element_name(element) == "DATA-TYPE-MAPPING-SET"@,
            r matches Ok(x) ==> x.spec_element() == element,
            r matches Err(e) ==> is_conversion_error(e, element, "DataTypeMappingSet"@),
    {
        DataTypeMappingSet::from_element(element)
    }
}

impl TryFromSpecImpl<Element> for DataTypeMappingSet {
    open spec fn obeys_try_from_spec() -> bool {
        false
    }

    open spec fn try_from_spec(v: Element) -> Result<Self, AutosarAbstractionError> {
        arbitrary()
    }
}

impl From<DataTypeMappingSet> for Element {
    fn from(value: DataTypeMappingSet) -> (r: Element)
        ensures
            r == value.spec_element(),
    {
        value.0
    }
}

impl FromSpecImpl<DataTypeMappingSet> for Element {
    open spec fn obeys_from_spec() -> bool {
        false
    }

    open spec fn from_spec(v: DataTypeMappingSet) -> Element {
        arbitrary()
    }
}

impl IdentifiableAbstractionElement for DataTypeMappingSet {}

impl DataTypeMappingSet {
    /// Create a new `DataTypeMappingSet` in the given package
    pub fn new(name: &str, package: &ArPackage) -> (r: Result<Self, AutosarAbstractionError>)
        ensures
            r matches Ok(t) ==> spec_element_name(t.spec_element()) == "DATA-TYPE-MAPPING-SET"@,
            r matches Err(e) ==> e is ModelError || e is InvalidParameter,
    {
        let elements = get_or_create_sub_element(package.element(), "ELEMENTS")?;
        let mapping_set = create_named_sub_element(&elements, "DATA-TYPE-MAPPING-SET", name)?;

        Ok(DataTypeMappingSet(mapping_set))
    }

    /// Create a new `DataTypeMap` in the `DataTypeMappingSet`
    pub fn create_data_type_map<T: Into<ApplicationDataType> + Clone>(
        &self,
        implementation_data_type: &ImplementationDataType,
        application_data_type: &T,
    ) -> (r: Result<DataTypeMap, AutosarAbstractionError>)
        ensures
            r matches Ok(t) ==> spec_element_name(t.spec_element()) == "DATA-TYPE-MAP"@,
            r matches Err(e) ==> e is ModelError || e is InvalidParameter,
    {
        let application_data_type: ApplicationDataType = application_data_type.clone().into();
        DataTypeMap::new(self.element(), implementation_data_type, &application_data_type)
    }

    /// Get the `DataTypeMap`s in the `DataTypeMappingSet`
    pub fn data_type_maps(&self) -> (r: Vec<DataTypeMap>)
        ensures
            forall|i: int| 0 <= i < r.len() ==> spec_element_name(#[trigger] r@[i].spec_element()) == "DATA-TYPE-MAP"@,
    {
        let mut result: Vec<DataTypeMap> = Vec::new();
        if let Some(maps) = get_sub_element(self.element(), "DATA-TYPE-MAPS") {
            let items = sub_elements(&maps);
            for i in 0..items.len()
                invariant
                    forall|j: int| 0 <= j < result.len() ==> spec_element_name(#[trigger] result@[j].spec_element()) == "DATA-TYPE-MAP"@,
            {
                if let Ok(map) = DataTypeMap::from_element(items[i].clone()) {
                    result.push(map);
                }
            }
        }
        result
    }
}

//#########################################################

/// A `DataTypeMap` maps an `ImplementationDataType` to an `ApplicationDataType`
#[derive(Debug, Clone, PartialEq, Eq, Hash)]
pub struct DataTypeMap(Element);

impl AbstractionElement for DataTypeMap {
    closed spec fn spec_element(&self) -> Element {
        self.0
    }

    fn element(&self) -> (r: &Element) {
        proof {
            assert(self.spec_element() == self.0);
        }
        &self.0
    }
}

impl DataTypeMap {
    /// wrap an element of the model whose element name is `DATA-TYPE-MAP`
    pub fn from_element(element: Element) -> (r: Result<Self, AutosarAbstractionError>)
        ensures
            r is Ok <==> spec_element_name(element) == "DATA-TYPE-MAP"@,
            r matches Ok(x) ==> x.spec_element() == element,
            r matches Err(e) ==> is_conversion_error(e, element, "DataTypeMap"@),
    {
        if has_element_name(&element, "DATA-TYPE-MAP") {
            Ok(DataTypeMap(element))
        } else {
            Err(AutosarAbstractionError::ConversionError { element, dest: "DataTypeMap".to_owned() })
        }
    }
}

impl TryFrom<Element> for DataTypeMap {
    type Error = AutosarAbstractionError;

    fn try_from(element: Element) -> (r: Result<Self, Self::Error>)
        ensures
            r is Ok <==> spec_element_name(element) == "DATA-TYPE-MAP"@,
            r matches Ok(x) ==> x.spec_element() == element,
            r matches Err(e) ==> is_conversion_error(e, element, "DataTypeMap"@),
    {
        DataTypeMap::from_element(element)
    }
}

impl TryFromSpecImpl<Element> for DataTypeMap {
    open spec fn obeys_try_from_spec() -> bool {
        false
    }

    open spec fn try_from_spec(v: Element) -> Result<Self, AutosarAbstractionError> {
        arbitrary()
    }
}

impl From<DataTypeMap> for Element {
    fn from(value: DataTypeMap) -> (r: Element)
        ensures
            r == value.spec_element(),
    {
        value.0
    }
}

impl FromSpecImpl<DataTypeMap> for Element {
    open spec fn obeys_from_spec() -> bool {
        false
    }

    open spec fn from_spec(v: DataTypeMap) -> Element {
        arbitrary()
    }
}

impl DataTypeMap {
    fn new(
        parent: &Element,
        implementation_data_type: &ImplementationDataType,
        application_data_type: &ApplicationDataType,
    ) -> (r: Result<Self, AutosarAbstractionError>)
        ensures
            r matches Ok(t) ==> spec_element_name(t.spec_element()) == "DATA-TYPE-MAP"@,
            r matches Err(e) ==> e is ModelError || e is InvalidParameter,
    {
        let maps = get_or_create_sub_element(parent, "DATA-TYPE-MAPS")?;
        let data_type_map = create_sub_element(&maps, "DATA-TYPE-MAP")?;

        let app_ref = create_sub_element(&data_type_map, "APPLICATION-DATA-TYPE-REF")?;
        set_reference_target(&app_ref, application_data_type.element())?;
        let impl_ref = create_sub_element(&data_type_map, "IMPLEMENTATION-DATA-TYPE-REF")?;
        set_reference_target(&impl_ref, implementation_data_type.element())?;

        Ok(DataTypeMap(data_type_map))
    }

    /// Get the `ImplementationDataType` of the `DataTypeMap`
    pub fn implementation_data_type(&self) -> (r: Option<ImplementationDataType>)
        ensures
            r matches Some(x) ==> spec_element_name(x.spec_element()) == "IMPLEMENTATION-DATA-TYPE"@,
    {
        let impl_ref = get_sub_element(self.element(), "IMPLEMENTATION-DATA-TYPE-REF")?;
        let target = match get_reference_target(&impl_ref) {
            Ok(target) => target,
            Err(_) => return None,
        };
        match ImplementationDataType::from_element(target) {
            Ok(data_type) => Some(data_type),
            Err(_) => None,
        }
    }

    /// Get the `ApplicationDataType` of the `DataTypeMap`
    pub fn application_data_type(&self) -> (r: Option<ApplicationDataType>)
        ensures
            r matches Some(x) ==> is_application_data_type_name(spec_element_name(x.spec_element())),
    {
        let app_ref = get_sub_element(self.element(), "APPLICATION-DATA-TYPE-REF")?;
        let target = match get_reference_target(&app_ref) {
            Ok(target) => target,
            Err(_) => return None,
        };
        match ApplicationDataType::from_element(target) {
            Ok(data_type) => Some(data_type),
            Err(_) => None,
        }
    }
}

} // verus!
