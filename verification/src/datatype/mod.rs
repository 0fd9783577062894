//! Autosar data types.
//!
//! This module contains the application and implementation data types, the mapping
//! between them, and supporting elements like units and data constraints.

use vstd::prelude::*;
use autosar_data::Element;
use vstd::std_specs::convert::{FromSpecImpl, TryFromSpecImpl};
use crate::{
    AbstractionElement, AutosarAbstractionError, IdentifiableAbstractionElement, ArPackage,
    has_element_name, is_conversion_error,
};
use crate::elements::{
    create_named_sub_element, create_sub_element, get_or_create_sub_element, get_sub_element,
    set_character_data_text, spec_element_name, sub_elements,
};

mod applicationtype;
pub(crate) mod implementationtype;
mod mapping;

pub use applicationtype::{
    ApplicationArrayDataType, ApplicationArrayElement, ApplicationArraySize, ApplicationDataType,
    ApplicationPrimitiveCategory, ApplicationPrimitiveDataType, ApplicationRecordDataType, ApplicationRecordElement,
    ArraySizeSettings, REMOVE_DEPTH_LIMIT, check_array_size, is_application_data_type_name,
    lemma_application_primitive_category_text_roundtrip,
    lemma_array_size_settings_roundtrip, check_set_size, missing_array_element_message, size_from_parts,
};
pub use implementationtype::{
    AbstractImplementationDataType, ImplementationDataCategory, ImplementationDataType,
    ImplementationDataTypeElement, ImplementationDataTypeSettings, SETTINGS_DEPTH_LIMIT, lemma_implementation_category_text_roundtrip,
    lemma_settings_written_parts_roundtrip, settings_from_parts, spec_assembled_settings, spec_written_base_type,
    spec_written_compu_method, spec_written_data_constraint, spec_written_elements, spec_written_length,
    spec_written_name, spec_written_reftype, spec_same_settings, spec_same_settings_list, spec_settings_refs_named,
};
pub use mapping::{DataTypeMap, DataTypeMappingSet};

verus! {

/// `AbstractAutosarDataType` is a marker trait for all data types
pub trait AbstractAutosarDataType: AbstractionElement {}

//#########################################################

/// `AutosarDataType` is the abstract base class for all data types in the AUTOSAR metamodel.
///
/// It encapsulates both application data types and implementation data types.
#[derive(Debug, Clone, PartialEq, Eq, Hash)]
pub enum AutosarDataType {
    /// An application primitive data type
    ApplicationPrimitiveDataType(ApplicationPrimitiveDataType),
    /// An application array data type
    ApplicationArrayDataType(ApplicationArrayDataType),
    /// An application record data type
    ApplicationRecordDataType(ApplicationRecordDataType),
    /// An implementation data type
    ImplementationDataType(ImplementationDataType),
}

impl AbstractionElement for AutosarDataType {
    open spec fn spec_element(&self) -> Element {
        match self {
            AutosarDataType::ApplicationPrimitiveDataType(data_type) => data_type.spec_element(),
            AutosarDataType::ApplicationArrayDataType(data_type) => data_type.spec_element(),
            AutosarDataType::ApplicationRecordDataType(data_type) => data_type.spec_element(),
            AutosarDataType::ImplementationDataType(data_type) => data_type.spec_element(),
        }
    }

    fn element(&self) -> (r: &Element) {
        match self {
            AutosarDataType::ApplicationPrimitiveDataType(data_type) => {
                proof {
                    assert(self.spec_element() == data_type.spec_element());
                }
                data_type.element()
            },
            AutosarDataType::ApplicationArrayDataType(data_type) => {
                proof {
                    assert(self.spec_element() == data_type.spec_element());
                }
                data_type.element()
            },
            AutosarDataType::ApplicationRecordDataType(data_type) => {
                proof {
                    assert(self.spec_element() == data_type.spec_element());
                }
                data_type.element()
            },
            AutosarDataType::ImplementationDataType(data_type) => {
                proof {
                    assert(self.spec_element() == data_type.spec_element());
                }
                data_type.element()
            },
        }
    }
}

/// the element names of the elements that an [`AutosarDataType`] can wrap
pub open spec fn is_autosar_data_type_name(name: Seq<char>) -> bool {
    ||| name == "APPLICATION-PRIMITIVE-DATA-TYPE"@
    ||| name == "APPLICATION-ARRAY-DATA-TYPE"@
    ||| name == "APPLICATION-RECORD-DATA-TYPE"@
    ||| name == "IMPLEMENTATION-DATA-TYPE"@
}

impl AutosarDataType {
    /// wrap an element of the model that is one of the data types
    pub fn from_element(element: Element) -> (r: Result<Self, AutosarAbstractionError>)
        ensures
            r is Ok <==> is_autosar_data_type_name(spec_element_name(element)),
            r matches Ok(x) ==> x.spec_element() == element,
            r matches Err(e) ==> is_conversion_error(e, element, "AutosarDataType"@),
    {
        if has_element_name(&element, "APPLICATION-PRIMITIVE-DATA-TYPE") {
            Ok(AutosarDataType::ApplicationPrimitiveDataType(ApplicationPrimitiveDataType::from_element(element)?))
        } else if has_element_name(&element, "APPLICATION-ARRAY-DATA-TYPE") {
            Ok(AutosarDataType::ApplicationArrayDataType(ApplicationArrayDataType::from_element(element)?))
        } else if has_element_name(&element, "APPLICATION-RECORD-DATA-TYPE") {
            Ok(AutosarDataType::ApplicationRecordDataType(ApplicationRecordDataType::from_element(element)?))
        } else if has_element_name(&element, "IMPLEMENTATION-DATA-TYPE") {
            Ok(AutosarDataType::ImplementationDataType(ImplementationDataType::from_element(element)?))
        } else {
            Err(AutosarAbstractionError::ConversionError { element, dest: "AutosarDataType".to_owned() })
        }
    }
}

impl TryFrom<Element> for AutosarDataType {
    type Error = AutosarAbstractionError;

    fn try_from(element: Element) -> (r: Result<Self, Self::Error>)
        ensures
            r is Ok <==> is_autosar_data_type_name(spec_element_name(element)),
            r matches Ok(x) ==> x.spec_element() == element,
            r matches Err(e) ==> is_conversion_error(e, element, "AutosarDataType"@),
    {
        AutosarDataType::from_element(element)
    }
}

impl TryFromSpecImpl<Element> for AutosarDataType {
    open spec fn obeys_try_from_spec() -> bool {
        false
    }

    open spec fn try_from_spec(v: Element) -> Result<Self, AutosarAbstractionError> {
        arbitrary()
    }
}

impl IdentifiableAbstractionElement for AutosarDataType {}

//#########################################################
/// `Unit` represents a unit of measurement.
#[derive(Debug, Clone, PartialEq, Eq, Hash)]
pub struct Unit(Element);

impl AbstractionElement for Unit {
    closed spec fn spec_element(&self) -> Element {
        self.0
    }

    fn element(&self) -> (r: &Element) {
        proof {
            assert(self.spec_element() == self.0);
        }
        &self.0
    }
}

impl Unit {
    /// wrap an element of the model whose element name is `UNIT`
    pub fn from_element(element: Element) -> (r: Result<Self, AutosarAbstractionError>)
        ensures
            r is Ok <==> spec_element_name(element) == "UNIT"@,
            r matches Ok(x) ==> x.spec_element() == element,
            r matches Err(e) ==> is_conversion_error(e, element, "Unit"@),
    {
        if has_element_name(&element, "UNIT") {
            Ok(Unit(element))
        } else {
            Err(AutosarAbstractionError::ConversionError { element, dest: "Unit".to_owned() })
        }
    }
}

impl TryFrom<Element> for Unit {
    type Error = AutosarAbstractionError;

    fn try_from(element: Element) -> (r: Result<Self, Self::Error>)
        ensures
            r is Ok <==> spec_element_name(element) == "UNIT"@,
            r matches Ok(x) ==> x.spec_element() == element,
            r matches Err(e) ==> is_conversion_error(e, element, "Unit"@),
    {
        Unit::from_element(element)
    }
}

impl TryFromSpecImpl<Element> for Unit {
    open spec fn obeys_try_from_spec() -> bool {
        false
    }

    open spec fn try_from_spec(v: Element) -> Result<Self, AutosarAbstractionError> {
        arbitrary()
    }
}

impl From<Unit> for Element {
    fn from(value: Unit) -> (r: Element)
        ensures
            r == value.spec_element(),
    {
        value.0
    }
}

impl FromSpecImpl<Unit> for Element {
    open spec fn obeys_from_spec() -> bool {
        false
    }

    open spec fn from_spec(v: Unit) -> Element {
        arbitrary()
    }
}

impl IdentifiableAbstractionElement for Unit {}

impl Unit {
    /// Create a new unit in the given package
    pub fn new(name: &str, package: &ArPackage, display_name: Option<&str>) -> (r: Result<Self, AutosarAbstractionError>)
        ensures
            r matches Err(e) ==> e is ModelError || e is InvalidParameter,
    {
        let elements = get_or_create_sub_element(package.element(), "ELEMENTS")?;
        let unit = create_named_sub_element(&elements, "UNIT", name)?;

        if let Some(display_name) = display_name {
            let display_name_elem = create_sub_element(&unit, "DISPLAY-NAME")?;
            set_character_data_text(&display_name_elem, display_name)?;
        }

        Ok(Unit(unit))
    }
}

//#########################################################

/// `DataConstr` represents a data constraint.
#[derive(Debug, Clone, PartialEq, Eq, Hash)]
pub struct DataConstr(Element);

impl AbstractionElement for DataConstr {
    closed spec fn spec_element(&self) -> Element {
        self.0
    }

    fn element(&self) -> (r: &Element) {
        proof {
            assert(self.spec_element() == self.0);
        }
        &self.0
    }
}

impl DataConstr {
    /// another handle of the same element
    pub(crate) fn copy_handle(&self) -> (r: Self)
        ensures
            r == *self,
    {
        DataConstr(self.0.clone())
    }

    /// wrap an element of the model whose element name is `DATA-CONSTR`
    pub fn from_element(element: Element) -> (r: Result<Self, AutosarAbstractionError>)
        ensures
            r is Ok <==> spec_element_name(element) == "DATA-CONSTR"@,
            r matches Ok(x) ==> x.spec_element() == element,
            r matches Err(e) ==> is_conversion_error(e, element, "DataConstr"@),
    {
        if has_element_name(&element, "DATA-CONSTR") {
            Ok(DataConstr(element))
        } else {
            Err(AutosarAbstractionError::ConversionError { element, dest: "DataConstr".to_owned() })
        }
    }
}

impl TryFrom<Element> for DataConstr {
    type Error = AutosarAbstractionError;

    fn try_from(element: Element) -> (r: Result<Self, Self::Error>)
        ensures
            r is Ok <==> spec_element_name(element) == "DATA-CONSTR"@,
            r matches Ok(x) ==> x.spec_element() == element,
            r matches Err(e) ==> is_conversion_error(e, element, "DataConstr"@),
    {
        DataConstr::from_element(element)
    }
}

impl TryFromSpecImpl<Element> for DataConstr {
    open spec fn obeys_try_from_spec() -> bool {
        false
    }

    open spec fn try_from_spec(v: Element) -> Result<Self, AutosarAbstractionError> {
        arbitrary()
    }
}

impl From<DataConstr> for Element {
    fn from(value: DataConstr) -> (r: Element)
        ensures
            r == value.spec_element(),
    {
        value.0
    }
}

impl FromSpecImpl<DataConstr> for Element {
    open spec fn obeys_from_spec() -> bool {
        false
    }

    open spec fn from_spec(v: DataConstr) -> Element {
        arbitrary()
    }
}

impl IdentifiableAbstractionElement for DataConstr {}

impl DataConstr {
    /// Create a new data constraint in the given package
    pub fn new(name: &str, package: &ArPackage) -> (r: Result<Self, AutosarAbstractionError>)
        ensures
            r matches Err(e) ==> e is ModelError || e is InvalidParameter,
    {
        let elements = get_or_create_sub_element(package.element(), "ELEMENTS")?;
        let data_constr = create_named_sub_element(&elements, "DATA-CONSTR", name)?;

        Ok(DataConstr(data_constr))
    }

    /// Create a new data constraint rule of the given type, with its element for the limits
    ///
    /// The limits are floating point values; they are set on [`DataConstrRule::constraints`]
    /// outside this library.
    pub fn create_data_constr_rule_element(&self, rule_type: DataConstrType) -> (r: Result<
        (DataConstrRule, Element),
        AutosarAbstractionError,
    >)
        ensures
            r matches Ok((rule, constrs)) ==> spec_element_name(rule.spec_element()) == "DATA-CONSTR-RULE"@
                && spec_element_name(constrs) == rule_type.spec_constraints_name(),
            r matches Err(e) ==> e is ModelError || e is InvalidParameter,
    {
        let rules = get_or_create_sub_element(self.element(), "DATA-CONSTR-RULES")?;
        let rule = create_sub_element(&rules, "DATA-CONSTR-RULE")?;
        let constrs = create_sub_element(&rule, rule_type.constraints_name())?;
        Ok((DataConstrRule(rule), constrs))
    }

    /// Get all data constraint rules
    pub fn data_constr_rules(&self) -> (r: Vec<DataConstrRule>)
        ensures
            forall|i: int| 0 <= i < r.len() ==> spec_element_name(#[trigger] r@[i].spec_element()) == "DATA-CONSTR-RULE"@,
    {
        let mut result: Vec<DataConstrRule> = Vec::new();
        if let Some(rules) = get_sub_element(self.element(), "DATA-CONSTR-RULES") {
            let items = sub_elements(&rules);
            for i in 0..items.len()
                invariant
                    forall|j: int| 0 <= j < result.len() ==> spec_element_name(#[trigger] result@[j].spec_element()) == "DATA-CONSTR-RULE"@,
            {
                if let Ok(rule) = DataConstrRule::from_element(items[i].clone()) {
                    result.push(rule);
                }
            }
        }
        result
    }
}

//#########################################################

/// `DataConstrRule` represents a data constraint rule.
#[derive(Debug, Clone, PartialEq, Eq, Hash)]
pub struct DataConstrRule(Element);

impl AbstractionElement for DataConstrRule {
    closed spec fn spec_element(&self) -> Element {
        self.0
    }

    fn element(&self) -> (r: &Element) {
        proof {
            assert(self.spec_element() == self.0);
        }
        &self.0
    }
}

impl DataConstrRule {
    /// wrap an element of the model whose element name is `DATA-CONSTR-RULE`
    pub fn from_element(element: Element) -> (r: Result<Self, AutosarAbstractionError>)
        ensures
            r is Ok <==> spec_element_name(element) == "DATA-CONSTR-RULE"@,
            r matches Ok(x) ==> x.spec_element() == element,
            r matches Err(e) ==> is_conversion_error(e, element, "DataConstrRule"@),
    {
        if has_element_name(&element, "DATA-CONSTR-RULE") {
            Ok(DataConstrRule(element))
        } else {
            Err(AutosarAbstractionError::ConversionError { element, dest: "DataConstrRule".to_owned() })
        }
    }
}

impl TryFrom<Element> for DataConstrRule {
    type Error = AutosarAbstractionError;

    fn try_from(element: Element) -> (r: Result<Self, Self::Error>)
        ensures
            r is Ok <==> spec_element_name(element) == "DATA-CONSTR-RULE"@,
            r matches Ok(x) ==> x.spec_element() == element,
            r matches Err(e) ==> is_conversion_error(e, element, "DataConstrRule"@),
    {
        DataConstrRule::from_element(element)
    }
}

impl TryFromSpecImpl<Element> for DataConstrRule {
    open spec fn obeys_try_from_spec() -> bool {
        false
    }

    open spec fn try_from_spec(v: Element) -> Result<Self, AutosarAbstractionError> {
        arbitrary()
    }
}

impl From<DataConstrRule> for Element {
    fn from(value: DataConstrRule) -> (r: Element)
        ensures
            r == value.spec_element(),
    {
        value.0
    }
}

impl FromSpecImpl<DataConstrRule> for Element {
    open spec fn obeys_from_spec() -> bool {
        false
    }

    open spec fn from_spec(v: DataConstrRule) -> Element {
        arbitrary()
    }
}

impl DataConstrRule {
    /// get the constraint type
    pub fn rule_type(&self) -> DataConstrType {
        if get_sub_element(self.element(), "INTERNAL-CONSTRS").is_some() {
            DataConstrType::Internal
        } else {
            DataConstrType::Physical
        }
    }

    /// the element that holds the limits of the rule: INTERNAL-CONSTRS, or else PHYS-CONSTRS
    ///
    /// The limits themselves are floating point values; they are read and written outside this library.
    pub fn constraints(&self) -> (r: Option<Element>)
        ensures
            r matches Some(c) ==> spec_element_name(c) == "INTERNAL-CONSTRS"@ || spec_element_name(c)
                == "PHYS-CONSTRS"@,
    {
        match get_sub_element(self.element(), "INTERNAL-CONSTRS") {
            Some(constrs) => Some(constrs),
            None => get_sub_element(self.element(), "PHYS-CONSTRS"),
        }
    }
}

impl DataConstrType {
    /// the name of the element that holds the limits of a rule of this type
    pub open spec fn spec_constraints_name(self) -> Seq<char> {
        match self {
            DataConstrType::Internal => "INTERNAL-CONSTRS"@,
            DataConstrType::Physical => "PHYS-CONSTRS"@,
        }
    }

    /// the name of the element that holds the limits of a rule of this type
    pub fn constraints_name(&self) -> (r: &'static str)
        ensures
            r@ == self.spec_constraints_name(),
    {
        match self {
            DataConstrType::Internal => "INTERNAL-CONSTRS",
            DataConstrType::Physical => "PHYS-CONSTRS",
        }
    }
}

//#########################################################

/// The type of a data constraint rule
#[derive(Debug, Clone, Copy, PartialEq, Eq, Hash)]
pub enum DataConstrType {
    /// Internal value data constraint
    Internal,
    /// Physical value data constraint
    Physical,
}

//#########################################################

/// `SwBaseType` is a base type of the platform, referenced by implementation data types.
#[derive(Debug, Clone, PartialEq, Eq, Hash)]
pub struct SwBaseType(Element);

impl AbstractionElement for SwBaseType {
    closed spec fn spec_element(&self) -> Element {
        self.0
    }

    fn element(&self) -> (r: &Element) {
        proof {
            assert(self.spec_element() == self.0);
        }
        &self.0
    }
}

impl SwBaseType {
    /// another handle of the same element
    pub(crate) fn copy_handle(&self) -> (r: Self)
        ensures
            r == *self,
    {
        SwBaseType(self.0.clone())
    }

    /// wrap an element of the model whose element name is `SW-BASE-TYPE`
    pub fn from_element(element: Element) -> (r: Result<Self, AutosarAbstractionError>)
        ensures
            r is Ok <==> spec_element_name(element) == "SW-BASE-TYPE"@,
            r matches Ok(x) ==> x.spec_element() == element,
            r matches Err(e) ==> is_conversion_error(e, element, "SwBaseType"@),
    {
        if has_element_name(&element, "SW-BASE-TYPE") {
            Ok(SwBaseType(element))
        } else {
            Err(AutosarAbstractionError::ConversionError { element, dest: "SwBaseType".to_owned() })
        }
    }
}

impl TryFrom<Element> for SwBaseType {
    type Error = AutosarAbstractionError;

    fn try_from(element: Element) -> (r: Result<Self, Self::Error>)
        ensures
            r is Ok <==> spec_element_name(element) == "SW-BASE-TYPE"@,
            r matches Ok(x) ==> x.spec_element() == element,
            r matches Err(e) ==> is_conversion_error(e, element, "SwBaseType"@),
    {
        SwBaseType::from_element(element)
    }
}

impl TryFromSpecImpl<Element> for SwBaseType {
    open spec fn obeys_try_from_spec() -> bool {
        false
    }

    open spec fn try_from_spec(v: Element) -> Result<Self, AutosarAbstractionError> {
        arbitrary()
    }
}

impl From<SwBaseType> for Element {
    fn from(value: SwBaseType) -> (r: Element)
        ensures
            r == value.spec_element(),
    {
        value.0
    }
}

impl FromSpecImpl<SwBaseType> for Element {
    open spec fn obeys_from_spec() -> bool {
        false
    }

    open spec fn from_spec(v: SwBaseType) -> Element {
        arbitrary()
    }
}

impl IdentifiableAbstractionElement for SwBaseType {}

//#########################################################

/// `CompuMethod` describes the conversion between internal and physical values.
#[derive(Debug, Clone, PartialEq, Eq, Hash)]
pub struct CompuMethod(Element);

impl AbstractionElement for CompuMethod {
    closed spec fn spec_element(&self) -> Element {
        self.0
    }

    fn element(&self) -> (r: &Element) {
        proof {
            assert(self.spec_element() == self.0);
        }
        &self.0
    }
}

impl CompuMethod {
    /// another handle of the same element
    pub(crate) fn copy_handle(&self) -> (r: Self)
        ensures
            r == *self,
    {
        CompuMethod(self.0.clone())
    }

    /// wrap an element of the model whose element name is `COMPU-METHOD`
    pub fn from_element(element: Element) -> (r: Result<Self, AutosarAbstractionError>)
        ensures
            r is Ok <==> spec_element_name(element) == "COMPU-METHOD"@,
            r matches Ok(x) ==> x.spec_element() == element,
            r matches Err(e) ==> is_conversion_error(e, element, "CompuMethod"@),
    {
        if has_element_name(&element, "COMPU-METHOD") {
            Ok(CompuMethod(element))
        } else {
            Err(AutosarAbstractionError::ConversionError { element, dest: "CompuMethod".to_owned() })
        }
    }
}

impl TryFrom<Element> for CompuMethod {
    type Error = AutosarAbstractionError;

    fn try_from(element: Element) -> (r: Result<Self, Self::Error>)
        ensures
            r is Ok <==> spec_element_name(element) == "COMPU-METHOD"@,
            r matches Ok(x) ==> x.spec_element() == element,
            r matches Err(e) ==> is_conversion_error(e, element, "CompuMethod"@),
    {
        CompuMethod::from_element(element)
    }
}

impl TryFromSpecImpl<Element> for CompuMethod {
    open spec fn obeys_try_from_spec() -> bool {
        false
    }

    open spec fn try_from_spec(v: Element) -> Result<Self, AutosarAbstractionError> {
        arbitrary()
    }
}

impl From<CompuMethod> for Element {
    fn from(value: CompuMethod) -> (r: Element)
        ensures
            r == value.spec_element(),
    {
        value.0
    }
}

impl FromSpecImpl<CompuMethod> for Element {
    open spec fn obeys_from_spec() -> bool {
        false
    }

    open spec fn from_spec(v: CompuMethod) -> Element {
        arbitrary()
    }
}

impl IdentifiableAbstractionElement for CompuMethod {}

} // verus!
