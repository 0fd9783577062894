//! Values of the ECU configuration: module configurations, containers and reference values,
//! each of them tied to its definition.

use vstd::prelude::*;
use crate::elements::is_model_or_name_error;
use autosar_data::Element;
use vstd::std_specs::convert::{FromSpecImpl, TryFromSpecImpl};
use crate::{
    AbstractionElement, ArPackage, AutosarAbstractionError, IdentifiableAbstractionElement, System, has_element_name,
    is_conversion_error,
};
use crate::ecu_configuration::{
    AbstractEcucContainerDef, AbstractEcucReferenceDef, EcucAnyReferenceDef, EcucContainerDef,
    EcucInstanceReferenceDef, EcucModuleDef,
};
use crate::accessors::{set_optional_bool, set_optional_u64, set_sub_element_target, sub_element_bool, sub_element_target};
use crate::elements::{
    create_named_sub_element, create_sub_element, get_or_create_sub_element, get_reference_target, get_sub_element,
    remove_sub_element_kind, set_character_data_u64, set_reference_target, spec_element_name, sub_elements,
};
use crate::values::{parse_u64, sub_element_cdata, sub_element_string};

verus! {

/// the unsigned integer content of the INDEX sub element
fn index_of(element: &Element) -> Option<u64> {
    parse_u64(&sub_element_cdata(element, "INDEX")?)
}

//#########################################################

/// `EcucValueCollection` collects references to all the separate modules that form the ECU configuration
#[derive(Debug, Clone, PartialEq, Eq, Hash)]
pub struct EcucValueCollection(Element);

impl AbstractionElement for EcucValueCollection {
    closed spec fn spec_element(&self) -> Element {
        self.0
    }

    fn element(&self) -> (r: &Element) {
        proof {
            assert(self.spec_element() == self.0);
        }
        &self.0
    }
}

impl EcucValueCollection {
    /// wrap an element of the model whose element name is `ECUC-VALUE-COLLECTION`
    pub fn from_element(element: Element) -> (r: Result<Self, AutosarAbstractionError>)
        ensures
            r is Ok <==> spec_element_name(element) == "ECUC-VALUE-COLLECTION"@,
            r matches Ok(x) ==> x.spec_element() == element,
            r matches Err(e) ==> is_conversion_error(e, element, "EcucValueCollection"@),
    {
        if has_element_name(&element, "ECUC-VALUE-COLLECTION") {
            Ok(EcucValueCollection(element))
        } else {
            Err(AutosarAbstractionError::ConversionError { element, dest: "EcucValueCollection".to_owned() })
        }
    }
}

impl TryFrom<Element> for EcucValueCollection {
    type Error = AutosarAbstractionError;

    fn try_from(element: Element) -> (r: Result<Self, Self::Error>)
        ensures
            r is Ok <==> spec_element_name(element) == "ECUC-VALUE-COLLECTION"@,
            r matches Ok(x) ==> x.spec_element() == element,
            r matches Err(e) ==> is_conversion_error(e, element, "EcucValueCollection"@),
    {
        EcucValueCollection::from_element(element)
    }
}

impl TryFromSpecImpl<Element> for EcucValueCollection {
    open spec fn obeys_try_from_spec() -> bool {
        false
    }

    open spec fn try_from_spec(v: Element) -> Result<Self, AutosarAbstractionError> {
        arbitrary()
    }
}

impl From<EcucValueCollection> for Element {
    fn from(value: EcucValueCollection) -> (r: Element)
        ensures
            r == value.spec_element(),
    {
        value.0
    }
}

impl FromSpecImpl<EcucValueCollection> for Element {
    open spec fn obeys_from_spec() -> bool {
        false
    }

    open spec fn from_spec(v: EcucValueCollection) -> Element {
        arbitrary()
    }
}

impl IdentifiableAbstractionElement for EcucValueCollection {}

impl EcucValueCollection {
    /// create a new `EcucValueCollection` in the package
    pub fn new(name: &str, package: &ArPackage) -> (r: Result<Self, AutosarAbstractionError>)
        ensures
            r matches Ok(x) ==> spec_element_name(x.spec_element()) == "ECUC-VALUE-COLLECTION"@,
            r matches Err(e) ==> e is ModelError || e is InvalidParameter,
    {
        let elements = get_or_create_sub_element(package.element(), "ELEMENTS")?;
        let elem = create_named_sub_element(&elements, "ECUC-VALUE-COLLECTION", name)?;
        Ok(Self(elem))
    }

    /// Add a reference to a module configuration to the collection
    pub fn add_module_configuration(&self, module_configuration: &EcucModuleConfigurationValues) -> (r: Result<
        (),
        AutosarAbstractionError,
    >)
        ensures
            r matches Err(e) ==> e is ModelError || e is InvalidParameter,
    {
        let ecuc_values_elem = get_or_create_sub_element(self.element(), "ECUC-VALUES")?;
        let conditional = create_sub_element(&ecuc_values_elem, "ECUC-MODULE-CONFIGURATION-VALUES-REF-CONDITIONAL")?;
        let value_ref = create_sub_element(&conditional, "ECUC-MODULE-CONFIGURATION-VALUES-REF")?;
        set_reference_target(&value_ref, module_configuration.element())
    }

    /// the module configurations in the collection
    pub fn module_configurations(&self) -> (r: Vec<EcucModuleConfigurationValues>)
        ensures
            forall|i: int| 0 <= i < r.len() ==> spec_element_name(#[trigger] r@[i].spec_element()) == "ECUC-MODULE-CONFIGURATION-VALUES"@,
    {
        let mut result: Vec<EcucModuleConfigurationValues> = Vec::new();
        if let Some(values_elem) = get_sub_element(self.element(), "ECUC-VALUES") {
            let subs = sub_elements(&values_elem);
            for i in 0..subs.len()
                invariant
                    forall|j: int| 0 <= j < result.len() ==> spec_element_name(#[trigger] result@[j].spec_element()) == "ECUC-MODULE-CONFIGURATION-VALUES"@,
            {
                if let Some(module_elem) = sub_element_target(&subs[i], "ECUC-MODULE-CONFIGURATION-VALUES-REF") {
                    if let Ok(module_config) = EcucModuleConfigurationValues::from_element(module_elem) {
                        result.push(module_config);
                    }
                }
            }
        }
        result
    }

    /// Set the ecu extract reference, which links a `System` to the ECU configuration
    pub fn set_ecu_extract_reference(&self, system: &System) -> (r: Result<(), AutosarAbstractionError>)
        ensures
            r matches Err(e) ==> is_model_or_name_error(e, "ECU-EXTRACT-REF"@),
    {
        let extract_ref = create_sub_element(self.element(), "ECU-EXTRACT-REF")?;
        set_reference_target(&extract_ref, system.element())
    }

    /// Get the system that the ECU configuration is linked to
    pub fn ecu_extract_reference(&self) -> (r: Option<System>)
        ensures
            r matches Some(x) ==> spec_element_name(x.spec_element()) == "SYSTEM"@,
    {
        match System::from_element(sub_element_target(self.element(), "ECU-EXTRACT-REF")?) {
            Ok(system) => Some(system),
            Err(_) => None,
        }
    }
}

//#########################################################

/// The `EcucModuleConfigurationValues` is a container for the configuration of a single base software module
#[derive(Debug, Clone, PartialEq, Eq, Hash)]
pub struct EcucModuleConfigurationValues(Element);

impl AbstractionElement for EcucModuleConfigurationValues {
    closed spec fn spec_element(&self) -> Element {
        self.0
    }

    fn element(&self) -> (r: &Element) {
        proof {
            assert(self.spec_element() == self.0);
        }
        &self.0
    }
}

impl EcucModuleConfigurationValues {
    /// wrap an element of the model whose element name is `ECUC-MODULE-CONFIGURATION-VALUES`
    pub fn from_element(element: Element) -> (r: Result<Self, AutosarAbstractionError>)
        ensures
            r is Ok <==> spec_element_name(element) == "ECUC-MODULE-CONFIGURATION-VALUES"@,
            r matches Ok(x) ==> x.spec_element() == element,
            r matches Err(e) ==> is_conversion_error(e, element, "EcucModuleConfigurationValues"@),
    {
        if has_element_name(&element, "ECUC-MODULE-CONFIGURATION-VALUES") {
            Ok(EcucModuleConfigurationValues(element))
        } else {
            Err(AutosarAbstractionError::ConversionError { element, dest: "EcucModuleConfigurationValues".to_owned() })
        }
    }
}

impl TryFrom<Element> for EcucModuleConfigurationValues {
    type Error = AutosarAbstractionError;

    fn try_from(element: Element) -> (r: Result<Self, Self::Error>)
        ensures
            r is Ok <==> spec_element_name(element) == "ECUC-MODULE-CONFIGURATION-VALUES"@,
            r matches Ok(x) ==> x.spec_element() == element,
            r matches Err(e) ==> is_conversion_error(e, element, "EcucModuleConfigurationValues"@),
    {
        EcucModuleConfigurationValues::from_element(element)
    }
}

impl TryFromSpecImpl<Element> for EcucModuleConfigurationValues {
    open spec fn obeys_try_from_spec() -> bool {
        false
    }

    open spec fn try_from_spec(v: Element) -> Result<Self, AutosarAbstractionError> {
        arbitrary()
    }
}

impl From<EcucModuleConfigurationValues> for Element {
    fn from(value: EcucModuleConfigurationValues) -> (r: Element)
        ensures
            r == value.spec_element(),
    {
        value.0
    }
}

impl FromSpecImpl<EcucModuleConfigurationValues> for Element {
    open spec fn obeys_from_spec() -> bool {
        false
    }

    open spec fn from_spec(v: EcucModuleConfigurationValues) -> Element {
        arbitrary()
    }
}

impl IdentifiableAbstractionElement for EcucModuleConfigurationValues {}

impl EcucModuleConfigurationValues {
    /// create a new `EcucModuleConfigurationValues` in the package, for the module definition
    pub fn new(name: &str, package: &ArPackage, module_definition: &EcucModuleDef) -> (r: Result<
        Self,
        AutosarAbstractionError,
    >)
        ensures
            r matches Ok(x) ==> spec_element_name(x.spec_element()) == "ECUC-MODULE-CONFIGURATION-VALUES"@,
            r matches Err(e) ==> e is ModelError || e is InvalidParameter,
    {
        let elements = get_or_create_sub_element(package.element(), "ELEMENTS")?;
        let elem = create_named_sub_element(&elements, "ECUC-MODULE-CONFIGURATION-VALUES", name)?;
        let module_config = Self(elem);
        module_config.set_definition(module_definition)?;
        Ok(module_config)
    }

    /// set the module definition reference
    pub fn set_definition(&self, module_definition: &EcucModuleDef) -> (r: Result<(), AutosarAbstractionError>)
        ensures
            r matches Err(e) ==> is_model_or_name_error(e, "DEFINITION-REF"@),
    {
        set_sub_element_target(self.element(), "DEFINITION-REF", module_definition.element())
    }

    /// get the module definition
    ///
    /// If the definition is not loaded, use `definition_ref()` instead.
    pub fn definition(&self) -> (r: Option<EcucModuleDef>)
        ensures
            r matches Some(x) ==> spec_element_name(x.spec_element()) == "ECUC-MODULE-DEF"@,
    {
        match EcucModuleDef::from_element(sub_element_target(self.element(), "DEFINITION-REF")?) {
            Ok(def) => Some(def),
            Err(_) => None,
        }
    }

    /// get the definition reference as a string
    ///
    /// This is useful when the referenced definition is not loaded and can't be resolved.
    pub fn definition_ref(&self) -> Option<String> {
        sub_element_string(self.element(), "DEFINITION-REF")
    }

    /// Create a new `EcucContainerValue` in the module configuration
    pub fn create_container_value<T: AbstractEcucContainerDef>(&self, name: &str, definition: &T) -> (r: Result<
        EcucContainerValue,
        AutosarAbstractionError,
    >)
        ensures
            r matches Err(e) ==> e is ModelError || e is InvalidParameter,
    {
        let containers_elem = get_or_create_sub_element(self.element(), "CONTAINERS")?;
        EcucContainerValue::new(name, &containers_elem, definition)
    }

    /// the container values in the module configuration
    pub fn container_values(&self) -> (r: Vec<EcucContainerValue>)
        ensures
            forall|i: int| 0 <= i < r.len() ==> spec_element_name(#[trigger] r@[i].spec_element()) == "ECUC-CONTAINER-VALUE"@,
    {
        container_values_in(self.element(), "CONTAINERS")
    }
}

/// the container values in the sub element with the given name
fn container_values_in(element: &Element, name: &str) -> (r: Vec<EcucContainerValue>)
    ensures
        forall|i: int| 0 <= i < r.len() ==> spec_element_name(#[trigger] r@[i].spec_element()) == "ECUC-CONTAINER-VALUE"@,
{
    let mut result: Vec<EcucContainerValue> = Vec::new();
    if let Some(containers) = get_sub_element(element, name) {
        let subs = sub_elements(&containers);
        for i in 0..subs.len()
            invariant
                forall|j: int| 0 <= j < result.len() ==> spec_element_name(#[trigger] result@[j].spec_element()) == "ECUC-CONTAINER-VALUE"@,
        {
            if let Ok(container) = EcucContainerValue::from_element(subs[i].clone()) {
                result.push(container);
            }
        }
    }
    result
}

//#########################################################

/// The `EcucContainerValue` is a container in the ECU configuration
#[derive(Debug, Clone, PartialEq, Eq, Hash)]
pub struct EcucContainerValue(Element);

impl AbstractionElement for EcucContainerValue {
    closed spec fn spec_element(&self) -> Element {
        self.0
    }

    fn element(&self) -> (r: &Element) {
        proof {
            assert(self.spec_element() == self.0);
        }
        &self.0
    }
}

impl EcucContainerValue {
    /// wrap an element of the model whose element name is `ECUC-CONTAINER-VALUE`
    pub fn from_element(element: Element) -> (r: Result<Self, AutosarAbstractionError>)
        ensures
            r is Ok <==> spec_element_name(element) == "ECUC-CONTAINER-VALUE"@,
            r matches Ok(x) ==> x.spec_element() == element,
            r matches Err(e) ==> is_conversion_error(e, element, "EcucContainerValue"@),
    {
        if has_element_name(&element, "ECUC-CONTAINER-VALUE") {
            Ok(EcucContainerValue(element))
        } else {
            Err(AutosarAbstractionError::ConversionError { element, dest: "EcucContainerValue".to_owned() })
        }
    }
}

impl TryFrom<Element> for EcucContainerValue {
    type Error = AutosarAbstractionError;

    fn try_from(element: Element) -> (r: Result<Self, Self::Error>)
        ensures
            r is Ok <==> spec_element_name(element) == "ECUC-CONTAINER-VALUE"@,
            r matches Ok(x) ==> x.spec_element() == element,
            r matches Err(e) ==> is_conversion_error(e, element, "EcucContainerValue"@),
    {
        EcucContainerValue::from_element(element)
    }
}

impl TryFromSpecImpl<Element> for EcucContainerValue {
    open spec fn obeys_try_from_spec() -> bool {
        false
    }

    open spec fn try_from_spec(v: Element) -> Result<Self, AutosarAbstractionError> {
        arbitrary()
    }
}

impl From<EcucContainerValue> for Element {
    fn from(value: EcucContainerValue) -> (r: Element)
        ensures
            r == value.spec_element(),
    {
        value.0
    }
}

impl FromSpecImpl<EcucContainerValue> for Element {
    open spec fn obeys_from_spec() -> bool {
        false
    }

    open spec fn from_spec(v: EcucContainerValue) -> Element {
        arbitrary()
    }
}

impl IdentifiableAbstractionElement for EcucContainerValue {}

impl EcucContainerValue {
    /// create a new `EcucContainerValue` in a CONTAINERS or SUB-CONTAINERS element
    pub fn new<T: AbstractEcucContainerDef>(name: &str, parent: &Element, definition: &T) -> (r: Result<
        Self,
        AutosarAbstractionError,
    >)
        ensures
            r matches Ok(x) ==> spec_element_name(x.spec_element()) == "ECUC-CONTAINER-VALUE"@,
            r matches Err(e) ==> e is ModelError || e is InvalidParameter,
    {
        let elem = create_named_sub_element(parent, "ECUC-CONTAINER-VALUE", name)?;
        let container_value = Self(elem);
        container_value.set_definition(definition)?;
        Ok(container_value)
    }

    /// set the container definition reference
    pub fn set_definition<T: AbstractEcucContainerDef>(&self, definition: &T) -> (r: Result<(), AutosarAbstractionError>)
        ensures
            r matches Err(e) ==> e is ModelError || e is InvalidParameter,
    {
        set_sub_element_target(self.element(), "DEFINITION-REF", definition.element())
    }

    /// get the container definition
    ///
    /// If the definition is not loaded, use `definition_ref()` instead.
    pub fn definition(&self) -> (r: Option<EcucContainerDef>)
        ensures
            r matches Some(x) ==> EcucContainerDef::spec_is_wrapped_name(spec_element_name(x.spec_element())),
    {
        match EcucContainerDef::from_element(sub_element_target(self.element(), "DEFINITION-REF")?) {
            Ok(def) => Some(def),
            Err(_) => None,
        }
    }

    /// get the definition reference as a string
    ///
    /// This is useful when the referenced definition is not loaded and can't be resolved.
    pub fn definition_ref(&self) -> Option<String> {
        sub_element_string(self.element(), "DEFINITION-REF")
    }

    /// create a sub-container
    pub fn create_sub_container<T: AbstractEcucContainerDef>(&self, name: &str, definition: &T) -> (r: Result<
        EcucContainerValue,
        AutosarAbstractionError,
    >)
        ensures
            r matches Err(e) ==> e is ModelError || e is InvalidParameter,
    {
        let sub_containers_elem = get_or_create_sub_element(self.element(), "SUB-CONTAINERS")?;
        EcucContainerValue::new(name, &sub_containers_elem, definition)
    }

    /// the sub-containers in this container
    pub fn sub_containers(&self) -> (r: Vec<EcucContainerValue>)
        ensures
            forall|i: int| 0 <= i < r.len() ==> spec_element_name(#[trigger] r@[i].spec_element()) == "ECUC-CONTAINER-VALUE"@,
    {
        container_values_in(self.element(), "SUB-CONTAINERS")
    }

    /// set the index of the container
    ///
    /// If the container definition has `requiresIndex` set to `true`, then the container
    /// must have an index. Otherwise the index is meaningless.
    /// Removing an index that is not there is reported as an error of the model.
    pub fn set_index(&self, index: Option<u64>) -> (r: Result<(), AutosarAbstractionError>)
        ensures
            r matches Err(e) ==> is_model_or_name_error(e, "INDEX"@),
    {
        match index {
            Some(v) => set_character_data_u64(&get_or_create_sub_element(self.element(), "INDEX")?, v),
            None => remove_sub_element_kind(self.element(), "INDEX"),
        }
    }

    /// get the index of the container
    pub fn index(&self) -> Option<u64> {
        index_of(self.element())
    }

    /// create a new instance reference value in the container
    pub fn create_instance_reference(
        &self,
        definition: &EcucInstanceReferenceDef,
        target_context: &[&Element],
        target: &Element,
    ) -> (r: Result<EcucInstanceReferenceValue, AutosarAbstractionError>)
        ensures
            r matches Err(e) ==> e is ModelError || e is InvalidParameter,
    {
        let reference_values_elem = get_or_create_sub_element(self.element(), "REFERENCE-VALUES")?;
        EcucInstanceReferenceValue::new(&reference_values_elem, definition, target_context, target)
    }

    /// create a new reference value in the container
    pub fn create_reference_value<T: AbstractEcucReferenceDef>(&self, definition: &T, target: &Element) -> (r: Result<
        EcucReferenceValue,
        AutosarAbstractionError,
    >)
        ensures
            r matches Err(e) ==> e is ModelError || e is InvalidParameter,
    {
        let reference_values_elem = get_or_create_sub_element(self.element(), "REFERENCE-VALUES")?;
        EcucReferenceValue::new(&reference_values_elem, definition, target)
    }

    /// the reference values in the container
    pub fn reference_values(&self) -> (r: Vec<EcucAnyReferenceValue>)
        ensures
            forall|i: int| 0 <= i < r.len() ==> EcucAnyReferenceValue::spec_is_wrapped_name(spec_element_name(#[trigger] r@[i].spec_element())),
    {
        let mut result: Vec<EcucAnyReferenceValue> = Vec::new();
        if let Some(values) = get_sub_element(self.element(), "REFERENCE-VALUES") {
            let subs = sub_elements(&values);
            for i in 0..subs.len()
                invariant
                    forall|j: int| 0 <= j < result.len() ==> EcucAnyReferenceValue::spec_is_wrapped_name(spec_element_name(#[trigger] result@[j].spec_element())),
            {
                if let Ok(value) = EcucAnyReferenceValue::from_element(subs[i].clone()) {
                    result.push(value);
                }
            }
        }
        result
    }
}

//#########################################################

/// An `EcucInstanceReferenceValue` provides the mechanism to reference an instance of a prototype
#[derive(Debug, Clone, PartialEq, Eq, Hash)]
pub struct EcucInstanceReferenceValue(Element);

impl AbstractionElement for EcucInstanceReferenceValue {
    closed spec fn spec_element(&self) -> Element {
        self.0
    }

    fn element(&self) -> (r: &Element) {
        proof {
            assert(self.spec_element() == self.0);
        }
        &self.0
    }
}

impl EcucInstanceReferenceValue {
    /// wrap an element of the model whose element name is `ECUC-INSTANCE-REFERENCE-VALUE`
    pub fn from_element(element: Element) -> (r: Result<Self, AutosarAbstractionError>)
        ensures
            r is Ok <==> spec_element_name(element) == "ECUC-INSTANCE-REFERENCE-VALUE"@,
            r matches Ok(x) ==> x.spec_element() == element,
            r matches Err(e) ==> is_conversion_error(e, element, "EcucInstanceReferenceValue"@),
    {
        if has_element_name(&element, "ECUC-INSTANCE-REFERENCE-VALUE") {
            Ok(EcucInstanceReferenceValue(element))
        } else {
            Err(AutosarAbstractionError::ConversionError { element, dest: "EcucInstanceReferenceValue".to_owned() })
        }
    }
}

impl TryFrom<Element> for EcucInstanceReferenceValue {
    type Error = AutosarAbstractionError;

    fn try_from(element: Element) -> (r: Result<Self, Self::Error>)
        ensures
            r is Ok <==> spec_element_name(element) == "ECUC-INSTANCE-REFERENCE-VALUE"@,
            r matches Ok(x) ==> x.spec_element() == element,
            r matches Err(e) ==> is_conversion_error(e, element, "EcucInstanceReferenceValue"@),
    {
        EcucInstanceReferenceValue::from_element(element)
    }
}

impl TryFromSpecImpl<Element> for EcucInstanceReferenceValue {
    open spec fn obeys_try_from_spec() -> bool {
        false
    }

    open spec fn try_from_spec(v: Element) -> Result<Self, AutosarAbstractionError> {
        arbitrary()
    }
}

impl From<EcucInstanceReferenceValue> for Element {
    fn from(value: EcucInstanceReferenceValue) -> (r: Element)
        ensures
            r == value.spec_element(),
    {
        value.0
    }
}

impl FromSpecImpl<EcucInstanceReferenceValue> for Element {
    open spec fn obeys_from_spec() -> bool {
        false
    }

    open spec fn from_spec(v: EcucInstanceReferenceValue) -> Element {
        arbitrary()
    }
}

impl EcucInstanceReferenceValue {
    /// create a new `EcucInstanceReferenceValue` in a REFERENCE-VALUES element
    pub fn new(
        parent: &Element,
        definition: &EcucInstanceReferenceDef,
        target_context: &[&Element],
        target: &Element,
    ) -> (r: Result<Self, AutosarAbstractionError>)
        ensures
            r matches Ok(x) ==> spec_element_name(x.spec_element()) == "ECUC-INSTANCE-REFERENCE-VALUE"@,
            r matches Err(e) ==> e is ModelError || e is InvalidParameter,
    {
        let elem = create_sub_element(parent, "ECUC-INSTANCE-REFERENCE-VALUE")?;
        let instance_ref = Self(elem);
        instance_ref.set_definition(definition)?;
        instance_ref.set_target(target_context, target)?;
        Ok(instance_ref)
    }

    /// set the reference definition
    pub fn set_definition(&self, definition: &EcucInstanceReferenceDef) -> (r: Result<(), AutosarAbstractionError>)
        ensures
            r matches Err(e) ==> is_model_or_name_error(e, "DEFINITION-REF"@),
    {
        set_sub_element_target(self.element(), "DEFINITION-REF", definition.element())
    }

    /// get the reference definition
    ///
    /// If the definition is not loaded, use `definition_ref()` instead.
    pub fn definition(&self) -> (r: Option<EcucInstanceReferenceDef>)
        ensures
            r matches Some(x) ==> spec_element_name(x.spec_element()) == "ECUC-INSTANCE-REFERENCE-DEF"@,
    {
        match EcucInstanceReferenceDef::from_element(sub_element_target(self.element(), "DEFINITION-REF")?) {
            Ok(def) => Some(def),
            Err(_) => None,
        }
    }

    /// Set the target of the reference
    ///
    /// An instance reference targets a specific instance of a prototype. In order to uniquely identify the target,
    /// the target context is required. The target context is a list of elements that are the parent elements of the
    /// target element. The instance reference definition specifies which context elements are required.
    pub fn set_target(&self, target_context: &[&Element], target: &Element) -> (r: Result<(), AutosarAbstractionError>)
        ensures
            r matches Err(e) ==> is_model_or_name_error(e, "VALUE-IREF"@) || is_model_or_name_error(e, "CONTEXT-ELEMENT-REF"@) || is_model_or_name_error(e, "TARGET-REF"@),
    {
        // remove existing target elements
        let _ = remove_sub_element_kind(self.element(), "VALUE-IREF");
        // create the target context elements
        let value_iref_elem = create_sub_element(self.element(), "VALUE-IREF")?;
        for i in 0..target_context.len() {
            let context_ref = create_sub_element(&value_iref_elem, "CONTEXT-ELEMENT-REF")?;
            set_reference_target(&context_ref, target_context[i])?;
        }
        // create the target element
        let target_ref = create_sub_element(&value_iref_elem, "TARGET-REF")?;
        set_reference_target(&target_ref, target)
    }

    /// Get the target of the reference
    ///
    /// Returns the context elements that are needed to uniquely identify the target, and the target element.
    pub fn target(&self) -> Option<(Vec<Element>, Element)> {
        let value_iref_elem = get_sub_element(self.element(), "VALUE-IREF")?;
        let target = sub_element_target(&value_iref_elem, "TARGET-REF")?;
        let subs = sub_elements(&value_iref_elem);
        let mut context_elements: Vec<Element> = Vec::new();
        for i in 0..subs.len() {
            if has_element_name(&subs[i], "CONTEXT-ELEMENT-REF") {
                if let Ok(context) = get_reference_target(&subs[i]) {
                    context_elements.push(context);
                }
            }
        }
        Some((context_elements, target))
    }

    /// get the definition reference as a string
    ///
    /// This is useful when the referenced definition is not loaded and can't be resolved.
    pub fn definition_ref(&self) -> Option<String> {
        sub_element_string(self.element(), "DEFINITION-REF")
    }

    /// set the index of the reference
    ///
    /// If the reference definition has `requiresIndex` set to `true`, then the reference
    /// must have an index. Otherwise the index is meaningless.
    pub fn set_index(&self, index: Option<u64>) -> (r: Result<(), AutosarAbstractionError>)
        ensures
            r matches Err(e) ==> is_model_or_name_error(e, "INDEX"@),
    {
        set_optional_u64(self.element(), "INDEX", index)
    }

    /// get the index of the reference
    pub fn index(&self) -> Option<u64> {
        index_of(self.element())
    }

    /// set the isAutoValue flag
    ///
    /// If the reference definition has `withAuto` set to `true`, then the reference is allowed to have an auto value.
    pub fn set_is_auto_value(&self, is_auto_value: Option<bool>) -> (r: Result<(), AutosarAbstractionError>)
        ensures
            r matches Err(e) ==> is_model_or_name_error(e, "IS-AUTO-VALUE"@),
    {
        set_optional_bool(self.element(), "IS-AUTO-VALUE", is_auto_value)
    }

    /// get the isAutoValue flag
    pub fn is_auto_value(&self) -> Option<bool> {
        sub_element_bool(self.element(), "IS-AUTO-VALUE")
    }
}

//#########################################################

/// An `EcucReferenceValue` allows the ecu configuration to refer to any identifiable element in the Autosar model
#[derive(Debug, Clone, PartialEq, Eq, Hash)]
pub struct EcucReferenceValue(Element);

impl AbstractionElement for EcucReferenceValue {
    closed spec fn spec_element(&self) -> Element {
        self.0
    }

    fn element(&self) -> (r: &Element) {
        proof {
            assert(self.spec_element() == self.0);
        }
        &self.0
    }
}

impl EcucReferenceValue {
    /// wrap an element of the model whose element name is `ECUC-REFERENCE-VALUE`
    pub fn from_element(element: Element) -> (r: Result<Self, AutosarAbstractionError>)
        ensures
            r is Ok <==> spec_element_name(element) == "ECUC-REFERENCE-VALUE"@,
            r matches Ok(x) ==> x.spec_element() == element,
            r matches Err(e) ==> is_conversion_error(e, element, "EcucReferenceValue"@),
    {
        if has_element_name(&element, "ECUC-REFERENCE-VALUE") {
            Ok(EcucReferenceValue(element))
        } else {
            Err(AutosarAbstractionError::ConversionError { element, dest: "EcucReferenceValue".to_owned() })
        }
    }
}

impl TryFrom<Element> for EcucReferenceValue {
    type Error = AutosarAbstractionError;

    fn try_from(element: Element) -> (r: Result<Self, Self::Error>)
        ensures
            r is Ok <==> spec_element_name(element) == "ECUC-REFERENCE-VALUE"@,
            r matches Ok(x) ==> x.spec_element() == element,
            r matches Err(e) ==> is_conversion_error(e, element, "EcucReferenceValue"@),
    {
        EcucReferenceValue::from_element(element)
    }
}

impl TryFromSpecImpl<Element> for EcucReferenceValue {
    open spec fn obeys_try_from_spec() -> bool {
        false
    }

    open spec fn try_from_spec(v: Element) -> Result<Self, AutosarAbstractionError> {
        arbitrary()
    }
}

impl From<EcucReferenceValue> for Element {
    fn from(value: EcucReferenceValue) -> (r: Element)
        ensures
            r == value.spec_element(),
    {
        value.0
    }
}

impl FromSpecImpl<EcucReferenceValue> for Element {
    open spec fn obeys_from_spec() -> bool {
        false
    }

    open spec fn from_spec(v: EcucReferenceValue) -> Element {
        arbitrary()
    }
}

impl EcucReferenceValue {
    /// create a new `EcucReferenceValue` in a REFERENCE-VALUES element
    pub fn new<T: AbstractEcucReferenceDef>(parent: &Element, definition: &T, target: &Element) -> (r: Result<
        Self,
        AutosarAbstractionError,
    >)
        ensures
            r matches Ok(x) ==> spec_element_name(x.spec_element()) == "ECUC-REFERENCE-VALUE"@,
            r matches Err(e) ==> e is ModelError || e is InvalidParameter,
    {
        let elem = create_sub_element(parent, "ECUC-REFERENCE-VALUE")?;
        let reference = Self(elem);
        reference.set_definition(definition)?;
        reference.set_target(target)?;
        Ok(reference)
    }

    /// set the reference definition
    pub fn set_definition<T: AbstractEcucReferenceDef>(&self, definition: &T) -> (r: Result<(), AutosarAbstractionError>)
        ensures
            r matches Err(e) ==> e is ModelError || e is InvalidParameter,
    {
        set_sub_element_target(self.element(), "DEFINITION-REF", definition.element())
    }

    /// get the reference definition
    ///
    /// If the definition is not loaded, use `definition_ref()` instead.
    pub fn definition(&self) -> (r: Option<EcucAnyReferenceDef>)
        ensures
            r matches Some(x) ==> EcucAnyReferenceDef::spec_is_wrapped_name(spec_element_name(x.spec_element())),
    {
        match EcucAnyReferenceDef::from_element(sub_element_target(self.element(), "DEFINITION-REF")?) {
            Ok(def) => Some(def),
            Err(_) => None,
        }
    }

    /// Set the target of the reference
    pub fn set_target(&self, target: &Element) -> (r: Result<(), AutosarAbstractionError>)
        ensures
            r matches Err(e) ==> is_model_or_name_error(e, "VALUE-REF"@),
    {
        set_sub_element_target(self.element(), "VALUE-REF", target)
    }

    /// Get the target of the reference
    pub fn target(&self) -> Option<Element> {
        sub_element_target(self.element(), "VALUE-REF")
    }

    /// get the definition reference as a string
    ///
    /// This is useful when the referenced definition is not loaded and can't be resolved.
    pub fn definition_ref(&self) -> Option<String> {
        sub_element_string(self.element(), "DEFINITION-REF")
    }

    /// set the index of the reference
    ///
    /// If the reference definition has `requiresIndex` set to `true`, then the reference
    /// must have an index. Otherwise the index is meaningless.
    pub fn set_index(&self, index: Option<u64>) -> (r: Result<(), AutosarAbstractionError>)
        ensures
            r matches Err(e) ==> is_model_or_name_error(e, "INDEX"@),
    {
        set_optional_u64(self.element(), "INDEX", index)
    }

    /// get the index of the reference
    pub fn index(&self) -> Option<u64> {
        index_of(self.element())
    }

    /// set the isAutoValue flag
    ///
    /// If the reference definition has `withAuto` set to `true`, then the reference is allowed to have an auto value.
    pub fn set_is_auto_value(&self, is_auto_value: Option<bool>) -> (r: Result<(), AutosarAbstractionError>)
        ensures
            r matches Err(e) ==> is_model_or_name_error(e, "IS-AUTO-VALUE"@),
    {
        set_optional_bool(self.element(), "IS-AUTO-VALUE", is_auto_value)
    }

    /// get the isAutoValue flag
    pub fn is_auto_value(&self) -> Option<bool> {
        sub_element_bool(self.element(), "IS-AUTO-VALUE")
    }
}

//#########################################################

/// The `EcucAnyReferenceValue` is an enum that can hold either of the reference value types
/// It is used as a return type for the iterator of reference values
#[derive(Debug, Clone, PartialEq, Eq, Hash)]
pub enum EcucAnyReferenceValue {
    /// An instance reference value
    Instance(EcucInstanceReferenceValue),
    /// A normal reference value
    Reference(EcucReferenceValue),
}

impl AbstractionElement for EcucAnyReferenceValue {
    open spec fn spec_element(&self) -> Element {
        match self {
            EcucAnyReferenceValue::Instance(inner) => inner.spec_element(),
            EcucAnyReferenceValue::Reference(inner) => inner.spec_element(),
        }
    }

    fn element(&self) -> (r: &Element) {
        match self {
            EcucAnyReferenceValue::Instance(inner) => {
                proof {
                    assert(self.spec_element() == inner.spec_element());
                }
                inner.element()
            },
            EcucAnyReferenceValue::Reference(inner) => {
                proof {
                    assert(self.spec_element() == inner.spec_element());
                }
                inner.element()
            },
        }
    }
}

impl EcucAnyReferenceValue {
    /// the element names of the elements that this type wraps
    pub open spec fn spec_is_wrapped_name(n: Seq<char>) -> bool {
        n == "ECUC-INSTANCE-REFERENCE-VALUE"@
            || n == "ECUC-REFERENCE-VALUE"@
    }

    /// wrap an element of the model, by its element name
    pub fn from_element(element: Element) -> (r: Result<Self, AutosarAbstractionError>)
        ensures
            r is Ok <==> Self::spec_is_wrapped_name(spec_element_name(element)),
            r matches Ok(x) ==> x.spec_element() == element,
            r matches Err(e) ==> is_conversion_error(e, element, "EcucAnyReferenceValue"@),
    {
        if has_element_name(&element, "ECUC-INSTANCE-REFERENCE-VALUE") {
            Ok(EcucAnyReferenceValue::Instance(EcucInstanceReferenceValue(element)))
        } else if has_element_name(&element, "ECUC-REFERENCE-VALUE") {
            Ok(EcucAnyReferenceValue::Reference(EcucReferenceValue(element)))
        } else {
            Err(AutosarAbstractionError::ConversionError { element, dest: "EcucAnyReferenceValue".to_owned() })
        }
    }
}

impl TryFrom<Element> for EcucAnyReferenceValue {
    type Error = AutosarAbstractionError;

    fn try_from(element: Element) -> (r: Result<Self, Self::Error>)
        ensures
            r is Ok <==> Self::spec_is_wrapped_name(spec_element_name(element)),
            r matches Ok(x) ==> x.spec_element() == element,
            r matches Err(e) ==> is_conversion_error(e, element, "EcucAnyReferenceValue"@),
    {
        EcucAnyReferenceValue::from_element(element)
    }
}

impl TryFromSpecImpl<Element> for EcucAnyReferenceValue {
    open spec fn obeys_try_from_spec() -> bool {
        false
    }

    open spec fn try_from_spec(v: Element) -> Result<Self, AutosarAbstractionError> {
        arbitrary()
    }
}

impl IdentifiableAbstractionElement for EcucAnyReferenceValue {}

} // verus!
