//! Container definitions of the ECU configuration.

use vstd::prelude::*;
use autosar_data::Element;
use vstd::std_specs::convert::{FromSpecImpl, TryFromSpecImpl};
use crate::{
    AbstractionElement, AutosarAbstractionError, IdentifiableAbstractionElement, has_element_name,
    is_conversion_error,
};
use crate::ecu_configuration::{
    EcucAddInfoParamDef, EcucAnyReferenceDef, EcucBooleanParamDef, EcucChoiceReferenceDef, EcucDefinitionElement,
    EcucEnumerationParamDef, EcucFloatParamDef, EcucForeignReferenceDef, EcucFunctionNameDef, EcucInstanceReferenceDef,
    EcucIntegerParamDef, EcucLinkerSymbolDef, EcucMultilineStringParamDef, EcucParameterDef, EcucReferenceDef,
    EcucStringParamDef, EcucUriReferenceDef,
};
use crate::elements::{create_named_sub_element, get_or_create_sub_element, get_sub_element, spec_element_name, sub_elements};

verus! {

/// Marker trait for container definitions
pub trait AbstractEcucContainerDef: EcucDefinitionElement {}

//#########################################################

/// The `EcucChoiceContainerDef` is used to define configuration containers
/// that provide a choice between several `EcucParamConfContainerDef`
#[derive(Debug, Clone, PartialEq, Eq, Hash)]
pub struct EcucChoiceContainerDef(Element);

impl AbstractionElement for EcucChoiceContainerDef {
    closed spec fn spec_element(&self) -> Element {
        self.0
    }

    fn element(&self) -> (r: &Element) {
        proof {
            assert(self.spec_element() == self.0);
        }
        &self.0
    }
}

impl EcucChoiceContainerDef {
    /// wrap an element of the model whose element name is `ECUC-CHOICE-CONTAINER-DEF`
    pub fn from_element(element: Element) -> (r: Result<Self, AutosarAbstractionError>)
        ensures
            r is Ok <==> spec_element_name(element) == "ECUC-CHOICE-CONTAINER-DEF"@,
            r matches Ok(x) ==> x.spec_element() == element,
            r matches Err(e) ==> is_conversion_error(e, element, "EcucChoiceContainerDef"@),
    {
        if has_element_name(&element, "ECUC-CHOICE-CONTAINER-DEF") {
            Ok(EcucChoiceContainerDef(element))
        } else {
            Err(AutosarAbstractionError::ConversionError { element, dest: "EcucChoiceContainerDef".to_owned() })
        }
    }
}

impl TryFrom<Element> for EcucChoiceContainerDef {
    type Error = AutosarAbstractionError;

    fn try_from(element: Element) -> (r: Result<Self, Self::Error>)
        ensures
            r is Ok <==> spec_element_name(element) == "ECUC-CHOICE-CONTAINER-DEF"@,
            r matches Ok(x) ==> x.spec_element() == element,
            r matches Err(e) ==> is_conversion_error(e, element, "EcucChoiceContainerDef"@),
    {
        EcucChoiceContainerDef::from_element(element)
    }
}

impl TryFromSpecImpl<Element> for EcucChoiceContainerDef {
    open spec fn obeys_try_from_spec() -> bool {
        false
    }

    open spec fn try_from_spec(v: Element) -> Result<Self, AutosarAbstractionError> {
        arbitrary()
    }
}

impl From<EcucChoiceContainerDef> for Element {
    fn from(value: EcucChoiceContainerDef) -> (r: Element)
        ensures
            r == value.spec_element(),
    {
        value.0
    }
}

impl FromSpecImpl<EcucChoiceContainerDef> for Element {
    open spec fn obeys_from_spec() -> bool {
        false
    }

    open spec fn from_spec(v: EcucChoiceContainerDef) -> Element {
        arbitrary()
    }
}

impl IdentifiableAbstractionElement for EcucChoiceContainerDef {}

impl EcucDefinitionElement for EcucChoiceContainerDef {}

impl AbstractEcucContainerDef for EcucChoiceContainerDef {}

impl EcucChoiceContainerDef {
    /// create a new `EcucChoiceContainerDef` in a CONTAINERS, SUB-CONTAINERS or CHOICES element
    pub fn new(name: &str, containers_elem: &Element) -> (r: Result<Self, AutosarAbstractionError>)
        ensures
            r matches Ok(c) ==> spec_element_name(c.spec_element()) == "ECUC-CHOICE-CONTAINER-DEF"@,
            r matches Err(e) ==> e is ModelError || e is InvalidParameter,
    {
        let elem = create_named_sub_element(containers_elem, "ECUC-CHOICE-CONTAINER-DEF", name)?;
        Ok(Self(elem))
    }

    /// create a new `EcucParamConfContainerDef` as one of the choices in this choice container
    pub fn create_param_conf_container_def(&self, name: &str) -> (r: Result<
        EcucParamConfContainerDef,
        AutosarAbstractionError,
    >)
        ensures
            r matches Err(e) ==> e is ModelError || e is InvalidParameter,
    {
        let containers_elem = get_or_create_sub_element(self.element(), "CHOICES")?;
        EcucParamConfContainerDef::new(name, &containers_elem)
    }

    /// the choices in the container
    pub fn choices(&self) -> (r: Vec<EcucParamConfContainerDef>)
        ensures
            forall|i: int| 0 <= i < r.len() ==> spec_element_name(#[trigger] r@[i].spec_element()) == "ECUC-PARAM-CONF-CONTAINER-DEF"@,
    {
        let mut result: Vec<EcucParamConfContainerDef> = Vec::new();
        if let Some(choices) = get_sub_element(self.element(), "CHOICES") {
            let subs = sub_elements(&choices);
            for i in 0..subs.len()
                invariant
                    forall|j: int| 0 <= j < result.len() ==> spec_element_name(#[trigger] result@[j].spec_element()) == "ECUC-PARAM-CONF-CONTAINER-DEF"@,
            {
                if let Ok(choice) = EcucParamConfContainerDef::from_element(subs[i].clone()) {
                    result.push(choice);
                }
            }
        }
        result
    }
}

//#########################################################

/// The `EcucParamConfContainerDef` is used to define configuration containers
#[derive(Debug, Clone, PartialEq, Eq, Hash)]
pub struct EcucParamConfContainerDef(Element);

impl AbstractionElement for EcucParamConfContainerDef {
    closed spec fn spec_element(&self) -> Element {
        self.0
    }

    fn element(&self) -> (r: &Element) {
        proof {
            assert(self.spec_element() == self.0);
        }
        &self.0
    }
}

impl EcucParamConfContainerDef {
    /// wrap an element of the model whose element name is `ECUC-PARAM-CONF-CONTAINER-DEF`
    pub fn from_element(element: Element) -> (r: Result<Self, AutosarAbstractionError>)
        ensures
            r is Ok <==> spec_element_name(element) == "ECUC-PARAM-CONF-CONTAINER-DEF"@,
            r matches Ok(x) ==> x.spec_element() == element,
            r matches Err(e) ==> is_conversion_error(e, element, "EcucParamConfContainerDef"@),
    {
        if has_element_name(&element, "ECUC-PARAM-CONF-CONTAINER-DEF") {
            Ok(EcucParamConfContainerDef(element))
        } else {
            Err(AutosarAbstractionError::ConversionError { element, dest: "EcucParamConfContainerDef".to_owned() })
        }
    }
}

impl TryFrom<Element> for EcucParamConfContainerDef {
    type Error = AutosarAbstractionError;

    fn try_from(element: Element) -> (r: Result<Self, Self::Error>)
        ensures
            r is Ok <==> spec_element_name(element) == "ECUC-PARAM-CONF-CONTAINER-DEF"@,
            r matches Ok(x) ==> x.spec_element() == element,
            r matches Err(e) ==> is_conversion_error(e, element, "EcucParamConfContainerDef"@),
    {
        EcucParamConfContainerDef::from_element(element)
    }
}

impl TryFromSpecImpl<Element> for EcucParamConfContainerDef {
    open spec fn obeys_try_from_spec() -> bool {
        false
    }

    open spec fn try_from_spec(v: Element) -> Result<Self, AutosarAbstractionError> {
        arbitrary()
    }
}

impl From<EcucParamConfContainerDef> for Element {
    fn from(value: EcucParamConfContainerDef) -> (r: Element)
        ensures
            r == value.spec_element(),
    {
        value.0
    }
}

impl FromSpecImpl<EcucParamConfContainerDef> for Element {
    open spec fn obeys_from_spec() -> bool {
        false
    }

    open spec fn from_spec(v: EcucParamConfContainerDef) -> Element {
        arbitrary()
    }
}

impl IdentifiableAbstractionElement for EcucParamConfContainerDef {}

impl EcucDefinitionElement for EcucParamConfContainerDef {}

impl AbstractEcucContainerDef for EcucParamConfContainerDef {}

impl EcucParamConfContainerDef {
    /// create a new `EcucParamConfContainerDef` in a CONTAINERS, SUB-CONTAINERS or CHOICES element
    pub fn new(name: &str, containers_elem: &Element) -> (r: Result<Self, AutosarAbstractionError>)
        ensures
            r matches Ok(c) ==> spec_element_name(c.spec_element()) == "ECUC-PARAM-CONF-CONTAINER-DEF"@,
            r matches Err(e) ==> e is ModelError || e is InvalidParameter,
    {
        let elem = create_named_sub_element(containers_elem, "ECUC-PARAM-CONF-CONTAINER-DEF", name)?;
        Ok(Self(elem))
    }

    /// create a new `EcucChoiceContainerDef` as a sub-container
    pub fn create_choice_container_def(&self, name: &str) -> (r: Result<EcucChoiceContainerDef, AutosarAbstractionError>)
        ensures
            r matches Err(e) ==> e is ModelError || e is InvalidParameter,
    {
        let containers_elem = get_or_create_sub_element(self.element(), "SUB-CONTAINERS")?;
        EcucChoiceContainerDef::new(name, &containers_elem)
    }

    /// create a new `EcucParamConfContainerDef` as a sub-container
    pub fn create_param_conf_container_def(&self, name: &str) -> (r: Result<
        EcucParamConfContainerDef,
        AutosarAbstractionError,
    >)
        ensures
            r matches Err(e) ==> e is ModelError || e is InvalidParameter,
    {
        let containers_elem = get_or_create_sub_element(self.element(), "SUB-CONTAINERS")?;
        EcucParamConfContainerDef::new(name, &containers_elem)
    }

    /// the sub-containers
    pub fn sub_containers(&self) -> Vec<EcucContainerDef> {
        container_defs_in(self.element(), "SUB-CONTAINERS")
    }

    /// create a new `EcucAddInfoParamDef` in the container
    pub fn create_add_info_param_def(&self, name: &str, origin: &str) -> (r: Result<EcucAddInfoParamDef, AutosarAbstractionError>)
        ensures
            r matches Err(e) ==> e is ModelError || e is InvalidParameter,
    {
        let group_elem = get_or_create_sub_element(self.element(), "PARAMETERS")?;
        EcucAddInfoParamDef::new(name, &group_elem, origin)
    }

    /// create a new `EcucBooleanParamDef` in the container
    pub fn create_boolean_param_def(&self, name: &str, origin: &str) -> (r: Result<EcucBooleanParamDef, AutosarAbstractionError>)
        ensures
            r matches Err(e) ==> e is ModelError || e is InvalidParameter,
    {
        let group_elem = get_or_create_sub_element(self.element(), "PARAMETERS")?;
        EcucBooleanParamDef::new(name, &group_elem, origin)
    }

    /// create a new `EcucEnumerationParamDef` in the container
    pub fn create_enumeration_param_def(&self, name: &str, origin: &str) -> (r: Result<EcucEnumerationParamDef, AutosarAbstractionError>)
        ensures
            r matches Err(e) ==> e is ModelError || e is InvalidParameter,
    {
        let group_elem = get_or_create_sub_element(self.element(), "PARAMETERS")?;
        EcucEnumerationParamDef::new(name, &group_elem, origin)
    }

    /// create a new `EcucFloatParamDef` in the container
    pub fn create_float_param_def(&self, name: &str, origin: &str) -> (r: Result<EcucFloatParamDef, AutosarAbstractionError>)
        ensures
            r matches Err(e) ==> e is ModelError || e is InvalidParameter,
    {
        let group_elem = get_or_create_sub_element(self.element(), "PARAMETERS")?;
        EcucFloatParamDef::new(name, &group_elem, origin)
    }

    /// create a new `EcucIntegerParamDef` in the container
    pub fn create_integer_param_def(&self, name: &str, origin: &str) -> (r: Result<EcucIntegerParamDef, AutosarAbstractionError>)
        ensures
            r matches Err(e) ==> e is ModelError || e is InvalidParameter,
    {
        let group_elem = get_or_create_sub_element(self.element(), "PARAMETERS")?;
        EcucIntegerParamDef::new(name, &group_elem, origin)
    }

    /// create a new `EcucFunctionNameDef` in the container
    pub fn create_function_name_def(&self, name: &str, origin: &str) -> (r: Result<EcucFunctionNameDef, AutosarAbstractionError>)
        ensures
            r matches Err(e) ==> e is ModelError || e is InvalidParameter,
    {
        let group_elem = get_or_create_sub_element(self.element(), "PARAMETERS")?;
        EcucFunctionNameDef::new(name, &group_elem, origin)
    }

    /// create a new `EcucLinkerSymbolDef` in the container
    pub fn create_linker_symbol_def(&self, name: &str, origin: &str) -> (r: Result<EcucLinkerSymbolDef, AutosarAbstractionError>)
        ensures
            r matches Err(e) ==> e is ModelError || e is InvalidParameter,
    {
        let group_elem = get_or_create_sub_element(self.element(), "PARAMETERS")?;
        EcucLinkerSymbolDef::new(name, &group_elem, origin)
    }

    /// create a new `EcucMultilineStringParamDef` in the container
    pub fn create_multiline_string_param_def(&self, name: &str, origin: &str) -> (r: Result<EcucMultilineStringParamDef, AutosarAbstractionError>)
        ensures
            r matches Err(e) ==> e is ModelError || e is InvalidParameter,
    {
        let group_elem = get_or_create_sub_element(self.element(), "PARAMETERS")?;
        EcucMultilineStringParamDef::new(name, &group_elem, origin)
    }

    /// create a new `EcucStringParamDef` in the container
    pub fn create_string_param_def(&self, name: &str, origin: &str) -> (r: Result<EcucStringParamDef, AutosarAbstractionError>)
        ensures
            r matches Err(e) ==> e is ModelError || e is InvalidParameter,
    {
        let group_elem = get_or_create_sub_element(self.element(), "PARAMETERS")?;
        EcucStringParamDef::new(name, &group_elem, origin)
    }

    /// create a new `EcucForeignReferenceDef` in the container
    pub fn create_foreign_reference_def(&self, name: &str, origin: &str) -> (r: Result<EcucForeignReferenceDef, AutosarAbstractionError>)
        ensures
            r matches Err(e) ==> e is ModelError || e is InvalidParameter,
    {
        let group_elem = get_or_create_sub_element(self.element(), "REFERENCES")?;
        EcucForeignReferenceDef::new(name, &group_elem, origin)
    }

    /// create a new `EcucInstanceReferenceDef` in the container
    pub fn create_instance_reference_def(&self, name: &str, origin: &str) -> (r: Result<EcucInstanceReferenceDef, AutosarAbstractionError>)
        ensures
            r matches Err(e) ==> e is ModelError || e is InvalidParameter,
    {
        let group_elem = get_or_create_sub_element(self.element(), "REFERENCES")?;
        EcucInstanceReferenceDef::new(name, &group_elem, origin)
    }

    /// create a new `EcucChoiceReferenceDef` in the container
    pub fn create_choice_reference_def(&self, name: &str, origin: &str) -> (r: Result<EcucChoiceReferenceDef, AutosarAbstractionError>)
        ensures
            r matches Err(e) ==> e is ModelError || e is InvalidParameter,
    {
        let group_elem = get_or_create_sub_element(self.element(), "REFERENCES")?;
        EcucChoiceReferenceDef::new(name, &group_elem, origin)
    }

    /// create a new `EcucReferenceDef` in the container
    pub fn create_reference_def(&self, name: &str, origin: &str) -> (r: Result<EcucReferenceDef, AutosarAbstractionError>)
        ensures
            r matches Err(e) ==> e is ModelError || e is InvalidParameter,
    {
        let group_elem = get_or_create_sub_element(self.element(), "REFERENCES")?;
        EcucReferenceDef::new(name, &group_elem, origin)
    }

    /// create a new `EcucUriReferenceDef` in the container
    pub fn create_uri_reference_def(&self, name: &str, origin: &str) -> (r: Result<EcucUriReferenceDef, AutosarAbstractionError>)
        ensures
            r matches Err(e) ==> e is ModelError || e is InvalidParameter,
    {
        let group_elem = get_or_create_sub_element(self.element(), "REFERENCES")?;
        EcucUriReferenceDef::new(name, &group_elem, origin)
    }

    /// create a new `EcucFunctionNameDef` in the container; the same as `create_function_name_def`
    pub fn create_function_name_param_def(&self, name: &str, origin: &str) -> (r: Result<
        EcucFunctionNameDef,
        AutosarAbstractionError,
    >)
        ensures
            r matches Err(e) ==> e is ModelError || e is InvalidParameter,
    {
        self.create_function_name_def(name, origin)
    }

    /// create a new `EcucLinkerSymbolDef` in the container; the same as `create_linker_symbol_def`
    pub fn create_linker_symbol_param_def(&self, name: &str, origin: &str) -> (r: Result<
        EcucLinkerSymbolDef,
        AutosarAbstractionError,
    >)
        ensures
            r matches Err(e) ==> e is ModelError || e is InvalidParameter,
    {
        self.create_linker_symbol_def(name, origin)
    }

    /// the parameters in the container
    pub fn parameters(&self) -> (r: Vec<EcucParameterDef>)
        ensures
            forall|i: int| 0 <= i < r.len() ==> EcucParameterDef::spec_is_wrapped_name(spec_element_name(#[trigger] r@[i].spec_element())),
    {
        let mut result: Vec<EcucParameterDef> = Vec::new();
        if let Some(parameters) = get_sub_element(self.element(), "PARAMETERS") {
            let subs = sub_elements(&parameters);
            for i in 0..subs.len()
                invariant
                    forall|j: int| 0 <= j < result.len() ==> EcucParameterDef::spec_is_wrapped_name(spec_element_name(#[trigger] result@[j].spec_element())),
            {
                if let Ok(parameter) = EcucParameterDef::from_element(subs[i].clone()) {
                    result.push(parameter);
                }
            }
        }
        result
    }

    /// the references in the container
    pub fn references(&self) -> (r: Vec<EcucAnyReferenceDef>)
        ensures
            forall|i: int| 0 <= i < r.len() ==> EcucAnyReferenceDef::spec_is_wrapped_name(spec_element_name(#[trigger] r@[i].spec_element())),
    {
        let mut result: Vec<EcucAnyReferenceDef> = Vec::new();
        if let Some(references) = get_sub_element(self.element(), "REFERENCES") {
            let subs = sub_elements(&references);
            for i in 0..subs.len()
                invariant
                    forall|j: int| 0 <= j < result.len() ==> EcucAnyReferenceDef::spec_is_wrapped_name(spec_element_name(#[trigger] result@[j].spec_element())),
            {
                if let Ok(reference) = EcucAnyReferenceDef::from_element(subs[i].clone()) {
                    result.push(reference);
                }
            }
        }
        result
    }
}

/// the container definitions in the sub element with the given name
pub(crate) fn container_defs_in(element: &Element, name: &str) -> (r: Vec<EcucContainerDef>)
    ensures
        forall|i: int| 0 <= i < r.len() ==> EcucContainerDef::spec_is_wrapped_name(spec_element_name(#[trigger] r@[i].spec_element())),
{
    let mut result: Vec<EcucContainerDef> = Vec::new();
    if let Some(containers) = get_sub_element(element, name) {
        let subs = sub_elements(&containers);
        for i in 0..subs.len()
            invariant
                forall|j: int| 0 <= j < result.len() ==> EcucContainerDef::spec_is_wrapped_name(spec_element_name(#[trigger] result@[j].spec_element())),
        {
            if let Ok(container) = EcucContainerDef::from_element(subs[i].clone()) {
                result.push(container);
            }
        }
    }
    result
}

//#########################################################

/// `EcucContainerDef` is an enum of both container definitions, which is used as a return type by iterators
#[derive(Debug, Clone, PartialEq, Eq, Hash)]
pub enum EcucContainerDef {
    /// the container is a choice container
    Choice(EcucChoiceContainerDef),
    /// the container is a parameter container
    ParamConf(EcucParamConfContainerDef),
}

impl AbstractionElement for EcucContainerDef {
    open spec fn spec_element(&self) -> Element {
        match self {
            EcucContainerDef::Choice(c) => c.spec_element(),
            EcucContainerDef::ParamConf(c) => c.spec_element(),
        }
    }

    fn element(&self) -> (r: &Element) {
        match self {
            EcucContainerDef::Choice(c) => {
                proof {
                    assert(self.spec_element() == c.spec_element());
                }
                c.element()
            },
            EcucContainerDef::ParamConf(c) => {
                proof {
                    assert(self.spec_element() == c.spec_element());
                }
                c.element()
            },
        }
    }
}

impl EcucDefinitionElement for EcucContainerDef {}

impl AbstractEcucContainerDef for EcucContainerDef {}

impl EcucContainerDef {
    /// the element names of the elements that this type wraps
    pub open spec fn spec_is_wrapped_name(n: Seq<char>) -> bool {
        n == "ECUC-CHOICE-CONTAINER-DEF"@ || n == "ECUC-PARAM-CONF-CONTAINER-DEF"@
    }

    /// wrap an element of the model that is a choice or a parameter container definition
    pub fn from_element(element: Element) -> (r: Result<Self, AutosarAbstractionError>)
        ensures
            r matches Ok(c) ==> (c is Choice <==> spec_element_name(element) == "ECUC-CHOICE-CONTAINER-DEF"@),
            r matches Ok(c) ==> c.spec_element() == element,
            r is Ok <==> spec_element_name(element) == "ECUC-CHOICE-CONTAINER-DEF"@ || spec_element_name(element)
                == "ECUC-PARAM-CONF-CONTAINER-DEF"@,
            r matches Err(e) ==> is_conversion_error(e, element, "EcucContainerDef"@),
    {
        proof {
            reveal_strlit("ECUC-CHOICE-CONTAINER-DEF");
            reveal_strlit("ECUC-PARAM-CONF-CONTAINER-DEF");
            assert("ECUC-CHOICE-CONTAINER-DEF"@[5] != "ECUC-PARAM-CONF-CONTAINER-DEF"@[5]);
        }
        if has_element_name(&element, "ECUC-CHOICE-CONTAINER-DEF") {
            Ok(EcucContainerDef::Choice(EcucChoiceContainerDef(element)))
        } else if has_element_name(&element, "ECUC-PARAM-CONF-CONTAINER-DEF") {
            Ok(EcucContainerDef::ParamConf(EcucParamConfContainerDef(element)))
        } else {
            Err(AutosarAbstractionError::ConversionError { element, dest: "EcucContainerDef".to_owned() })
        }
    }
}

impl TryFrom<Element> for EcucContainerDef {
    type Error = AutosarAbstractionError;

    fn try_from(element: Element) -> (r: Result<Self, Self::Error>)
        ensures
            r is Ok <==> spec_element_name(element) == "ECUC-CHOICE-CONTAINER-DEF"@ || spec_element_name(element)
                == "ECUC-PARAM-CONF-CONTAINER-DEF"@,
            r matches Ok(c) ==> c.spec_element() == element,
            r matches Err(e) ==> is_conversion_error(e, element, "EcucContainerDef"@),
    {
        EcucContainerDef::from_element(element)
    }
}

impl TryFromSpecImpl<Element> for EcucContainerDef {
    open spec fn obeys_try_from_spec() -> bool {
        false
    }

    open spec fn try_from_spec(v: Element) -> Result<Self, AutosarAbstractionError> {
        arbitrary()
    }
}

} // verus!
