//! Parameter definitions of the ECU configuration.
//!
//! The values of float parameters are not handled here: their definitions can be created
//! and found, and the numbers themselves are read and written outside this library.

use vstd::prelude::*;
use crate::elements::is_model_or_name_error;
use autosar_data::Element;
use vstd::std_specs::convert::{FromSpecImpl, TryFromSpecImpl};
use crate::{
    AbstractionElement, AutosarAbstractionError, IdentifiableAbstractionElement, has_element_name,
    is_conversion_error,
};
use crate::ecu_configuration::{EcucCommonAttributes, EcucDefinitionElement};
use crate::accessors::{set_optional_bool, set_optional_text, sub_element_bool};
use crate::elements::{
    create_named_sub_element, get_or_create_sub_element, get_sub_element, remove_sub_element_kind,
    set_character_data_text, set_character_data_u64, spec_element_name, sub_elements,
};
use crate::text::{join_text, signed_decimal_text, text_equals};
use crate::values::{parse_i64, parse_u32, sub_element_cdata, sub_element_string};

verus! {

/// `EcucAbstractStringParamDef` provides the attributes that all string-like parameter definitions share
pub trait EcucAbstractStringParamDef: EcucCommonAttributes {
    /// set or remove the max length attribute
    fn set_max_length(&self, max_length: Option<u32>) -> (r: Result<(), AutosarAbstractionError>)
        ensures
            r matches Err(e) ==> e is ModelError || e is InvalidParameter,
    ;

    /// get the max length attribute
    fn max_length(&self) -> Option<u32>;

    /// set or remove the min length attribute
    fn set_min_length(&self, min_length: Option<u32>) -> (r: Result<(), AutosarAbstractionError>)
        ensures
            r matches Err(e) ==> e is ModelError || e is InvalidParameter,
    ;

    /// get the min length attribute
    fn min_length(&self) -> Option<u32>;

    /// set or remove the regular expression attribute
    /// The regular expression is a string that is used to validate the string parameter
    fn set_regular_expression(&self, regular_expression: Option<&str>) -> (r: Result<(), AutosarAbstractionError>)
        ensures
            r matches Err(e) ==> e is ModelError || e is InvalidParameter,
    ;

    /// get the regular expression attribute
    fn regular_expression(&self) -> Option<String>;

    /// set or remove the default value attribute
    fn set_default_value(&self, default_value: Option<&str>) -> (r: Result<(), AutosarAbstractionError>)
        ensures
            r matches Err(e) ==> e is ModelError || e is InvalidParameter,
    ;

    /// get the default value attribute
    fn default_value(&self) -> Option<String>;
}

/// the conditional element inside the variants element of a string-like parameter, created if needed
fn string_conditional(element: &Element, variants: &str, conditional: &str) -> (r: Result<Element, AutosarAbstractionError>)
    ensures
        r matches Err(e) ==> e is ModelError || e is InvalidParameter,
{
    let variants_elem = get_or_create_sub_element(element, variants)?;
    get_or_create_sub_element(&variants_elem, conditional)
}

/// the conditional element inside the variants element of a string-like parameter, if there is one
fn existing_string_conditional(element: &Element, variants: &str, conditional: &str) -> Option<Element> {
    let variants_elem = get_sub_element(element, variants)?;
    get_sub_element(&variants_elem, conditional)
}

/// set or remove a text attribute of a string-like parameter
fn set_string_attribute(element: &Element, variants: &str, conditional: &str, attribute: &str, value: Option<&str>) -> (r:
    Result<(), AutosarAbstractionError>)
    ensures
        r matches Err(e) ==> e is ModelError || e is InvalidParameter,
{
    match value {
        Some(v) => {
            let cond = string_conditional(element, variants, conditional)?;
            set_character_data_text(&get_or_create_sub_element(&cond, attribute)?, v)
        },
        None => {
            if let Some(cond) = existing_string_conditional(element, variants, conditional) {
                let _ = remove_sub_element_kind(&cond, attribute);
            }
            Ok(())
        },
    }
}

/// set or remove a length attribute of a string-like parameter
fn set_length_attribute(element: &Element, variants: &str, conditional: &str, attribute: &str, value: Option<u32>) -> (r:
    Result<(), AutosarAbstractionError>)
    ensures
        r matches Err(e) ==> e is ModelError || e is InvalidParameter,
{
    match value {
        Some(v) => {
            let cond = string_conditional(element, variants, conditional)?;
            set_character_data_u64(&get_or_create_sub_element(&cond, attribute)?, v as u64)
        },
        None => {
            if let Some(cond) = existing_string_conditional(element, variants, conditional) {
                let _ = remove_sub_element_kind(&cond, attribute);
            }
            Ok(())
        },
    }
}

/// a text attribute of a string-like parameter
fn string_attribute(element: &Element, variants: &str, conditional: &str, attribute: &str) -> Option<String> {
    let cond = existing_string_conditional(element, variants, conditional)?;
    sub_element_string(&cond, attribute)
}

/// a length attribute of a string-like parameter
fn length_attribute(element: &Element, variants: &str, conditional: &str, attribute: &str) -> Option<u32> {
    let cond = existing_string_conditional(element, variants, conditional)?;
    parse_u32(&sub_element_cdata(&cond, attribute)?)
}

/// marker trait for all parameter defintions
pub trait EcucParamDef: EcucCommonAttributes {}

/// marker trait for numerical parameter defintions: `EcucFloatParamDef`, `EcucIntegerParamDef`, `EcucBooleanParamDef`
pub trait EcucNumericalParamDef: EcucParamDef {}

/// marker trait for textual parameter defintions: `EcucEnumerationParamDef`,
/// `EcucFunctionNameDef`, `EcucLinkerSymbolDef`, `EcucMultilineStringParamDef`, `EcucStringParamDef`
pub trait EcucTextualParamDef: EcucParamDef {}

//#########################################################

/// `EcucAddInfoParamDef` is used to specify the need for formated text in the ECU configuration value description
#[derive(Debug, Clone, PartialEq, Eq, Hash)]
pub struct EcucAddInfoParamDef(Element);

impl AbstractionElement for EcucAddInfoParamDef {
    closed spec fn spec_element(&self) -> Element {
        self.0
    }

    fn element(&self) -> (r: &Element) {
        proof {
            assert(self.spec_element() == self.0);
        }
        &self.0
    }
}

impl EcucAddInfoParamDef {
    /// wrap an element of the model whose element name is `ECUC-ADD-INFO-PARAM-DEF`
    pub fn from_element(element: Element) -> (r: Result<Self, AutosarAbstractionError>)
        ensures
            r is Ok <==> spec_element_name(element) == "ECUC-ADD-INFO-PARAM-DEF"@,
            r matches Ok(x) ==> x.spec_element() == element,
            r matches Err(e) ==> is_conversion_error(e, element, "EcucAddInfoParamDef"@),
    {
        if has_element_name(&element, "ECUC-ADD-INFO-PARAM-DEF") {
            Ok(EcucAddInfoParamDef(element))
        } else {
            Err(AutosarAbstractionError::ConversionError { element, dest: "EcucAddInfoParamDef".to_owned() })
        }
    }
}

impl TryFrom<Element> for EcucAddInfoParamDef {
    type Error = AutosarAbstractionError;

    fn try_from(element: Element) -> (r: Result<Self, Self::Error>)
        ensures
            r is Ok <==> spec_element_name(element) == "ECUC-ADD-INFO-PARAM-DEF"@,
            r matches Ok(x) ==> x.spec_element() == element,
            r matches Err(e) ==> is_conversion_error(e, element, "EcucAddInfoParamDef"@),
    {
        EcucAddInfoParamDef::from_element(element)
    }
}

impl TryFromSpecImpl<Element> for EcucAddInfoParamDef {
    open spec fn obeys_try_from_spec() -> bool {
        false
    }

    open spec fn try_from_spec(v: Element) -> Result<Self, AutosarAbstractionError> {
        arbitrary()
    }
}

impl From<EcucAddInfoParamDef> for Element {
    fn from(value: EcucAddInfoParamDef) -> (r: Element)
        ensures
            r == value.spec_element(),
    {
        value.0
    }
}

impl FromSpecImpl<EcucAddInfoParamDef> for Element {
    open spec fn obeys_from_spec() -> bool {
        false
    }

    open spec fn from_spec(v: EcucAddInfoParamDef) -> Element {
        arbitrary()
    }
}

impl IdentifiableAbstractionElement for EcucAddInfoParamDef {}

impl EcucCommonAttributes for EcucAddInfoParamDef {}

impl EcucDefinitionElement for EcucAddInfoParamDef {}

impl EcucAddInfoParamDef {
    /// create a new `EcucAddInfoParamDef` in a PARAMETERS element
    pub fn new(name: &str, parent: &Element, origin: &str) -> (r: Result<Self, AutosarAbstractionError>)
        ensures
            r matches Ok(x) ==> spec_element_name(x.spec_element()) == "ECUC-ADD-INFO-PARAM-DEF"@,
            r matches Err(e) ==> e is ModelError || e is InvalidParameter,
    {
        let elem = create_named_sub_element(parent, "ECUC-ADD-INFO-PARAM-DEF", name)?;
        let def = Self(elem);
        def.set_origin(origin)?;
        Ok(def)
    }
}

//#########################################################

/// `EcucBooleanParamDef` is used to specify a boolean parameter in the ECU configuration
#[derive(Debug, Clone, PartialEq, Eq, Hash)]
pub struct EcucBooleanParamDef(Element);

impl AbstractionElement for EcucBooleanParamDef {
    closed spec fn spec_element(&self) -> Element {
        self.0
    }

    fn element(&self) -> (r: &Element) {
        proof {
            assert(self.spec_element() == self.0);
        }
        &self.0
    }
}

impl EcucBooleanParamDef {
    /// wrap an element of the model whose element name is `ECUC-BOOLEAN-PARAM-DEF`
    pub fn from_element(element: Element) -> (r: Result<Self, AutosarAbstractionError>)
        ensures
            r is Ok <==> spec_element_name(element) == "ECUC-BOOLEAN-PARAM-DEF"@,
            r matches Ok(x) ==> x.spec_element() == element,
            r matches Err(e) ==> is_conversion_error(e, element, "EcucBooleanParamDef"@),
    {
        if has_element_name(&element, "ECUC-BOOLEAN-PARAM-DEF") {
            Ok(EcucBooleanParamDef(element))
        } else {
            Err(AutosarAbstractionError::ConversionError { element, dest: "EcucBooleanParamDef".to_owned() })
        }
    }
}

impl TryFrom<Element> for EcucBooleanParamDef {
    type Error = AutosarAbstractionError;

    fn try_from(element: Element) -> (r: Result<Self, Self::Error>)
        ensures
            r is Ok <==> spec_element_name(element) == "ECUC-BOOLEAN-PARAM-DEF"@,
            r matches Ok(x) ==> x.spec_element() == element,
            r matches Err(e) ==> is_conversion_error(e, element, "EcucBooleanParamDef"@),
    {
        EcucBooleanParamDef::from_element(element)
    }
}

impl TryFromSpecImpl<Element> for EcucBooleanParamDef {
    open spec fn obeys_try_from_spec() -> bool {
        false
    }

    open spec fn try_from_spec(v: Element) -> Result<Self, AutosarAbstractionError> {
        arbitrary()
    }
}

impl From<EcucBooleanParamDef> for Element {
    fn from(value: EcucBooleanParamDef) -> (r: Element)
        ensures
            r == value.spec_element(),
    {
        value.0
    }
}

impl FromSpecImpl<EcucBooleanParamDef> for Element {
    open spec fn obeys_from_spec() -> bool {
        false
    }

    open spec fn from_spec(v: EcucBooleanParamDef) -> Element {
        arbitrary()
    }
}

impl IdentifiableAbstractionElement for EcucBooleanParamDef {}

impl EcucCommonAttributes for EcucBooleanParamDef {}

impl EcucDefinitionElement for EcucBooleanParamDef {}

impl EcucParamDef for EcucBooleanParamDef {}

impl EcucNumericalParamDef for EcucBooleanParamDef {}

impl EcucBooleanParamDef {
    /// create a new `EcucBooleanParamDef` in a PARAMETERS element
    pub fn new(name: &str, parent: &Element, origin: &str) -> (r: Result<Self, AutosarAbstractionError>)
        ensures
            r matches Ok(x) ==> spec_element_name(x.spec_element()) == "ECUC-BOOLEAN-PARAM-DEF"@,
            r matches Err(e) ==> e is ModelError || e is InvalidParameter,
    {
        let elem = create_named_sub_element(parent, "ECUC-BOOLEAN-PARAM-DEF", name)?;
        let def = Self(elem);
        def.set_origin(origin)?;
        Ok(def)
    }
}

impl EcucBooleanParamDef {
    /// set the default value of the boolean parameter
    pub fn set_default_value(&self, default_value: Option<bool>) -> (r: Result<(), AutosarAbstractionError>)
        ensures
            r matches Err(e) ==> is_model_or_name_error(e, "DEFAULT-VALUE"@),
    {
        set_optional_bool(self.element(), "DEFAULT-VALUE", default_value)
    }

    /// get the default value of the boolean parameter
    pub fn default_value(&self) -> Option<bool> {
        sub_element_bool(self.element(), "DEFAULT-VALUE")
    }
}

//#########################################################

/// `EcucEnumerationParamDef` is used to specify an enumeration parameter in the ECU configuration
#[derive(Debug, Clone, PartialEq, Eq, Hash)]
pub struct EcucEnumerationParamDef(Element);

impl AbstractionElement for EcucEnumerationParamDef {
    closed spec fn spec_element(&self) -> Element {
        self.0
    }

    fn element(&self) -> (r: &Element) {
        proof {
            assert(self.spec_element() == self.0);
        }
        &self.0
    }
}

impl EcucEnumerationParamDef {
    /// wrap an element of the model whose element name is `ECUC-ENUMERATION-PARAM-DEF`
    pub fn from_element(element: Element) -> (r: Result<Self, AutosarAbstractionError>)
        ensures
            r is Ok <==> spec_element_name(element) == "ECUC-ENUMERATION-PARAM-DEF"@,
            r matches Ok(x) ==> x.spec_element() == element,
            r matches Err(e) ==> is_conversion_error(e, element, "EcucEnumerationParamDef"@),
    {
        if has_element_name(&element, "ECUC-ENUMERATION-PARAM-DEF") {
            Ok(EcucEnumerationParamDef(element))
        } else {
            Err(AutosarAbstractionError::ConversionError { element, dest: "EcucEnumerationParamDef".to_owned() })
        }
    }
}

impl TryFrom<Element> for EcucEnumerationParamDef {
    type Error = AutosarAbstractionError;

    fn try_from(element: Element) -> (r: Result<Self, Self::Error>)
        ensures
            r is Ok <==> spec_element_name(element) == "ECUC-ENUMERATION-PARAM-DEF"@,
            r matches Ok(x) ==> x.spec_element() == element,
            r matches Err(e) ==> is_conversion_error(e, element, "EcucEnumerationParamDef"@),
    {
        EcucEnumerationParamDef::from_element(element)
    }
}

impl TryFromSpecImpl<Element> for EcucEnumerationParamDef {
    open spec fn obeys_try_from_spec() -> bool {
        false
    }

    open spec fn try_from_spec(v: Element) -> Result<Self, AutosarAbstractionError> {
        arbitrary()
    }
}

impl From<EcucEnumerationParamDef> for Element {
    fn from(value: EcucEnumerationParamDef) -> (r: Element)
        ensures
            r == value.spec_element(),
    {
        value.0
    }
}

impl FromSpecImpl<EcucEnumerationParamDef> for Element {
    open spec fn obeys_from_spec() -> bool {
        false
    }

    open spec fn from_spec(v: EcucEnumerationParamDef) -> Element {
        arbitrary()
    }
}

impl IdentifiableAbstractionElement for EcucEnumerationParamDef {}

impl EcucCommonAttributes for EcucEnumerationParamDef {}

impl EcucDefinitionElement for EcucEnumerationParamDef {}

impl EcucParamDef for EcucEnumerationParamDef {}

impl EcucTextualParamDef for EcucEnumerationParamDef {}

impl EcucEnumerationParamDef {
    /// create a new `EcucEnumerationParamDef` in a PARAMETERS element
    pub fn new(name: &str, parent: &Element, origin: &str) -> (r: Result<Self, AutosarAbstractionError>)
        ensures
            r matches Ok(x) ==> spec_element_name(x.spec_element()) == "ECUC-ENUMERATION-PARAM-DEF"@,
            r matches Err(e) ==> e is ModelError || e is InvalidParameter,
    {
        let elem = create_named_sub_element(parent, "ECUC-ENUMERATION-PARAM-DEF", name)?;
        let def = Self(elem);
        def.set_origin(origin)?;
        Ok(def)
    }
}

impl EcucEnumerationParamDef {
    /// create a new enumeration literal
    pub fn create_enumeration_literal(&self, name: &str) -> (r: Result<EcucEnumerationLiteralDef, AutosarAbstractionError>)
        ensures
            r matches Err(e) ==> e is ModelError || e is InvalidParameter,
    {
        let literals_elem = get_or_create_sub_element(self.element(), "LITERALS")?;
        EcucEnumerationLiteralDef::new(name, &literals_elem)
    }

    /// all enumeration literals
    pub fn enumeration_literals(&self) -> (r: Vec<EcucEnumerationLiteralDef>)
        ensures
            forall|i: int| 0 <= i < r.len() ==> spec_element_name(#[trigger] r@[i].spec_element()) == "ECUC-ENUMERATION-LITERAL-DEF"@,
    {
        let mut result: Vec<EcucEnumerationLiteralDef> = Vec::new();
        if let Some(literals) = get_sub_element(self.element(), "LITERALS") {
            let subs = sub_elements(&literals);
            for i in 0..subs.len()
                invariant
                    forall|j: int| 0 <= j < result.len() ==> spec_element_name(#[trigger] result@[j].spec_element()) == "ECUC-ENUMERATION-LITERAL-DEF"@,
            {
                if let Ok(literal) = EcucEnumerationLiteralDef::from_element(subs[i].clone()) {
                    result.push(literal);
                }
            }
        }
        result
    }

    /// set the default value of the enumeration parameter
    ///
    /// Note: enumeration literals must be created first, since the default value must match one of the literals
    pub fn set_default_value(&self, default_value: Option<&str>) -> (r: Result<(), AutosarAbstractionError>)
        ensures
            r matches Err(e) ==> e is ModelError || e is InvalidParameter,
    {
        if let Some(value) = default_value {
            let literals = self.enumeration_literals();
            let mut found = false;
            for i in 0..literals.len() {
                if let Some(literal_name) = literals[i].name() {
                    if text_equals(literal_name.as_str(), value) {
                        found = true;
                    }
                }
            }
            if !found {
                let message = join_text(&join_text("Default value ", value), " not found in enumeration literals");
                return Err(AutosarAbstractionError::InvalidParameter(message));
            }
        }
        set_optional_text(self.element(), "DEFAULT-VALUE", default_value)
    }

    /// get the default value of the enumeration parameter
    pub fn default_value(&self) -> Option<String> {
        sub_element_string(self.element(), "DEFAULT-VALUE")
    }
}

//#########################################################

/// `EcucEnumerationLiteralDef` is used to specify an enumeration literal in the ECU configuration
#[derive(Debug, Clone, PartialEq, Eq, Hash)]
pub struct EcucEnumerationLiteralDef(Element);

impl AbstractionElement for EcucEnumerationLiteralDef {
    closed spec fn spec_element(&self) -> Element {
        self.0
    }

    fn element(&self) -> (r: &Element) {
        proof {
            assert(self.spec_element() == self.0);
        }
        &self.0
    }
}

impl EcucEnumerationLiteralDef {
    /// wrap an element of the model whose element name is `ECUC-ENUMERATION-LITERAL-DEF`
    pub fn from_element(element: Element) -> (r: Result<Self, AutosarAbstractionError>)
        ensures
            r is Ok <==> spec_element_name(element) == "ECUC-ENUMERATION-LITERAL-DEF"@,
            r matches Ok(x) ==> x.spec_element() == element,
            r matches Err(e) ==> is_conversion_error(e, element, "EcucEnumerationLiteralDef"@),
    {
        if has_element_name(&element, "ECUC-ENUMERATION-LITERAL-DEF") {
            Ok(EcucEnumerationLiteralDef(element))
        } else {
            Err(AutosarAbstractionError::ConversionError { element, dest: "EcucEnumerationLiteralDef".to_owned() })
        }
    }
}

impl TryFrom<Element> for EcucEnumerationLiteralDef {
    type Error = AutosarAbstractionError;

    fn try_from(element: Element) -> (r: Result<Self, Self::Error>)
        ensures
            r is Ok <==> spec_element_name(element) == "ECUC-ENUMERATION-LITERAL-DEF"@,
            r matches Ok(x) ==> x.spec_element() == element,
            r matches Err(e) ==> is_conversion_error(e, element, "EcucEnumerationLiteralDef"@),
    {
        EcucEnumerationLiteralDef::from_element(element)
    }
}

impl TryFromSpecImpl<Element> for EcucEnumerationLiteralDef {
    open spec fn obeys_try_from_spec() -> bool {
        false
    }

    open spec fn try_from_spec(v: Element) -> Result<Self, AutosarAbstractionError> {
        arbitrary()
    }
}

impl From<EcucEnumerationLiteralDef> for Element {
    fn from(value: EcucEnumerationLiteralDef) -> (r: Element)
        ensures
            r == value.spec_element(),
    {
        value.0
    }
}

impl FromSpecImpl<EcucEnumerationLiteralDef> for Element {
    open spec fn obeys_from_spec() -> bool {
        false
    }

    open spec fn from_spec(v: EcucEnumerationLiteralDef) -> Element {
        arbitrary()
    }
}

impl IdentifiableAbstractionElement for EcucEnumerationLiteralDef {}

impl EcucEnumerationLiteralDef {
    /// create a new `EcucEnumerationLiteralDef` in a LITERALS element
    pub fn new(name: &str, literals_elem: &Element) -> (r: Result<Self, AutosarAbstractionError>)
        ensures
            r matches Ok(x) ==> spec_element_name(x.spec_element()) == "ECUC-ENUMERATION-LITERAL-DEF"@,
            r matches Err(e) ==> e is ModelError || e is InvalidParameter,
    {
        let elem = create_named_sub_element(literals_elem, "ECUC-ENUMERATION-LITERAL-DEF", name)?;
        Ok(Self(elem))
    }
}

//#########################################################

/// `EcucFloatParamDef` is used to specify a float parameter in the ECU configuration
#[derive(Debug, Clone, PartialEq, Eq, Hash)]
pub struct EcucFloatParamDef(Element);

impl AbstractionElement for EcucFloatParamDef {
    closed spec fn spec_element(&self) -> Element {
        self.0
    }

    fn element(&self) -> (r: &Element) {
        proof {
            assert(self.spec_element() == self.0);
        }
        &self.0
    }
}

impl EcucFloatParamDef {
    /// wrap an element of the model whose element name is `ECUC-FLOAT-PARAM-DEF`
    pub fn from_element(element: Element) -> (r: Result<Self, AutosarAbstractionError>)
        ensures
            r is Ok <==> spec_element_name(element) == "ECUC-FLOAT-PARAM-DEF"@,
            r matches Ok(x) ==> x.spec_element() == element,
            r matches Err(e) ==> is_conversion_error(e, element, "EcucFloatParamDef"@),
    {
        if has_element_name(&element, "ECUC-FLOAT-PARAM-DEF") {
            Ok(EcucFloatParamDef(element))
        } else {
            Err(AutosarAbstractionError::ConversionError { element, dest: "EcucFloatParamDef".to_owned() })
        }
    }
}

impl TryFrom<Element> for EcucFloatParamDef {
    type Error = AutosarAbstractionError;

    fn try_from(element: Element) -> (r: Result<Self, Self::Error>)
        ensures
            r is Ok <==> spec_element_name(element) == "ECUC-FLOAT-PARAM-DEF"@,
            r matches Ok(x) ==> x.spec_element() == element,
            r matches Err(e) ==> is_conversion_error(e, element, "EcucFloatParamDef"@),
    {
        EcucFloatParamDef::from_element(element)
    }
}

impl TryFromSpecImpl<Element> for EcucFloatParamDef {
    open spec fn obeys_try_from_spec() -> bool {
        false
    }

    open spec fn try_from_spec(v: Element) -> Result<Self, AutosarAbstractionError> {
        arbitrary()
    }
}

impl From<EcucFloatParamDef> for Element {
    fn from(value: EcucFloatParamDef) -> (r: Element)
        ensures
            r == value.spec_element(),
    {
        value.0
    }
}

impl FromSpecImpl<EcucFloatParamDef> for Element {
    open spec fn obeys_from_spec() -> bool {
        false
    }

    open spec fn from_spec(v: EcucFloatParamDef) -> Element {
        arbitrary()
    }
}

impl IdentifiableAbstractionElement for EcucFloatParamDef {}

impl EcucCommonAttributes for EcucFloatParamDef {}

impl EcucDefinitionElement for EcucFloatParamDef {}

impl EcucParamDef for EcucFloatParamDef {}

impl EcucNumericalParamDef for EcucFloatParamDef {}

impl EcucFloatParamDef {
    /// create a new `EcucFloatParamDef` in a PARAMETERS element
    pub fn new(name: &str, parent: &Element, origin: &str) -> (r: Result<Self, AutosarAbstractionError>)
        ensures
            r matches Ok(x) ==> spec_element_name(x.spec_element()) == "ECUC-FLOAT-PARAM-DEF"@,
            r matches Err(e) ==> e is ModelError || e is InvalidParameter,
    {
        let elem = create_named_sub_element(parent, "ECUC-FLOAT-PARAM-DEF", name)?;
        let def = Self(elem);
        def.set_origin(origin)?;
        Ok(def)
    }
}

//#########################################################

/// `EcucIntegerParamDef` is used to specify an integer parameter in the ECU configuration
#[derive(Debug, Clone, PartialEq, Eq, Hash)]
pub struct EcucIntegerParamDef(Element);

impl AbstractionElement for EcucIntegerParamDef {
    closed spec fn spec_element(&self) -> Element {
        self.0
    }

    fn element(&self) -> (r: &Element) {
        proof {
            assert(self.spec_element() == self.0);
        }
        &self.0
    }
}

impl EcucIntegerParamDef {
    /// wrap an element of the model whose element name is `ECUC-INTEGER-PARAM-DEF`
    pub fn from_element(element: Element) -> (r: Result<Self, AutosarAbstractionError>)
        ensures
            r is Ok <==> spec_element_name(element) == "ECUC-INTEGER-PARAM-DEF"@,
            r matches Ok(x) ==> x.spec_element() == element,
            r matches Err(e) ==> is_conversion_error(e, element, "EcucIntegerParamDef"@),
    {
        if has_element_name(&element, "ECUC-INTEGER-PARAM-DEF") {
            Ok(EcucIntegerParamDef(element))
        } else {
            Err(AutosarAbstractionError::ConversionError { element, dest: "EcucIntegerParamDef".to_owned() })
        }
    }
}

impl TryFrom<Element> for EcucIntegerParamDef {
    type Error = AutosarAbstractionError;

    fn try_from(element: Element) -> (r: Result<Self, Self::Error>)
        ensures
            r is Ok <==> spec_element_name(element) == "ECUC-INTEGER-PARAM-DEF"@,
            r matches Ok(x) ==> x.spec_element() == element,
            r matches Err(e) ==> is_conversion_error(e, element, "EcucIntegerParamDef"@),
    {
        EcucIntegerParamDef::from_element(element)
    }
}

impl TryFromSpecImpl<Element> for EcucIntegerParamDef {
    open spec fn obeys_try_from_spec() -> bool {
        false
    }

    open spec fn try_from_spec(v: Element) -> Result<Self, AutosarAbstractionError> {
        arbitrary()
    }
}

impl From<EcucIntegerParamDef> for Element {
    fn from(value: EcucIntegerParamDef) -> (r: Element)
        ensures
            r == value.spec_element(),
    {
        value.0
    }
}

impl FromSpecImpl<EcucIntegerParamDef> for Element {
    open spec fn obeys_from_spec() -> bool {
        false
    }

    open spec fn from_spec(v: EcucIntegerParamDef) -> Element {
        arbitrary()
    }
}

impl IdentifiableAbstractionElement for EcucIntegerParamDef {}

impl EcucCommonAttributes for EcucIntegerParamDef {}

impl EcucDefinitionElement for EcucIntegerParamDef {}

impl EcucParamDef for EcucIntegerParamDef {}

impl EcucNumericalParamDef for EcucIntegerParamDef {}

impl EcucIntegerParamDef {
    /// create a new `EcucIntegerParamDef` in a PARAMETERS element
    pub fn new(name: &str, parent: &Element, origin: &str) -> (r: Result<Self, AutosarAbstractionError>)
        ensures
            r matches Ok(x) ==> spec_element_name(x.spec_element()) == "ECUC-INTEGER-PARAM-DEF"@,
            r matches Err(e) ==> e is ModelError || e is InvalidParameter,
    {
        let elem = create_named_sub_element(parent, "ECUC-INTEGER-PARAM-DEF", name)?;
        let def = Self(elem);
        def.set_origin(origin)?;
        Ok(def)
    }
}

impl EcucIntegerParamDef {
    /// set the default value of the integer parameter
    pub fn set_default_value(&self, default_value: Option<i64>) -> (r: Result<(), AutosarAbstractionError>)
        ensures
            r matches Err(e) ==> is_model_or_name_error(e, "DEFAULT-VALUE"@),
    {
        match default_value {
            Some(v) => {
                let text = signed_decimal_text(v);
                set_optional_text(self.element(), "DEFAULT-VALUE", Some(text.as_str()))
            },
            None => set_optional_text(self.element(), "DEFAULT-VALUE", None),
        }
    }

    /// get the default value of the integer parameter
    pub fn default_value(&self) -> Option<i64> {
        parse_i64(&sub_element_cdata(self.element(), "DEFAULT-VALUE")?)
    }

    /// set the min value of the integer parameter
    pub fn set_min(&self, min: Option<i64>) -> (r: Result<(), AutosarAbstractionError>)
        ensures
            r matches Err(e) ==> is_model_or_name_error(e, "MIN"@),
    {
        match min {
            Some(v) => {
                let text = signed_decimal_text(v);
                set_optional_text(self.element(), "MIN", Some(text.as_str()))
            },
            None => set_optional_text(self.element(), "MIN", None),
        }
    }

    /// get the min value of the integer parameter
    pub fn min(&self) -> Option<i64> {
        parse_i64(&sub_element_cdata(self.element(), "MIN")?)
    }

    /// set the max value of the integer parameter
    pub fn set_max(&self, max: Option<i64>) -> (r: Result<(), AutosarAbstractionError>)
        ensures
            r matches Err(e) ==> is_model_or_name_error(e, "MAX"@),
    {
        match max {
            Some(v) => {
                let text = signed_decimal_text(v);
                set_optional_text(self.element(), "MAX", Some(text.as_str()))
            },
            None => set_optional_text(self.element(), "MAX", None),
        }
    }

    /// get the max value of the integer parameter
    pub fn max(&self) -> Option<i64> {
        parse_i64(&sub_element_cdata(self.element(), "MAX")?)
    }
}

//#########################################################

/// `EcucFunctionNameDef` is used to specify a function name parameter in the ECU configuration
#[derive(Debug, Clone, PartialEq, Eq, Hash)]
pub struct EcucFunctionNameDef(Element);

impl AbstractionElement for EcucFunctionNameDef {
    closed spec fn spec_element(&self) -> Element {
        self.0
    }

    fn element(&self) -> (r: &Element) {
        proof {
            assert(self.spec_element() == self.0);
        }
        &self.0
    }
}

impl EcucFunctionNameDef {
    /// wrap an element of the model whose element name is `ECUC-FUNCTION-NAME-DEF`
    pub fn from_element(element: Element) -> (r: Result<Self, AutosarAbstractionError>)
        ensures
            r is Ok <==> spec_element_name(element) == "ECUC-FUNCTION-NAME-DEF"@,
            r matches Ok(x) ==> x.spec_element() == element,
            r matches Err(e) ==> is_conversion_error(e, element, "EcucFunctionNameDef"@),
    {
        if has_element_name(&element, "ECUC-FUNCTION-NAME-DEF") {
            Ok(EcucFunctionNameDef(element))
        } else {
            Err(AutosarAbstractionError::ConversionError { element, dest: "EcucFunctionNameDef".to_owned() })
        }
    }
}

impl TryFrom<Element> for EcucFunctionNameDef {
    type Error = AutosarAbstractionError;

    fn try_from(element: Element) -> (r: Result<Self, Self::Error>)
        ensures
            r is Ok <==> spec_element_name(element) == "ECUC-FUNCTION-NAME-DEF"@,
            r matches Ok(x) ==> x.spec_element() == element,
            r matches Err(e) ==> is_conversion_error(e, element, "EcucFunctionNameDef"@),
    {
        EcucFunctionNameDef::from_element(element)
    }
}

impl TryFromSpecImpl<Element> for EcucFunctionNameDef {
    open spec fn obeys_try_from_spec() -> bool {
        false
    }

    open spec fn try_from_spec(v: Element) -> Result<Self, AutosarAbstractionError> {
        arbitrary()
    }
}

impl From<EcucFunctionNameDef> for Element {
    fn from(value: EcucFunctionNameDef) -> (r: Element)
        ensures
            r == value.spec_element(),
    {
        value.0
    }
}

impl FromSpecImpl<EcucFunctionNameDef> for Element {
    open spec fn obeys_from_spec() -> bool {
        false
    }

    open spec fn from_spec(v: EcucFunctionNameDef) -> Element {
        arbitrary()
    }
}

impl IdentifiableAbstractionElement for EcucFunctionNameDef {}

impl EcucCommonAttributes for EcucFunctionNameDef {}

impl EcucDefinitionElement for EcucFunctionNameDef {}

impl EcucParamDef for EcucFunctionNameDef {}

impl EcucFunctionNameDef {
    /// create a new `EcucFunctionNameDef` in a PARAMETERS element
    pub fn new(name: &str, parent: &Element, origin: &str) -> (r: Result<Self, AutosarAbstractionError>)
        ensures
            r matches Ok(x) ==> spec_element_name(x.spec_element()) == "ECUC-FUNCTION-NAME-DEF"@,
            r matches Err(e) ==> e is ModelError || e is InvalidParameter,
    {
        let elem = create_named_sub_element(parent, "ECUC-FUNCTION-NAME-DEF", name)?;
        let def = Self(elem);
        def.set_origin(origin)?;
        Ok(def)
    }
}

impl EcucAbstractStringParamDef for EcucFunctionNameDef {
    fn set_max_length(&self, max_length: Option<u32>) -> (r: Result<(), AutosarAbstractionError>) {
        set_length_attribute(self.element(), "ECUC-FUNCTION-NAME-DEF-VARIANTS", "ECUC-FUNCTION-NAME-DEF-CONDITIONAL", "MAX-LENGTH", max_length)
    }

    fn max_length(&self) -> Option<u32> {
        length_attribute(self.element(), "ECUC-FUNCTION-NAME-DEF-VARIANTS", "ECUC-FUNCTION-NAME-DEF-CONDITIONAL", "MAX-LENGTH")
    }

    fn set_min_length(&self, min_length: Option<u32>) -> (r: Result<(), AutosarAbstractionError>) {
        set_length_attribute(self.element(), "ECUC-FUNCTION-NAME-DEF-VARIANTS", "ECUC-FUNCTION-NAME-DEF-CONDITIONAL", "MIN-LENGTH", min_length)
    }

    fn min_length(&self) -> Option<u32> {
        length_attribute(self.element(), "ECUC-FUNCTION-NAME-DEF-VARIANTS", "ECUC-FUNCTION-NAME-DEF-CONDITIONAL", "MIN-LENGTH")
    }

    fn set_regular_expression(&self, regular_expression: Option<&str>) -> (r: Result<(), AutosarAbstractionError>) {
        set_string_attribute(self.element(), "ECUC-FUNCTION-NAME-DEF-VARIANTS", "ECUC-FUNCTION-NAME-DEF-CONDITIONAL", "REGULAR-EXPRESSION", regular_expression)
    }

    fn regular_expression(&self) -> Option<String> {
        string_attribute(self.element(), "ECUC-FUNCTION-NAME-DEF-VARIANTS", "ECUC-FUNCTION-NAME-DEF-CONDITIONAL", "REGULAR-EXPRESSION")
    }

    fn set_default_value(&self, default_value: Option<&str>) -> (r: Result<(), AutosarAbstractionError>) {
        set_string_attribute(self.element(), "ECUC-FUNCTION-NAME-DEF-VARIANTS", "ECUC-FUNCTION-NAME-DEF-CONDITIONAL", "DEFAULT-VALUE", default_value)
    }

    fn default_value(&self) -> Option<String> {
        string_attribute(self.element(), "ECUC-FUNCTION-NAME-DEF-VARIANTS", "ECUC-FUNCTION-NAME-DEF-CONDITIONAL", "DEFAULT-VALUE")
    }
}

impl EcucTextualParamDef for EcucFunctionNameDef {}

//#########################################################

/// `EcucLinkerSymbolDef` is used to specify a linker symbol parameter in the ECU configuration
#[derive(Debug, Clone, PartialEq, Eq, Hash)]
pub struct EcucLinkerSymbolDef(Element);

impl AbstractionElement for EcucLinkerSymbolDef {
    closed spec fn spec_element(&self) -> Element {
        self.0
    }

    fn element(&self) -> (r: &Element) {
        proof {
            assert(self.spec_element() == self.0);
        }
        &self.0
    }
}

impl EcucLinkerSymbolDef {
    /// wrap an element of the model whose element name is `ECUC-LINKER-SYMBOL-DEF`
    pub fn from_element(element: Element) -> (r: Result<Self, AutosarAbstractionError>)
        ensures
            r is Ok <==> spec_element_name(element) == "ECUC-LINKER-SYMBOL-DEF"@,
            r matches Ok(x) ==> x.spec_element() == element,
            r matches Err(e) ==> is_conversion_error(e, element, "EcucLinkerSymbolDef"@),
    {
        if has_element_name(&element, "ECUC-LINKER-SYMBOL-DEF") {
            Ok(EcucLinkerSymbolDef(element))
        } else {
            Err(AutosarAbstractionError::ConversionError { element, dest: "EcucLinkerSymbolDef".to_owned() })
        }
    }
}

impl TryFrom<Element> for EcucLinkerSymbolDef {
    type Error = AutosarAbstractionError;

    fn try_from(element: Element) -> (r: Result<Self, Self::Error>)
        ensures
            r is Ok <==> spec_element_name(element) == "ECUC-LINKER-SYMBOL-DEF"@,
            r matches Ok(x) ==> x.spec_element() == element,
            r matches Err(e) ==> is_conversion_error(e, element, "EcucLinkerSymbolDef"@),
    {
        EcucLinkerSymbolDef::from_element(element)
    }
}

impl TryFromSpecImpl<Element> for EcucLinkerSymbolDef {
    open spec fn obeys_try_from_spec() -> bool {
        false
    }

    open spec fn try_from_spec(v: Element) -> Result<Self, AutosarAbstractionError> {
        arbitrary()
    }
}

impl From<EcucLinkerSymbolDef> for Element {
    fn from(value: EcucLinkerSymbolDef) -> (r: Element)
        ensures
            r == value.spec_element(),
    {
        value.0
    }
}

impl FromSpecImpl<EcucLinkerSymbolDef> for Element {
    open spec fn obeys_from_spec() -> bool {
        false
    }

    open spec fn from_spec(v: EcucLinkerSymbolDef) -> Element {
        arbitrary()
    }
}

impl IdentifiableAbstractionElement for EcucLinkerSymbolDef {}

impl EcucCommonAttributes for EcucLinkerSymbolDef {}

impl EcucDefinitionElement for EcucLinkerSymbolDef {}

impl EcucParamDef for EcucLinkerSymbolDef {}

impl EcucLinkerSymbolDef {
    /// create a new `EcucLinkerSymbolDef` in a PARAMETERS element
    pub fn new(name: &str, parent: &Element, origin: &str) -> (r: Result<Self, AutosarAbstractionError>)
        ensures
            r matches Ok(x) ==> spec_element_name(x.spec_element()) == "ECUC-LINKER-SYMBOL-DEF"@,
            r matches Err(e) ==> e is ModelError || e is InvalidParameter,
    {
        let elem = create_named_sub_element(parent, "ECUC-LINKER-SYMBOL-DEF", name)?;
        let def = Self(elem);
        def.set_origin(origin)?;
        Ok(def)
    }
}

impl EcucAbstractStringParamDef for EcucLinkerSymbolDef {
    fn set_max_length(&self, max_length: Option<u32>) -> (r: Result<(), AutosarAbstractionError>) {
        set_length_attribute(self.element(), "ECUC-LINKER-SYMBOL-DEF-VARIANTS", "ECUC-LINKER-SYMBOL-DEF-CONDITIONAL", "MAX-LENGTH", max_length)
    }

    fn max_length(&self) -> Option<u32> {
        length_attribute(self.element(), "ECUC-LINKER-SYMBOL-DEF-VARIANTS", "ECUC-LINKER-SYMBOL-DEF-CONDITIONAL", "MAX-LENGTH")
    }

    fn set_min_length(&self, min_length: Option<u32>) -> (r: Result<(), AutosarAbstractionError>) {
        set_length_attribute(self.element(), "ECUC-LINKER-SYMBOL-DEF-VARIANTS", "ECUC-LINKER-SYMBOL-DEF-CONDITIONAL", "MIN-LENGTH", min_length)
    }

    fn min_length(&self) -> Option<u32> {
        length_attribute(self.element(), "ECUC-LINKER-SYMBOL-DEF-VARIANTS", "ECUC-LINKER-SYMBOL-DEF-CONDITIONAL", "MIN-LENGTH")
    }

    fn set_regular_expression(&self, regular_expression: Option<&str>) -> (r: Result<(), AutosarAbstractionError>) {
        set_string_attribute(self.element(), "ECUC-LINKER-SYMBOL-DEF-VARIANTS", "ECUC-LINKER-SYMBOL-DEF-CONDITIONAL", "REGULAR-EXPRESSION", regular_expression)
    }

    fn regular_expression(&self) -> Option<String> {
        string_attribute(self.element(), "ECUC-LINKER-SYMBOL-DEF-VARIANTS", "ECUC-LINKER-SYMBOL-DEF-CONDITIONAL", "REGULAR-EXPRESSION")
    }

    fn set_default_value(&self, default_value: Option<&str>) -> (r: Result<(), AutosarAbstractionError>) {
        set_string_attribute(self.element(), "ECUC-LINKER-SYMBOL-DEF-VARIANTS", "ECUC-LINKER-SYMBOL-DEF-CONDITIONAL", "DEFAULT-VALUE", default_value)
    }

    fn default_value(&self) -> Option<String> {
        string_attribute(self.element(), "ECUC-LINKER-SYMBOL-DEF-VARIANTS", "ECUC-LINKER-SYMBOL-DEF-CONDITIONAL", "DEFAULT-VALUE")
    }
}

impl EcucTextualParamDef for EcucLinkerSymbolDef {}

//#########################################################

/// `EcucMultilineStringParamDef` is used to specify a multiline string parameter in the ECU configuration
#[derive(Debug, Clone, PartialEq, Eq, Hash)]
pub struct EcucMultilineStringParamDef(Element);

impl AbstractionElement for EcucMultilineStringParamDef {
    closed spec fn spec_element(&self) -> Element {
        self.0
    }

    fn element(&self) -> (r: &Element) {
        proof {
            assert(self.spec_element() == self.0);
        }
        &self.0
    }
}

impl EcucMultilineStringParamDef {
    /// wrap an element of the model whose element name is `ECUC-MULTILINE-STRING-PARAM-DEF`
    pub fn from_element(element: Element) -> (r: Result<Self, AutosarAbstractionError>)
        ensures
            r is Ok <==> spec_element_name(element) == "ECUC-MULTILINE-STRING-PARAM-DEF"@,
            r matches Ok(x) ==> x.spec_element() == element,
            r matches Err(e) ==> is_conversion_error(e, element, "EcucMultilineStringParamDef"@),
    {
        if has_element_name(&element, "ECUC-MULTILINE-STRING-PARAM-DEF") {
            Ok(EcucMultilineStringParamDef(element))
        } else {
            Err(AutosarAbstractionError::ConversionError { element, dest: "EcucMultilineStringParamDef".to_owned() })
        }
    }
}

impl TryFrom<Element> for EcucMultilineStringParamDef {
    type Error = AutosarAbstractionError;

    fn try_from(element: Element) -> (r: Result<Self, Self::Error>)
        ensures
            r is Ok <==> spec_element_name(element) == "ECUC-MULTILINE-STRING-PARAM-DEF"@,
            r matches Ok(x) ==> x.spec_element() == element,
            r matches Err(e) ==> is_conversion_error(e, element, "EcucMultilineStringParamDef"@),
    {
        EcucMultilineStringParamDef::from_element(element)
    }
}

impl TryFromSpecImpl<Element> for EcucMultilineStringParamDef {
    open spec fn obeys_try_from_spec() -> bool {
        false
    }

    open spec fn try_from_spec(v: Element) -> Result<Self, AutosarAbstractionError> {
        arbitrary()
    }
}

impl From<EcucMultilineStringParamDef> for Element {
    fn from(value: EcucMultilineStringParamDef) -> (r: Element)
        ensures
            r == value.spec_element(),
    {
        value.0
    }
}

impl FromSpecImpl<EcucMultilineStringParamDef> for Element {
    open spec fn obeys_from_spec() -> bool {
        false
    }

    open spec fn from_spec(v: EcucMultilineStringParamDef) -> Element {
        arbitrary()
    }
}

impl IdentifiableAbstractionElement for EcucMultilineStringParamDef {}

impl EcucCommonAttributes for EcucMultilineStringParamDef {}

impl EcucDefinitionElement for EcucMultilineStringParamDef {}

impl EcucParamDef for EcucMultilineStringParamDef {}

impl EcucMultilineStringParamDef {
    /// create a new `EcucMultilineStringParamDef` in a PARAMETERS element
    pub fn new(name: &str, parent: &Element, origin: &str) -> (r: Result<Self, AutosarAbstractionError>)
        ensures
            r matches Ok(x) ==> spec_element_name(x.spec_element()) == "ECUC-MULTILINE-STRING-PARAM-DEF"@,
            r matches Err(e) ==> e is ModelError || e is InvalidParameter,
    {
        let elem = create_named_sub_element(parent, "ECUC-MULTILINE-STRING-PARAM-DEF", name)?;
        let def = Self(elem);
        def.set_origin(origin)?;
        Ok(def)
    }
}

impl EcucAbstractStringParamDef for EcucMultilineStringParamDef {
    fn set_max_length(&self, max_length: Option<u32>) -> (r: Result<(), AutosarAbstractionError>) {
        set_length_attribute(self.element(), "ECUC-MULTILINE-STRING-PARAM-DEF-VARIANTS", "ECUC-MULTILINE-STRING-PARAM-DEF-CONDITIONAL", "MAX-LENGTH", max_length)
    }

    fn max_length(&self) -> Option<u32> {
        length_attribute(self.element(), "ECUC-MULTILINE-STRING-PARAM-DEF-VARIANTS", "ECUC-MULTILINE-STRING-PARAM-DEF-CONDITIONAL", "MAX-LENGTH")
    }

    fn set_min_length(&self, min_length: Option<u32>) -> (r: Result<(), AutosarAbstractionError>) {
        set_length_attribute(self.element(), "ECUC-MULTILINE-STRING-PARAM-DEF-VARIANTS", "ECUC-MULTILINE-STRING-PARAM-DEF-CONDITIONAL", "MIN-LENGTH", min_length)
    }

    fn min_length(&self) -> Option<u32> {
        length_attribute(self.element(), "ECUC-MULTILINE-STRING-PARAM-DEF-VARIANTS", "ECUC-MULTILINE-STRING-PARAM-DEF-CONDITIONAL", "MIN-LENGTH")
    }

    fn set_regular_expression(&self, regular_expression: Option<&str>) -> (r: Result<(), AutosarAbstractionError>) {
        set_string_attribute(self.element(), "ECUC-MULTILINE-STRING-PARAM-DEF-VARIANTS", "ECUC-MULTILINE-STRING-PARAM-DEF-CONDITIONAL", "REGULAR-EXPRESSION", regular_expression)
    }

    fn regular_expression(&self) -> Option<String> {
        string_attribute(self.element(), "ECUC-MULTILINE-STRING-PARAM-DEF-VARIANTS", "ECUC-MULTILINE-STRING-PARAM-DEF-CONDITIONAL", "REGULAR-EXPRESSION")
    }

    fn set_default_value(&self, default_value: Option<&str>) -> (r: Result<(), AutosarAbstractionError>) {
        set_string_attribute(self.element(), "ECUC-MULTILINE-STRING-PARAM-DEF-VARIANTS", "ECUC-MULTILINE-STRING-PARAM-DEF-CONDITIONAL", "DEFAULT-VALUE", default_value)
    }

    fn default_value(&self) -> Option<String> {
        string_attribute(self.element(), "ECUC-MULTILINE-STRING-PARAM-DEF-VARIANTS", "ECUC-MULTILINE-STRING-PARAM-DEF-CONDITIONAL", "DEFAULT-VALUE")
    }
}

impl EcucTextualParamDef for EcucMultilineStringParamDef {}

//#########################################################

/// `EcucStringParamDef` is used to specify a string parameter in the ECU configuration
#[derive(Debug, Clone, PartialEq, Eq, Hash)]
pub struct EcucStringParamDef(Element);

impl AbstractionElement for EcucStringParamDef {
    closed spec fn spec_element(&self) -> Element {
        self.0
    }

    fn element(&self) -> (r: &Element) {
        proof {
            assert(self.spec_element() == self.0);
        }
        &self.0
    }
}

impl EcucStringParamDef {
    /// wrap an element of the model whose element name is `ECUC-STRING-PARAM-DEF`
    pub fn from_element(element: Element) -> (r: Result<Self, AutosarAbstractionError>)
        ensures
            r is Ok <==> spec_element_name(element) == "ECUC-STRING-PARAM-DEF"@,
            r matches Ok(x) ==> x.spec_element() == element,
            r matches Err(e) ==> is_conversion_error(e, element, "EcucStringParamDef"@),
    {
        if has_element_name(&element, "ECUC-STRING-PARAM-DEF") {
            Ok(EcucStringParamDef(element))
        } else {
            Err(AutosarAbstractionError::ConversionError { element, dest: "EcucStringParamDef".to_owned() })
        }
    }
}

impl TryFrom<Element> for EcucStringParamDef {
    type Error = AutosarAbstractionError;

    fn try_from(element: Element) -> (r: Result<Self, Self::Error>)
        ensures
            r is Ok <==> spec_element_name(element) == "ECUC-STRING-PARAM-DEF"@,
            r matches Ok(x) ==> x.spec_element() == element,
            r matches Err(e) ==> is_conversion_error(e, element, "EcucStringParamDef"@),
    {
        EcucStringParamDef::from_element(element)
    }
}

impl TryFromSpecImpl<Element> for EcucStringParamDef {
    open spec fn obeys_try_from_spec() -> bool {
        false
    }

    open spec fn try_from_spec(v: Element) -> Result<Self, AutosarAbstractionError> {
        arbitrary()
    }
}

impl From<EcucStringParamDef> for Element {
    fn from(value: EcucStringParamDef) -> (r: Element)
        ensures
            r == value.spec_element(),
    {
        value.0
    }
}

impl FromSpecImpl<EcucStringParamDef> for Element {
    open spec fn obeys_from_spec() -> bool {
        false
    }

    open spec fn from_spec(v: EcucStringParamDef) -> Element {
        arbitrary()
    }
}

impl IdentifiableAbstractionElement for EcucStringParamDef {}

impl EcucCommonAttributes for EcucStringParamDef {}

impl EcucDefinitionElement for EcucStringParamDef {}

impl EcucParamDef for EcucStringParamDef {}

impl EcucStringParamDef {
    /// create a new `EcucStringParamDef` in a PARAMETERS element
    pub fn new(name: &str, parent: &Element, origin: &str) -> (r: Result<Self, AutosarAbstractionError>)
        ensures
            r matches Ok(x) ==> spec_element_name(x.spec_element()) == "ECUC-STRING-PARAM-DEF"@,
            r matches Err(e) ==> e is ModelError || e is InvalidParameter,
    {
        let elem = create_named_sub_element(parent, "ECUC-STRING-PARAM-DEF", name)?;
        let def = Self(elem);
        def.set_origin(origin)?;
        Ok(def)
    }
}

impl EcucAbstractStringParamDef for EcucStringParamDef {
    fn set_max_length(&self, max_length: Option<u32>) -> (r: Result<(), AutosarAbstractionError>) {
        set_length_attribute(self.element(), "ECUC-STRING-PARAM-DEF-VARIANTS", "ECUC-STRING-PARAM-DEF-CONDITIONAL", "MAX-LENGTH", max_length)
    }

    fn max_length(&self) -> Option<u32> {
        length_attribute(self.element(), "ECUC-STRING-PARAM-DEF-VARIANTS", "ECUC-STRING-PARAM-DEF-CONDITIONAL", "MAX-LENGTH")
    }

    fn set_min_length(&self, min_length: Option<u32>) -> (r: Result<(), AutosarAbstractionError>) {
        set_length_attribute(self.element(), "ECUC-STRING-PARAM-DEF-VARIANTS", "ECUC-STRING-PARAM-DEF-CONDITIONAL", "MIN-LENGTH", min_length)
    }

    fn min_length(&self) -> Option<u32> {
        length_attribute(self.element(), "ECUC-STRING-PARAM-DEF-VARIANTS", "ECUC-STRING-PARAM-DEF-CONDITIONAL", "MIN-LENGTH")
    }

    fn set_regular_expression(&self, regular_expression: Option<&str>) -> (r: Result<(), AutosarAbstractionError>) {
        set_string_attribute(self.element(), "ECUC-STRING-PARAM-DEF-VARIANTS", "ECUC-STRING-PARAM-DEF-CONDITIONAL", "REGULAR-EXPRESSION", regular_expression)
    }

    fn regular_expression(&self) -> Option<String> {
        string_attribute(self.element(), "ECUC-STRING-PARAM-DEF-VARIANTS", "ECUC-STRING-PARAM-DEF-CONDITIONAL", "REGULAR-EXPRESSION")
    }

    fn set_default_value(&self, default_value: Option<&str>) -> (r: Result<(), AutosarAbstractionError>) {
        set_string_attribute(self.element(), "ECUC-STRING-PARAM-DEF-VARIANTS", "ECUC-STRING-PARAM-DEF-CONDITIONAL", "DEFAULT-VALUE", default_value)
    }

    fn default_value(&self) -> Option<String> {
        string_attribute(self.element(), "ECUC-STRING-PARAM-DEF-VARIANTS", "ECUC-STRING-PARAM-DEF-CONDITIONAL", "DEFAULT-VALUE")
    }
}

impl EcucTextualParamDef for EcucStringParamDef {}

//#########################################################

/// `EcucParameterDef` encapsulates all possible parameter types in the ECU configuration
#[derive(Debug, Clone, PartialEq, Eq, Hash)]
pub enum EcucParameterDef {
    /// AddInfo parameter
    AddInfo(EcucAddInfoParamDef),
    /// Boolean parameter
    Boolean(EcucBooleanParamDef),
    /// Enumeration parameter
    Enumeration(EcucEnumerationParamDef),
    /// Float parameter
    Float(EcucFloatParamDef),
    /// Integer parameter
    Integer(EcucIntegerParamDef),
    /// FunctionName parameter
    FunctionName(EcucFunctionNameDef),
    /// LinkerSymbol parameter
    LinkerSymbol(EcucLinkerSymbolDef),
    /// MultilineString parameter
    MultilineString(EcucMultilineStringParamDef),
    /// String parameter
    String(EcucStringParamDef),
}

impl AbstractionElement for EcucParameterDef {
    open spec fn spec_element(&self) -> Element {
        match self {
            EcucParameterDef::AddInfo(inner) => inner.spec_element(),
            EcucParameterDef::Boolean(inner) => inner.spec_element(),
            EcucParameterDef::Enumeration(inner) => inner.spec_element(),
            EcucParameterDef::Float(inner) => inner.spec_element(),
            EcucParameterDef::Integer(inner) => inner.spec_element(),
            EcucParameterDef::FunctionName(inner) => inner.spec_element(),
            EcucParameterDef::LinkerSymbol(inner) => inner.spec_element(),
            EcucParameterDef::MultilineString(inner) => inner.spec_element(),
            EcucParameterDef::String(inner) => inner.spec_element(),
        }
    }

    fn element(&self) -> (r: &Element) {
        match self {
            EcucParameterDef::AddInfo(inner) => {
                proof {
                    assert(self.spec_element() == inner.spec_element());
                }
                inner.element()
            },
            EcucParameterDef::Boolean(inner) => {
                proof {
                    assert(self.spec_element() == inner.spec_element());
                }
                inner.element()
            },
            EcucParameterDef::Enumeration(inner) => {
                proof {
                    assert(self.spec_element() == inner.spec_element());
                }
                inner.element()
            },
            EcucParameterDef::Float(inner) => {
                proof {
                    assert(self.spec_element() == inner.spec_element());
                }
                inner.element()
            },
            EcucParameterDef::Integer(inner) => {
                proof {
                    assert(self.spec_element() == inner.spec_element());
                }
                inner.element()
            },
            EcucParameterDef::FunctionName(inner) => {
                proof {
                    assert(self.spec_element() == inner.spec_element());
                }
                inner.element()
            },
            EcucParameterDef::LinkerSymbol(inner) => {
                proof {
                    assert(self.spec_element() == inner.spec_element());
                }
                inner.element()
            },
            EcucParameterDef::MultilineString(inner) => {
                proof {
                    assert(self.spec_element() == inner.spec_element());
                }
                inner.element()
            },
            EcucParameterDef::String(inner) => {
                proof {
                    assert(self.spec_element() == inner.spec_element());
                }
                inner.element()
            },
        }
    }
}

impl EcucParameterDef {
    /// the element names of the elements that this type wraps
    pub open spec fn spec_is_wrapped_name(n: Seq<char>) -> bool {
        n == "ECUC-ADD-INFO-PARAM-DEF"@
            || n == "ECUC-BOOLEAN-PARAM-DEF"@
            || n == "ECUC-ENUMERATION-PARAM-DEF"@
            || n == "ECUC-FLOAT-PARAM-DEF"@
            || n == "ECUC-INTEGER-PARAM-DEF"@
            || n == "ECUC-FUNCTION-NAME-DEF"@
            || n == "ECUC-LINKER-SYMBOL-DEF"@
            || n == "ECUC-MULTILINE-STRING-PARAM-DEF"@
            || n == "ECUC-STRING-PARAM-DEF"@
    }

    /// wrap an element of the model, by its element name
    pub fn from_element(element: Element) -> (r: Result<Self, AutosarAbstractionError>)
        ensures
            r is Ok <==> Self::spec_is_wrapped_name(spec_element_name(element)),
            r matches Ok(x) ==> x.spec_element() == element,
            r matches Err(e) ==> is_conversion_error(e, element, "EcucParameterDef"@),
    {
        if has_element_name(&element, "ECUC-ADD-INFO-PARAM-DEF") {
            Ok(EcucParameterDef::AddInfo(EcucAddInfoParamDef(element)))
        } else if has_element_name(&element, "ECUC-BOOLEAN-PARAM-DEF") {
            Ok(EcucParameterDef::Boolean(EcucBooleanParamDef(element)))
        } else if has_element_name(&element, "ECUC-ENUMERATION-PARAM-DEF") {
            Ok(EcucParameterDef::Enumeration(EcucEnumerationParamDef(element)))
        } else if has_element_name(&element, "ECUC-FLOAT-PARAM-DEF") {
            Ok(EcucParameterDef::Float(EcucFloatParamDef(element)))
        } else if has_element_name(&element, "ECUC-INTEGER-PARAM-DEF") {
            Ok(EcucParameterDef::Integer(EcucIntegerParamDef(element)))
        } else if has_element_name(&element, "ECUC-FUNCTION-NAME-DEF") {
            Ok(EcucParameterDef::FunctionName(EcucFunctionNameDef(element)))
        } else if has_element_name(&element, "ECUC-LINKER-SYMBOL-DEF") {
            Ok(EcucParameterDef::LinkerSymbol(EcucLinkerSymbolDef(element)))
        } else if has_element_name(&element, "ECUC-MULTILINE-STRING-PARAM-DEF") {
            Ok(EcucParameterDef::MultilineString(EcucMultilineStringParamDef(element)))
        } else if has_element_name(&element, "ECUC-STRING-PARAM-DEF") {
            Ok(EcucParameterDef::String(EcucStringParamDef(element)))
        } else {
            Err(AutosarAbstractionError::ConversionError { element, dest: "EcucParameterDef".to_owned() })
        }
    }
}

impl TryFrom<Element> for EcucParameterDef {
    type Error = AutosarAbstractionError;

    fn try_from(element: Element) -> (r: Result<Self, Self::Error>)
        ensures
            r is Ok <==> Self::spec_is_wrapped_name(spec_element_name(element)),
            r matches Ok(x) ==> x.spec_element() == element,
            r matches Err(e) ==> is_conversion_error(e, element, "EcucParameterDef"@),
    {
        EcucParameterDef::from_element(element)
    }
}

impl TryFromSpecImpl<Element> for EcucParameterDef {
    open spec fn obeys_try_from_spec() -> bool {
        false
    }

    open spec fn try_from_spec(v: Element) -> Result<Self, AutosarAbstractionError> {
        arbitrary()
    }
}

impl IdentifiableAbstractionElement for EcucParameterDef {}

impl EcucDefinitionElement for EcucParameterDef {}

impl EcucCommonAttributes for EcucParameterDef {}

impl EcucParamDef for EcucParameterDef {}

} // verus!
