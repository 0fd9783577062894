//! Reference definitions of the ECU configuration.

use vstd::prelude::*;
use crate::elements::is_model_or_name_error;
use autosar_data::Element;
use vstd::std_specs::convert::{FromSpecImpl, TryFromSpecImpl};
use crate::{
    AbstractionElement, AutosarAbstractionError, IdentifiableAbstractionElement, has_element_name,
    is_conversion_error,
};
use crate::ecu_configuration::{
    AbstractEcucContainerDef, EcucCommonAttributes, EcucContainerDef, EcucDefinitionElement, EcucDestinationUriDef,
};
use crate::accessors::set_optional_text;
use crate::elements::{
    create_named_sub_element, create_sub_element, get_or_create_sub_element, get_reference_target, get_sub_element,
    remove_sub_element_kind, set_reference_target, spec_element_name, sub_elements,
};
use crate::values::sub_element_string;

verus! {

/// marker trait for all reference definitions
pub trait AbstractEcucReferenceDef: AbstractionElement + EcucCommonAttributes + EcucDefinitionElement {}

/// the container definition that a reference element refers to, if it is one
fn referenced_container(ref_elem: &Element) -> (r: Option<EcucContainerDef>)
    ensures
        r matches Some(x) ==> EcucContainerDef::spec_is_wrapped_name(spec_element_name(x.spec_element())),
{
    match get_reference_target(ref_elem) {
        Ok(target) => match EcucContainerDef::from_element(target) {
            Ok(container) => Some(container),
            Err(_) => None,
        },
        Err(_) => None,
    }
}

//#########################################################

/// The `EcucForeignReferenceDef` specifies a reference to an XML description of an entity
/// described in another AUTOSAR template.
#[derive(Debug, Clone, PartialEq, Eq, Hash)]
pub struct EcucForeignReferenceDef(Element);

impl AbstractionElement for EcucForeignReferenceDef {
    closed spec fn spec_element(&self) -> Element {
        self.0
    }

    fn element(&self) -> (r: &Element) {
        proof {
            assert(self.spec_element() == self.0);
        }
        &self.0
    }
}

impl EcucForeignReferenceDef {
    /// wrap an element of the model whose element name is `ECUC-FOREIGN-REFERENCE-DEF`
    pub fn from_element(element: Element) -> (r: Result<Self, AutosarAbstractionError>)
        ensures
            r is Ok <==> spec_element_name(element) == "ECUC-FOREIGN-REFERENCE-DEF"@,
            r matches Ok(x) ==> x.spec_element() == element,
            r matches Err(e) ==> is_conversion_error(e, element, "EcucForeignReferenceDef"@),
    {
        if has_element_name(&element, "ECUC-FOREIGN-REFERENCE-DEF") {
            Ok(EcucForeignReferenceDef(element))
        } else {
            Err(AutosarAbstractionError::ConversionError { element, dest: "EcucForeignReferenceDef".to_owned() })
        }
    }
}

impl TryFrom<Element> for EcucForeignReferenceDef {
    type Error = AutosarAbstractionError;

    fn try_from(element: Element) -> (r: Result<Self, Self::Error>)
        ensures
            r is Ok <==> spec_element_name(element) == "ECUC-FOREIGN-REFERENCE-DEF"@,
            r matches Ok(x) ==> x.spec_element() == element,
            r matches Err(e) ==> is_conversion_error(e, element, "EcucForeignReferenceDef"@),
    {
        EcucForeignReferenceDef::from_element(element)
    }
}

impl TryFromSpecImpl<Element> for EcucForeignReferenceDef {
    open spec fn obeys_try_from_spec() -> bool {
        false
    }

    open spec fn try_from_spec(v: Element) -> Result<Self, AutosarAbstractionError> {
        arbitrary()
    }
}

impl From<EcucForeignReferenceDef> for Element {
    fn from(value: EcucForeignReferenceDef) -> (r: Element)
        ensures
            r == value.spec_element(),
    {
        value.0
    }
}

impl FromSpecImpl<EcucForeignReferenceDef> for Element {
    open spec fn obeys_from_spec() -> bool {
        false
    }

    open spec fn from_spec(v: EcucForeignReferenceDef) -> Element {
        arbitrary()
    }
}

impl IdentifiableAbstractionElement for EcucForeignReferenceDef {}

impl EcucCommonAttributes for EcucForeignReferenceDef {}

impl EcucDefinitionElement for EcucForeignReferenceDef {}

impl AbstractEcucReferenceDef for EcucForeignReferenceDef {}

impl EcucForeignReferenceDef {
    /// create a new `EcucForeignReferenceDef` in a REFERENCES element
    pub fn new(name: &str, parent: &Element, origin: &str) -> (r: Result<Self, AutosarAbstractionError>)
        ensures
            r matches Ok(x) ==> spec_element_name(x.spec_element()) == "ECUC-FOREIGN-REFERENCE-DEF"@,
            r matches Err(e) ==> e is ModelError || e is InvalidParameter,
    {
        let elem = create_named_sub_element(parent, "ECUC-FOREIGN-REFERENCE-DEF", name)?;
        let def = Self(elem);
        def.set_origin(origin)?;
        Ok(def)
    }
}

impl EcucForeignReferenceDef {
    /// set the destination type of the reference definition
    pub fn set_destination_type(&self, destination_type: Option<&str>) -> (r: Result<(), AutosarAbstractionError>)
        ensures
            r matches Err(e) ==> is_model_or_name_error(e, "DESTINATION-TYPE"@),
    {
        set_optional_text(self.element(), "DESTINATION-TYPE", destination_type)
    }

    /// get the destination type of the reference definition
    pub fn destination_type(&self) -> Option<String> {
        sub_element_string(self.element(), "DESTINATION-TYPE")
    }
}

//#########################################################

/// The `EcucInstanceReferenceDef` specifies a reference to an XML description of an entity
/// described in another AUTOSAR template using INSTANCE REFERENCE semantics.
#[derive(Debug, Clone, PartialEq, Eq, Hash)]
pub struct EcucInstanceReferenceDef(Element);

impl AbstractionElement for EcucInstanceReferenceDef {
    closed spec fn spec_element(&self) -> Element {
        self.0
    }

    fn element(&self) -> (r: &Element) {
        proof {
            assert(self.spec_element() == self.0);
        }
        &self.0
    }
}

impl EcucInstanceReferenceDef {
    /// wrap an element of the model whose element name is `ECUC-INSTANCE-REFERENCE-DEF`
    pub fn from_element(element: Element) -> (r: Result<Self, AutosarAbstractionError>)
        ensures
            r is Ok <==> spec_element_name(element) == "ECUC-INSTANCE-REFERENCE-DEF"@,
            r matches Ok(x) ==> x.spec_element() == element,
            r matches Err(e) ==> is_conversion_error(e, element, "EcucInstanceReferenceDef"@),
    {
        if has_element_name(&element, "ECUC-INSTANCE-REFERENCE-DEF") {
            Ok(EcucInstanceReferenceDef(element))
        } else {
            Err(AutosarAbstractionError::ConversionError { element, dest: "EcucInstanceReferenceDef".to_owned() })
        }
    }
}

impl TryFrom<Element> for EcucInstanceReferenceDef {
    type Error = AutosarAbstractionError;

    fn try_from(element: Element) -> (r: Result<Self, Self::Error>)
        ensures
            r is Ok <==> spec_element_name(element) == "ECUC-INSTANCE-REFERENCE-DEF"@,
            r matches Ok(x) ==> x.spec_element() == element,
            r matches Err(e) ==> is_conversion_error(e, element, "EcucInstanceReferenceDef"@),
    {
        EcucInstanceReferenceDef::from_element(element)
    }
}

impl TryFromSpecImpl<Element> for EcucInstanceReferenceDef {
    open spec fn obeys_try_from_spec() -> bool {
        false
    }

    open spec fn try_from_spec(v: Element) -> Result<Self, AutosarAbstractionError> {
        arbitrary()
    }
}

impl From<EcucInstanceReferenceDef> for Element {
    fn from(value: EcucInstanceReferenceDef) -> (r: Element)
        ensures
            r == value.spec_element(),
    {
        value.0
    }
}

impl FromSpecImpl<EcucInstanceReferenceDef> for Element {
    open spec fn obeys_from_spec() -> bool {
        false
    }

    open spec fn from_spec(v: EcucInstanceReferenceDef) -> Element {
        arbitrary()
    }
}

impl IdentifiableAbstractionElement for EcucInstanceReferenceDef {}

impl EcucCommonAttributes for EcucInstanceReferenceDef {}

impl EcucDefinitionElement for EcucInstanceReferenceDef {}

impl AbstractEcucReferenceDef for EcucInstanceReferenceDef {}

impl EcucInstanceReferenceDef {
    /// create a new `EcucInstanceReferenceDef` in a REFERENCES element
    pub fn new(name: &str, parent: &Element, origin: &str) -> (r: Result<Self, AutosarAbstractionError>)
        ensures
            r matches Ok(x) ==> spec_element_name(x.spec_element()) == "ECUC-INSTANCE-REFERENCE-DEF"@,
            r matches Err(e) ==> e is ModelError || e is InvalidParameter,
    {
        let elem = create_named_sub_element(parent, "ECUC-INSTANCE-REFERENCE-DEF", name)?;
        let def = Self(elem);
        def.set_origin(origin)?;
        Ok(def)
    }
}

impl EcucInstanceReferenceDef {
    /// set the destination type of the reference definition
    pub fn set_destination_type(&self, destination_type: Option<&str>) -> (r: Result<(), AutosarAbstractionError>)
        ensures
            r matches Err(e) ==> is_model_or_name_error(e, "DESTINATION-TYPE"@),
    {
        set_optional_text(self.element(), "DESTINATION-TYPE", destination_type)
    }

    /// get the destination type of the reference definition
    pub fn destination_type(&self) -> Option<String> {
        sub_element_string(self.element(), "DESTINATION-TYPE")
    }

    /// set the destination context of the reference definition: a string of autosar element names separated by spaces, where '*' marks multiple occurrences of the previous element
    pub fn set_destination_context(&self, destination_context: Option<&str>) -> (r: Result<(), AutosarAbstractionError>)
        ensures
            r matches Err(e) ==> is_model_or_name_error(e, "DESTINATION-CONTEXT"@),
    {
        set_optional_text(self.element(), "DESTINATION-CONTEXT", destination_context)
    }

    /// get the destination context of the reference definition: a string of autosar element names separated by spaces, where '*' marks multiple occurrences of the previous element
    pub fn destination_context(&self) -> Option<String> {
        sub_element_string(self.element(), "DESTINATION-CONTEXT")
    }
}

//#########################################################

/// The `EcucChoiceReferenceDef` specifies alternative references where only one of the specified
/// references will be used in the ECU configuration.
#[derive(Debug, Clone, PartialEq, Eq, Hash)]
pub struct EcucChoiceReferenceDef(Element);

impl AbstractionElement for EcucChoiceReferenceDef {
    closed spec fn spec_element(&self) -> Element {
        self.0
    }

    fn element(&self) -> (r: &Element) {
        proof {
            assert(self.spec_element() == self.0);
        }
        &self.0
    }
}

impl EcucChoiceReferenceDef {
    /// wrap an element of the model whose element name is `ECUC-CHOICE-REFERENCE-DEF`
    pub fn from_element(element: Element) -> (r: Result<Self, AutosarAbstractionError>)
        ensures
            r is Ok <==> spec_element_name(element) == "ECUC-CHOICE-REFERENCE-DEF"@,
            r matches Ok(x) ==> x.spec_element() == element,
            r matches Err(e) ==> is_conversion_error(e, element, "EcucChoiceReferenceDef"@),
    {
        if has_element_name(&element, "ECUC-CHOICE-REFERENCE-DEF") {
            Ok(EcucChoiceReferenceDef(element))
        } else {
            Err(AutosarAbstractionError::ConversionError { element, dest: "EcucChoiceReferenceDef".to_owned() })
        }
    }
}

impl TryFrom<Element> for EcucChoiceReferenceDef {
    type Error = AutosarAbstractionError;

    fn try_from(element: Element) -> (r: Result<Self, Self::Error>)
        ensures
            r is Ok <==> spec_element_name(element) == "ECUC-CHOICE-REFERENCE-DEF"@,
            r matches Ok(x) ==> x.spec_element() == element,
            r matches Err(e) ==> is_conversion_error(e, element, "EcucChoiceReferenceDef"@),
    {
        EcucChoiceReferenceDef::from_element(element)
    }
}

impl TryFromSpecImpl<Element> for EcucChoiceReferenceDef {
    open spec fn obeys_try_from_spec() -> bool {
        false
    }

    open spec fn try_from_spec(v: Element) -> Result<Self, AutosarAbstractionError> {
        arbitrary()
    }
}

impl From<EcucChoiceReferenceDef> for Element {
    fn from(value: EcucChoiceReferenceDef) -> (r: Element)
        ensures
            r == value.spec_element(),
    {
        value.0
    }
}

impl FromSpecImpl<EcucChoiceReferenceDef> for Element {
    open spec fn obeys_from_spec() -> bool {
        false
    }

    open spec fn from_spec(v: EcucChoiceReferenceDef) -> Element {
        arbitrary()
    }
}

impl IdentifiableAbstractionElement for EcucChoiceReferenceDef {}

impl EcucCommonAttributes for EcucChoiceReferenceDef {}

impl EcucDefinitionElement for EcucChoiceReferenceDef {}

impl AbstractEcucReferenceDef for EcucChoiceReferenceDef {}

impl EcucChoiceReferenceDef {
    /// create a new `EcucChoiceReferenceDef` in a REFERENCES element
    pub fn new(name: &str, parent: &Element, origin: &str) -> (r: Result<Self, AutosarAbstractionError>)
        ensures
            r matches Ok(x) ==> spec_element_name(x.spec_element()) == "ECUC-CHOICE-REFERENCE-DEF"@,
            r matches Err(e) ==> e is ModelError || e is InvalidParameter,
    {
        let elem = create_named_sub_element(parent, "ECUC-CHOICE-REFERENCE-DEF", name)?;
        let def = Self(elem);
        def.set_origin(origin)?;
        Ok(def)
    }
}

impl EcucChoiceReferenceDef {
    /// add a reference to a destination container
    pub fn add_destination<T: AbstractEcucContainerDef>(&self, destination: &T) -> (r: Result<(), AutosarAbstractionError>)
        ensures
            r matches Err(e) ==> e is ModelError || e is InvalidParameter,
    {
        let dest_refs = get_or_create_sub_element(self.element(), "DESTINATION-REFS")?;
        let dest_ref = create_sub_element(&dest_refs, "DESTINATION-REF")?;
        set_reference_target(&dest_ref, destination.element())
    }

    /// the destination containers
    pub fn destination_refs(&self) -> (r: Vec<EcucContainerDef>)
        ensures
            forall|i: int| 0 <= i < r.len() ==> EcucContainerDef::spec_is_wrapped_name(spec_element_name(#[trigger] r@[i].spec_element())),
    {
        let mut result: Vec<EcucContainerDef> = Vec::new();
        if let Some(dest_refs) = get_sub_element(self.element(), "DESTINATION-REFS") {
            let subs = sub_elements(&dest_refs);
            for i in 0..subs.len()
                invariant
                    forall|j: int| 0 <= j < result.len() ==> EcucContainerDef::spec_is_wrapped_name(spec_element_name(#[trigger] result@[j].spec_element())),
            {
                if let Some(container) = referenced_container(&subs[i]) {
                    result.push(container);
                }
            }
        }
        result
    }
}

//#########################################################

/// The `EcucReferenceDef` specifies references between parameters in the ECU configuration.
#[derive(Debug, Clone, PartialEq, Eq, Hash)]
pub struct EcucReferenceDef(Element);

impl AbstractionElement for EcucReferenceDef {
    closed spec fn spec_element(&self) -> Element {
        self.0
    }

    fn element(&self) -> (r: &Element) {
        proof {
            assert(self.spec_element() == self.0);
        }
        &self.0
    }
}

impl EcucReferenceDef {
    /// wrap an element of the model whose element name is `ECUC-REFERENCE-DEF`
    pub fn from_element(element: Element) -> (r: Result<Self, AutosarAbstractionError>)
        ensures
            r is Ok <==> spec_element_name(element) == "ECUC-REFERENCE-DEF"@,
            r matches Ok(x) ==> x.spec_element() == element,
            r matches Err(e) ==> is_conversion_error(e, element, "EcucReferenceDef"@),
    {
        if has_element_name(&element, "ECUC-REFERENCE-DEF") {
            Ok(EcucReferenceDef(element))
        } else {
            Err(AutosarAbstractionError::ConversionError { element, dest: "EcucReferenceDef".to_owned() })
        }
    }
}

impl TryFrom<Element> for EcucReferenceDef {
    type Error = AutosarAbstractionError;

    fn try_from(element: Element) -> (r: Result<Self, Self::Error>)
        ensures
            r is Ok <==> spec_element_name(element) == "ECUC-REFERENCE-DEF"@,
            r matches Ok(x) ==> x.spec_element() == element,
            r matches Err(e) ==> is_conversion_error(e, element, "EcucReferenceDef"@),
    {
        EcucReferenceDef::from_element(element)
    }
}

impl TryFromSpecImpl<Element> for EcucReferenceDef {
    open spec fn obeys_try_from_spec() -> bool {
        false
    }

    open spec fn try_from_spec(v: Element) -> Result<Self, AutosarAbstractionError> {
        arbitrary()
    }
}

impl From<EcucReferenceDef> for Element {
    fn from(value: EcucReferenceDef) -> (r: Element)
        ensures
            r == value.spec_element(),
    {
        value.0
    }
}

impl FromSpecImpl<EcucReferenceDef> for Element {
    open spec fn obeys_from_spec() -> bool {
        false
    }

    open spec fn from_spec(v: EcucReferenceDef) -> Element {
        arbitrary()
    }
}

impl IdentifiableAbstractionElement for EcucReferenceDef {}

impl EcucCommonAttributes for EcucReferenceDef {}

impl EcucDefinitionElement for EcucReferenceDef {}

impl AbstractEcucReferenceDef for EcucReferenceDef {}

impl EcucReferenceDef {
    /// create a new `EcucReferenceDef` in a REFERENCES element
    pub fn new(name: &str, parent: &Element, origin: &str) -> (r: Result<Self, AutosarAbstractionError>)
        ensures
            r matches Ok(x) ==> spec_element_name(x.spec_element()) == "ECUC-REFERENCE-DEF"@,
            r matches Err(e) ==> e is ModelError || e is InvalidParameter,
    {
        let elem = create_named_sub_element(parent, "ECUC-REFERENCE-DEF", name)?;
        let def = Self(elem);
        def.set_origin(origin)?;
        Ok(def)
    }
}

impl EcucReferenceDef {
    /// set the destination container of the reference
    pub fn set_destination<T: AbstractEcucContainerDef>(&self, destination: Option<&T>) -> (r: Result<
        (),
        AutosarAbstractionError,
    >)
        ensures
            r matches Err(e) ==> e is ModelError || e is InvalidParameter,
    {
        match destination {
            Some(dest) => {
                let dest_ref = get_or_create_sub_element(self.element(), "DESTINATION-REF")?;
                set_reference_target(&dest_ref, dest.element())
            },
            None => {
                let _ = remove_sub_element_kind(self.element(), "DESTINATION-REF");
                Ok(())
            },
        }
    }

    /// get the destination container of the reference
    pub fn destination(&self) -> Option<EcucContainerDef> {
        referenced_container(&get_sub_element(self.element(), "DESTINATION-REF")?)
    }
}

//#########################################################

/// The `EcucUriReferenceDef` defines a reference with a destination that is specified via a destinationUri
#[derive(Debug, Clone, PartialEq, Eq, Hash)]
pub struct EcucUriReferenceDef(Element);

impl AbstractionElement for EcucUriReferenceDef {
    closed spec fn spec_element(&self) -> Element {
        self.0
    }

    fn element(&self) -> (r: &Element) {
        proof {
            assert(self.spec_element() == self.0);
        }
        &self.0
    }
}

impl EcucUriReferenceDef {
    /// wrap an element of the model whose element name is `ECUC-URI-REFERENCE-DEF`
    pub fn from_element(element: Element) -> (r: Result<Self, AutosarAbstractionError>)
        ensures
            r is Ok <==> spec_element_name(element) == "ECUC-URI-REFERENCE-DEF"@,
            r matches Ok(x) ==> x.spec_element() == element,
            r matches Err(e) ==> is_conversion_error(e, element, "EcucUriReferenceDef"@),
    {
        if has_element_name(&element, "ECUC-URI-REFERENCE-DEF") {
            Ok(EcucUriReferenceDef(element))
        } else {
            Err(AutosarAbstractionError::ConversionError { element, dest: "EcucUriReferenceDef".to_owned() })
        }
    }
}

impl TryFrom<Element> for EcucUriReferenceDef {
    type Error = AutosarAbstractionError;

    fn try_from(element: Element) -> (r: Result<Self, Self::Error>)
        ensures
            r is Ok <==> spec_element_name(element) == "ECUC-URI-REFERENCE-DEF"@,
            r matches Ok(x) ==> x.spec_element() == element,
            r matches Err(e) ==> is_conversion_error(e, element, "EcucUriReferenceDef"@),
    {
        EcucUriReferenceDef::from_element(element)
    }
}

impl TryFromSpecImpl<Element> for EcucUriReferenceDef {
    open spec fn obeys_try_from_spec() -> bool {
        false
    }

    open spec fn try_from_spec(v: Element) -> Result<Self, AutosarAbstractionError> {
        arbitrary()
    }
}

impl From<EcucUriReferenceDef> for Element {
    fn from(value: EcucUriReferenceDef) -> (r: Element)
        ensures
            r == value.spec_element(),
    {
        value.0
    }
}

impl FromSpecImpl<EcucUriReferenceDef> for Element {
    open spec fn obeys_from_spec() -> bool {
        false
    }

    open spec fn from_spec(v: EcucUriReferenceDef) -> Element {
        arbitrary()
    }
}

impl IdentifiableAbstractionElement for EcucUriReferenceDef {}

impl EcucCommonAttributes for EcucUriReferenceDef {}

impl EcucDefinitionElement for EcucUriReferenceDef {}

impl AbstractEcucReferenceDef for EcucUriReferenceDef {}

impl EcucUriReferenceDef {
    /// create a new `EcucUriReferenceDef` in a REFERENCES element
    pub fn new(name: &str, parent: &Element, origin: &str) -> (r: Result<Self, AutosarAbstractionError>)
        ensures
            r matches Ok(x) ==> spec_element_name(x.spec_element()) == "ECUC-URI-REFERENCE-DEF"@,
            r matches Err(e) ==> e is ModelError || e is InvalidParameter,
    {
        let elem = create_named_sub_element(parent, "ECUC-URI-REFERENCE-DEF", name)?;
        let def = Self(elem);
        def.set_origin(origin)?;
        Ok(def)
    }
}

impl EcucUriReferenceDef {
    /// set the destination uri of the reference definition
    pub fn set_destination_uri(&self, destination_uri: Option<&EcucDestinationUriDef>) -> (r: Result<
        (),
        AutosarAbstractionError,
    >)
        ensures
            r matches Err(e) ==> is_model_or_name_error(e, "DESTINATION-URI-REF"@),
    {
        match destination_uri {
            Some(uri) => {
                let uri_ref = get_or_create_sub_element(self.element(), "DESTINATION-URI-REF")?;
                set_reference_target(&uri_ref, uri.element())
            },
            None => {
                let _ = remove_sub_element_kind(self.element(), "DESTINATION-URI-REF");
                Ok(())
            },
        }
    }

    /// get the destination uri of the reference definition
    pub fn destination_uri(&self) -> (r: Option<EcucDestinationUriDef>)
        ensures
            r matches Some(x) ==> spec_element_name(x.spec_element()) == "ECUC-DESTINATION-URI-DEF"@,
    {
        let uri_ref = get_sub_element(self.element(), "DESTINATION-URI-REF")?;
        match get_reference_target(&uri_ref) {
            Ok(target) => match EcucDestinationUriDef::from_element(target) {
                Ok(uri) => Some(uri),
                Err(_) => None,
            },
            Err(_) => None,
        }
    }
}

//#########################################################

/// `EcucAnyReferenceDef` is an an enum of all possible reference definitions
/// It is used as a return type by the iterator over all references in a container
#[derive(Debug, Clone, PartialEq, Eq, Hash)]
pub enum EcucAnyReferenceDef {
    /// the reference is a foreign reference (external reference)
    Foreign(EcucForeignReferenceDef),
    /// the reference is an instance reference (external reference)
    Instance(EcucInstanceReferenceDef),
    /// the reference is a choice reference (internal reference)
    Choice(EcucChoiceReferenceDef),
    /// the reference is a normal reference (internal reference)
    Normal(EcucReferenceDef),
    /// the reference is a uri reference (internal reference)
    Uri(EcucUriReferenceDef),
}

impl AbstractionElement for EcucAnyReferenceDef {
    open spec fn spec_element(&self) -> Element {
        match self {
            EcucAnyReferenceDef::Foreign(inner) => inner.spec_element(),
            EcucAnyReferenceDef::Instance(inner) => inner.spec_element(),
            EcucAnyReferenceDef::Choice(inner) => inner.spec_element(),
            EcucAnyReferenceDef::Normal(inner) => inner.spec_element(),
            EcucAnyReferenceDef::Uri(inner) => inner.spec_element(),
        }
    }

    fn element(&self) -> (r: &Element) {
        match self {
            EcucAnyReferenceDef::Foreign(inner) => {
                proof {
                    assert(self.spec_element() == inner.spec_element());
                }
                inner.element()
            },
            EcucAnyReferenceDef::Instance(inner) => {
                proof {
                    assert(self.spec_element() == inner.spec_element());
                }
                inner.element()
            },
            EcucAnyReferenceDef::Choice(inner) => {
                proof {
                    assert(self.spec_element() == inner.spec_element());
                }
                inner.element()
            },
            EcucAnyReferenceDef::Normal(inner) => {
                proof {
                    assert(self.spec_element() == inner.spec_element());
                }
                inner.element()
            },
            EcucAnyReferenceDef::Uri(inner) => {
                proof {
                    assert(self.spec_element() == inner.spec_element());
                }
                inner.element()
            },
        }
    }
}

impl EcucAnyReferenceDef {
    /// the element names of the elements that this type wraps
    pub open spec fn spec_is_wrapped_name(n: Seq<char>) -> bool {
        n == "ECUC-FOREIGN-REFERENCE-DEF"@
            || n == "ECUC-INSTANCE-REFERENCE-DEF"@
            || n == "ECUC-CHOICE-REFERENCE-DEF"@
            || n == "ECUC-REFERENCE-DEF"@
            || n == "ECUC-URI-REFERENCE-DEF"@
    }

    /// wrap an element of the model, by its element name
    pub fn from_element(element: Element) -> (r: Result<Self, AutosarAbstractionError>)
        ensures
            r is Ok <==> Self::spec_is_wrapped_name(spec_element_name(element)),
            r matches Ok(x) ==> x.spec_element() == element,
            r matches Err(e) ==> is_conversion_error(e, element, "EcucAnyReferenceDef"@),
    {
        if has_element_name(&element, "ECUC-FOREIGN-REFERENCE-DEF") {
            Ok(EcucAnyReferenceDef::Foreign(EcucForeignReferenceDef(element)))
        } else if has_element_name(&element, "ECUC-INSTANCE-REFERENCE-DEF") {
            Ok(EcucAnyReferenceDef::Instance(EcucInstanceReferenceDef(element)))
        } else if has_element_name(&element, "ECUC-CHOICE-REFERENCE-DEF") {
            Ok(EcucAnyReferenceDef::Choice(EcucChoiceReferenceDef(element)))
        } else if has_element_name(&element, "ECUC-REFERENCE-DEF") {
            Ok(EcucAnyReferenceDef::Normal(EcucReferenceDef(element)))
        } else if has_element_name(&element, "ECUC-URI-REFERENCE-DEF") {
            Ok(EcucAnyReferenceDef::Uri(EcucUriReferenceDef(element)))
        } else {
            Err(AutosarAbstractionError::ConversionError { element, dest: "EcucAnyReferenceDef".to_owned() })
        }
    }
}

impl TryFrom<Element> for EcucAnyReferenceDef {
    type Error = AutosarAbstractionError;

    fn try_from(element: Element) -> (r: Result<Self, Self::Error>)
        ensures
            r is Ok <==> Self::spec_is_wrapped_name(spec_element_name(element)),
            r matches Ok(x) ==> x.spec_element() == element,
            r matches Err(e) ==> is_conversion_error(e, element, "EcucAnyReferenceDef"@),
    {
        EcucAnyReferenceDef::from_element(element)
    }
}

impl TryFromSpecImpl<Element> for EcucAnyReferenceDef {
    open spec fn obeys_try_from_spec() -> bool {
        false
    }

    open spec fn try_from_spec(v: Element) -> Result<Self, AutosarAbstractionError> {
        arbitrary()
    }
}

impl IdentifiableAbstractionElement for EcucAnyReferenceDef {}

impl EcucDefinitionElement for EcucAnyReferenceDef {}

impl EcucCommonAttributes for EcucAnyReferenceDef {}

impl AbstractEcucReferenceDef for EcucAnyReferenceDef {}

} // verus!
