use vstd::prelude::*;
use autosar_data::Element;
use vstd::std_specs::convert::{FromSpecImpl, TryFromSpecImpl};
use crate::{
    AbstractionElement, AutosarAbstractionError, IdentifiableAbstractionElement, ArPackage,
    has_element_name, is_conversion_error, is_value_conversion_error,
};
use crate::datatype::{AbstractAutosarDataType, CompuMethod, DataConstr, SwBaseType};
use crate::elements::{
    character_data, create_named_sub_element, create_sub_element, get_or_create_sub_element, get_reference_target,
    get_sub_element, item_name, remove_sub_element_kind, set_character_data_enum, set_character_data_text,
    set_character_data_u64, set_reference_target, spec_element_name, sub_elements,
};
use crate::text::text_equals;
use crate::values::{parse_u32, string_value};

verus! {

/// The nesting depth up to which [`AbstractImplementationDataType::settings`] reads sub-elements.
///
/// Every level of nesting is a distinct element of the model, so no model that fits
/// into memory reaches this depth.
pub const SETTINGS_DEPTH_LIMIT: u64 = 0xffff_ffff_ffff_ffff;

/// Interface for implementation data types, which provides default implementations for common operations
pub trait AbstractImplementationDataType: IdentifiableAbstractionElement {
    /// get the category of this implementation data type
    fn category(&self) -> Option<ImplementationDataCategory> {
        category_of(self.element())
    }

    /// get the sub-elements of this implementation data type
    fn sub_elements(&self) -> Vec<ImplementationDataTypeElement> {
        sub_elements_of(self.element())
    }

    /// get the `SwBaseType` of this implementation data type [category: VALUE]
    fn base_type(&self) -> Option<SwBaseType> {
        base_type_of(self.element())
    }

    /// get the `CompuMethod` of this implementation data type [category: VALUE, `TYPE_REFERENCE`]
    fn compu_method(&self) -> Option<CompuMethod> {
        compu_method_of(self.element())
    }

    /// get the `DataConstr` of this implementation data type [category: VALUE, `TYPE_REFERENCE`]
    fn data_constraint(&self) -> Option<DataConstr> {
        data_constraint_of(self.element())
    }

    /// get the referenced implementation data type [category: `TYPE_REFERENCE`]
    fn referenced_type(&self) -> Option<ImplementationDataType> {
        referenced_type_of(self.element())
    }

    /// get the array size of this implementation data type [category: ARRAY]
    fn array_size(&self) -> Option<u32> {
        array_size_of(self.element())
    }

    /// get the settings of this implementation data type
    ///
    /// What is read is assembled by [`settings_from_parts`].
    fn settings(&self) -> (r: Option<ImplementationDataTypeSettings>)
        ensures
            r matches Some(s) ==> spec_settings_refs_named(s),
    {
        settings_of(self.element(), SETTINGS_DEPTH_LIMIT)
    }
}

/// the category of an element, read from its CATEGORY sub-element
fn category_of(element: &Element) -> Option<ImplementationDataCategory> {
    let category_elem = get_sub_element(element, "CATEGORY")?;
    let text = string_value(character_data(&category_elem)?)?;
    match ImplementationDataCategory::from_text(&text) {
        Ok(category) => Some(category),
        Err(_) => None,
    }
}

fn sub_elements_of(element: &Element) -> (r: Vec<ImplementationDataTypeElement>)
    ensures
        forall|i: int| 0 <= i < r.len() ==> spec_element_name(#[trigger] r@[i].spec_element()) == "IMPLEMENTATION-DATA-TYPE-ELEMENT"@,
{
    let mut result: Vec<ImplementationDataTypeElement> = Vec::new();
    if let Some(container) = get_sub_element(element, "SUB-ELEMENTS") {
        let items = sub_elements(&container);
        for i in 0..items.len()
            invariant
                forall|j: int| 0 <= j < result.len() ==> spec_element_name(#[trigger] result@[j].spec_element()) == "IMPLEMENTATION-DATA-TYPE-ELEMENT"@,
        {
            if let Ok(sub) = ImplementationDataTypeElement::from_element(items[i].clone()) {
                result.push(sub);
            }
        }
    }
    result
}

/// the target of the reference `ref_name` in the SW-DATA-DEF-PROPS-CONDITIONAL of an element, if it exists
pub(crate) fn data_def_props_target(element: &Element, ref_name: &str) -> Option<Element> {
    let props = get_sub_element(element, "SW-DATA-DEF-PROPS")?;
    let variants = get_sub_element(&props, "SW-DATA-DEF-PROPS-VARIANTS")?;
    let conditional = get_sub_element(&variants, "SW-DATA-DEF-PROPS-CONDITIONAL")?;
    let reference = get_sub_element(&conditional, ref_name)?;
    match get_reference_target(&reference) {
        Ok(target) => Some(target),
        Err(_) => None,
    }
}

fn base_type_of(element: &Element) -> (r: Option<SwBaseType>)
    ensures
        r matches Some(x) ==> spec_element_name(x.spec_element()) == "SW-BASE-TYPE"@,
{
    match category_of(element)? {
        ImplementationDataCategory::Value => {},
        _ => return None,
    }
    let target = data_def_props_target(element, "BASE-TYPE-REF")?;
    match SwBaseType::from_element(target) {
        Ok(base_type) => Some(base_type),
        Err(_) => None,
    }
}

fn compu_method_of(element: &Element) -> (r: Option<CompuMethod>)
    ensures
        r matches Some(x) ==> spec_element_name(x.spec_element()) == "COMPU-METHOD"@,
{
    match category_of(element)? {
        ImplementationDataCategory::Value | ImplementationDataCategory::TypeReference => {},
        _ => return None,
    }
    let target = data_def_props_target(element, "COMPU-METHOD-REF")?;
    match CompuMethod::from_element(target) {
        Ok(compu_method) => Some(compu_method),
        Err(_) => None,
    }
}

fn data_constraint_of(element: &Element) -> (r: Option<DataConstr>)
    ensures
        r matches Some(x) ==> spec_element_name(x.spec_element()) == "DATA-CONSTR"@,
{
    match category_of(element)? {
        ImplementationDataCategory::Value | ImplementationDataCategory::TypeReference => {},
        _ => return None,
    }
    let target = data_def_props_target(element, "DATA-CONSTR-REF")?;
    match DataConstr::from_element(target) {
        Ok(data_constr) => Some(data_constr),
        Err(_) => None,
    }
}

fn referenced_type_of(element: &Element) -> (r: Option<ImplementationDataType>)
    ensures
        r matches Some(x) ==> spec_element_name(x.spec_element()) == "IMPLEMENTATION-DATA-TYPE"@,
{
    match category_of(element)? {
        ImplementationDataCategory::TypeReference => {},
        _ => return None,
    }
    let target = data_def_props_target(element, "IMPLEMENTATION-DATA-TYPE-REF")?;
    match ImplementationDataType::from_element(target) {
        Ok(reftype) => Some(reftype),
        Err(_) => None,
    }
}

fn array_size_of(element: &Element) -> Option<u32> {
    match category_of(element)? {
        ImplementationDataCategory::Array => {},
        _ => return None,
    }
    let subs = sub_elements_of(element);
    if subs.len() == 0 {
        return None;
    }
    let size_elem = get_sub_element(subs[0].element(), "ARRAY-SIZE")?;
    parse_u32(&character_data(&size_elem)?)
}

/// read the settings of the elements of a structure or union
fn element_settings_of(element: &Element, depth: u64) -> Option<Vec<ImplementationDataTypeSettings>>
    decreases depth, 1u64,
{
    let subs = sub_elements_of(element);
    let mut elements: Vec<ImplementationDataTypeSettings> = Vec::new();
    for i in 0..subs.len() {
        let settings = settings_of(subs[i].element(), depth)?;
        elements.push(settings);
    }
    Some(elements)
}

/// read the settings of an element, reading nested elements up to the given depth
fn settings_of(element: &Element, depth: u64) -> (r: Option<ImplementationDataTypeSettings>)
    ensures
        r matches Some(s) ==> spec_settings_refs_named(s),
    decreases depth, 0u64,
{
    if depth == 0 {
        return None;
    }
    let category = category_of(element)?;
    let name = item_name(element)?;
    let nested = match category {
        ImplementationDataCategory::Array => {
            let subs = sub_elements_of(element);
            if subs.len() == 0 {
                None
            } else {
                match settings_of(subs[0].element(), depth - 1) {
                    Some(element_settings) => Some(vec![element_settings]),
                    None => None,
                }
            }
        },
        ImplementationDataCategory::Structure | ImplementationDataCategory::Union => element_settings_of(
            element,
            depth - 1,
        ),
        _ => None,
    };
    settings_from_parts(
        category,
        name,
        base_type_of(element),
        compu_method_of(element),
        data_constraint_of(element),
        referenced_type_of(element),
        array_size_of(element),
        nested,
    )
}

/// the references of settings wrap elements of the right kind: a base type, a compu method, a data
/// constraint and a referenced implementation data type
pub open spec fn spec_settings_refs_named(s: ImplementationDataTypeSettings) -> bool {
    match s {
        ImplementationDataTypeSettings::Value { base_type, compu_method, data_constraint, .. } => {
            &&& spec_element_name(base_type.spec_element()) == "SW-BASE-TYPE"@
            &&& compu_method matches Some(c) ==> spec_element_name(c.spec_element()) == "COMPU-METHOD"@
            &&& data_constraint matches Some(d) ==> spec_element_name(d.spec_element()) == "DATA-CONSTR"@
        },
        ImplementationDataTypeSettings::TypeReference { reftype, compu_method, data_constraint, .. } => {
            &&& spec_element_name(reftype.spec_element()) == "IMPLEMENTATION-DATA-TYPE"@
            &&& compu_method matches Some(c) ==> spec_element_name(c.spec_element()) == "COMPU-METHOD"@
            &&& data_constraint matches Some(d) ==> spec_element_name(d.spec_element()) == "DATA-CONSTR"@
        },
        _ => true,
    }
}

/// the settings that [`settings_from_parts`] assembles from the parts read of an element
///
/// A VALUE needs a base type, an ARRAY a length and the settings of its first element, a
/// STRUCTURE or UNION the settings of all its elements, and a TYPE_REFERENCE a referenced type.
pub open spec fn spec_assembled_settings(
    r: Option<ImplementationDataTypeSettings>,
    category: ImplementationDataCategory,
    name: String,
    base_type: Option<SwBaseType>,
    compu_method: Option<CompuMethod>,
    data_constraint: Option<DataConstr>,
    reftype: Option<ImplementationDataType>,
    length: Option<u32>,
    nested: Option<Seq<ImplementationDataTypeSettings>>,
) -> bool {
    match category {
        ImplementationDataCategory::Value => match base_type {
            Some(b) => r == Some(ImplementationDataTypeSettings::Value { name, base_type: b, compu_method, data_constraint }),
            None => r is None,
        },
        ImplementationDataCategory::Array => match (length, nested) {
            (Some(l), Some(v)) => if v.len() > 0 {
                r matches Some(ImplementationDataTypeSettings::Array { name: n, length: l2, element_type: e }) && n == name && l2 == l && *e
                    == v[0]
            } else {
                r is None
            },
            _ => r is None,
        },
        ImplementationDataCategory::Structure => match nested {
            Some(v) => r matches Some(ImplementationDataTypeSettings::Structure { name: n, elements }) && n == name && elements@ == v,
            None => r is None,
        },
        ImplementationDataCategory::Union => match nested {
            Some(v) => r matches Some(ImplementationDataTypeSettings::Union { name: n, elements }) && n == name && elements@ == v,
            None => r is None,
        },
        ImplementationDataCategory::DataReference => r == Some(ImplementationDataTypeSettings::DataReference { name }),
        ImplementationDataCategory::FunctionReference => r == Some(ImplementationDataTypeSettings::FunctionReference { name }),
        ImplementationDataCategory::TypeReference => match reftype {
            Some(t) => r == Some(ImplementationDataTypeSettings::TypeReference { name, reftype: t, compu_method, data_constraint }),
            None => r is None,
        },
    }
}

/// the name of the data type that the settings describe; it becomes the item name of the element
pub open spec fn spec_written_name(s: ImplementationDataTypeSettings) -> String {
    match s {
        ImplementationDataTypeSettings::Value { name, .. } => name,
        ImplementationDataTypeSettings::Array { name, .. } => name,
        ImplementationDataTypeSettings::Structure { name, .. } => name,
        ImplementationDataTypeSettings::Union { name, .. } => name,
        ImplementationDataTypeSettings::DataReference { name } => name,
        ImplementationDataTypeSettings::FunctionReference { name } => name,
        ImplementationDataTypeSettings::TypeReference { name, .. } => name,
    }
}

/// the base type that the settings of a VALUE write
pub open spec fn spec_written_base_type(s: ImplementationDataTypeSettings) -> Option<SwBaseType> {
    match s {
        ImplementationDataTypeSettings::Value { base_type, .. } => Some(base_type),
        _ => None,
    }
}

/// the compu method that the settings of a VALUE or a TYPE_REFERENCE write
pub open spec fn spec_written_compu_method(s: ImplementationDataTypeSettings) -> Option<CompuMethod> {
    match s {
        ImplementationDataTypeSettings::Value { compu_method, .. } => compu_method,
        ImplementationDataTypeSettings::TypeReference { compu_method, .. } => compu_method,
        _ => None,
    }
}

/// the data constraint that the settings of a VALUE or a TYPE_REFERENCE write
pub open spec fn spec_written_data_constraint(s: ImplementationDataTypeSettings) -> Option<DataConstr> {
    match s {
        ImplementationDataTypeSettings::Value { data_constraint, .. } => data_constraint,
        ImplementationDataTypeSettings::TypeReference { data_constraint, .. } => data_constraint,
        _ => None,
    }
}

/// the referenced data type that the settings of a TYPE_REFERENCE write
pub open spec fn spec_written_reftype(s: ImplementationDataTypeSettings) -> Option<ImplementationDataType> {
    match s {
        ImplementationDataTypeSettings::TypeReference { reftype, .. } => Some(reftype),
        _ => None,
    }
}

/// the array size that the settings of an ARRAY write
pub open spec fn spec_written_length(s: ImplementationDataTypeSettings) -> Option<u32> {
    match s {
        ImplementationDataTypeSettings::Array { length, .. } => Some(length),
        _ => None,
    }
}

/// the settings of the elements that the settings write: the one array element, or the elements
/// of a structure or union
pub open spec fn spec_written_elements(s: ImplementationDataTypeSettings) -> Option<Seq<ImplementationDataTypeSettings>> {
    match s {
        ImplementationDataTypeSettings::Array { element_type, .. } => Some(seq![*element_type]),
        ImplementationDataTypeSettings::Structure { elements, .. } => Some(elements@),
        ImplementationDataTypeSettings::Union { elements, .. } => Some(elements@),
        _ => None,
    }
}

/// the references that the settings write into the data definition properties of a VALUE or a
/// TYPE_REFERENCE, in the order in which they are written: the element name of each reference and
/// the element that it refers to
pub open spec fn spec_written_references(s: ImplementationDataTypeSettings) -> Seq<(Seq<char>, Element)> {
    match s {
        ImplementationDataTypeSettings::Value { base_type, compu_method, data_constraint, .. } => seq![
            ("BASE-TYPE-REF"@, base_type.spec_element()),
        ] + spec_optional_references(compu_method, data_constraint),
        ImplementationDataTypeSettings::TypeReference { reftype, compu_method, data_constraint, .. } => seq![
            ("IMPLEMENTATION-DATA-TYPE-REF"@, reftype.spec_element()),
        ] + spec_optional_references(compu_method, data_constraint),
        _ => seq![],
    }
}

/// the references to a compu method and to a data constraint, each where it is given
pub open spec fn spec_optional_references(compu_method: Option<CompuMethod>, data_constraint: Option<DataConstr>) -> Seq<
    (Seq<char>, Element),
> {
    let cm: Seq<(Seq<char>, Element)> = match compu_method {
        Some(c) => seq![("COMPU-METHOD-REF"@, c.spec_element())],
        None => seq![],
    };
    let dc: Seq<(Seq<char>, Element)> = match data_constraint {
        Some(d) => seq![("DATA-CONSTR-REF"@, d.spec_element())],
        None => seq![],
    };
    cm + dc
}

/// the element that the first reference with the given element name refers to, if there is one
pub open spec fn spec_reference_to(refs: Seq<(Seq<char>, Element)>, name: Seq<char>) -> Option<Element>
    decreases refs.len(),
{
    if refs.len() == 0 {
        None
    } else if refs[0].0 == name {
        Some(refs[0].1)
    } else {
        spec_reference_to(refs.drop_first(), name)
    }
}

/// the element and reference target of each created reference, as an element name and a target
pub open spec fn spec_created_references(created: Seq<(Element, Element)>) -> Seq<(Seq<char>, Element)> {
    created.map_values(|c: (Element, Element)| (spec_element_name(c.0), c.1))
}

/// the element wrapped by an optional value, if there is one
pub open spec fn spec_optional_element<T: AbstractionElement>(value: Option<T>) -> Option<Element> {
    match value {
        Some(v) => Some(v.spec_element()),
        None => None,
    }
}

/// Each reference of the settings is written exactly when the settings give its target, and
/// refers to that target: the base type of a VALUE, the referenced type of a TYPE_REFERENCE, and
/// the compu method and the data constraint of either, each whether or not the other is given.
/// Nothing else is referenced, and settings of the other categories write no reference.
pub proof fn lemma_written_references(s: ImplementationDataTypeSettings)
    ensures
        spec_reference_to(spec_written_references(s), "BASE-TYPE-REF"@) == spec_optional_element(
            spec_written_base_type(s),
        ),
        spec_reference_to(spec_written_references(s), "IMPLEMENTATION-DATA-TYPE-REF"@) == spec_optional_element(
            spec_written_reftype(s),
        ),
        spec_reference_to(spec_written_references(s), "COMPU-METHOD-REF"@) == spec_optional_element(
            spec_written_compu_method(s),
        ),
        spec_reference_to(spec_written_references(s), "DATA-CONSTR-REF"@) == spec_optional_element(
            spec_written_data_constraint(s),
        ),
        spec_written_references(s).len() == (if spec_written_base_type(s) is Some { 1int } else { 0int }) + (if spec_written_reftype(
            s,
        ) is Some { 1int } else { 0int }) + (if spec_written_compu_method(s) is Some { 1int } else { 0int }) + (
        if spec_written_data_constraint(s) is Some { 1int } else { 0int }),
{
    reveal_strlit("BASE-TYPE-REF");
    reveal_strlit("IMPLEMENTATION-DATA-TYPE-REF");
    reveal_strlit("COMPU-METHOD-REF");
    reveal_strlit("DATA-CONSTR-REF");
    assert("BASE-TYPE-REF"@[0] == 'B');
    assert("IMPLEMENTATION-DATA-TYPE-REF"@[0] == 'I');
    assert("COMPU-METHOD-REF"@[0] == 'C');
    assert("DATA-CONSTR-REF"@[0] == 'D');
    let refs = spec_written_references(s);
    reveal_with_fuel(spec_reference_to, 4);
    if refs.len() > 0 {
        assert(refs.drop_first().len() + 1 == refs.len());
        if refs.len() > 1 {
            assert(refs.drop_first().drop_first() =~= refs.subrange(2, refs.len() as int));
        }
    }
}

/// Settings are read back as they were written: the category text that
/// `apply_impl_data_settings` writes is read as the category of the settings, and the parts that
/// it writes for that category (with the name of the element) are assembled by
/// [`settings_from_parts`] into the same settings.
pub proof fn lemma_settings_written_parts_roundtrip(s: ImplementationDataTypeSettings)
    ensures
        ImplementationDataCategory::spec_from_text(s.spec_category().spec_text()) == Some(s.spec_category()),
        spec_assembled_settings(
            Some(s),
            s.spec_category(),
            spec_written_name(s),
            spec_written_base_type(s),
            spec_written_compu_method(s),
            spec_written_data_constraint(s),
            spec_written_reftype(s),
            spec_written_length(s),
            spec_written_elements(s),
        ),
{
    lemma_implementation_category_text_roundtrip(s.spec_category());
}

/// Assemble the settings of an implementation data type, or of one of its elements, from the parts
/// read of it; see [`spec_assembled_settings`].
pub fn settings_from_parts(
    category: ImplementationDataCategory,
    name: String,
    base_type: Option<SwBaseType>,
    compu_method: Option<CompuMethod>,
    data_constraint: Option<DataConstr>,
    reftype: Option<ImplementationDataType>,
    length: Option<u32>,
    nested: Option<Vec<ImplementationDataTypeSettings>>,
) -> (r: Option<ImplementationDataTypeSettings>)
    ensures
        spec_assembled_settings(
            r,
            category,
            name,
            base_type,
            compu_method,
            data_constraint,
            reftype,
            length,
            match nested {
                Some(v) => Some(v@),
                None => None,
            },
        ),
{
    match category {
        ImplementationDataCategory::Value => match base_type {
            Some(base_type) => Some(ImplementationDataTypeSettings::Value { name, base_type, compu_method, data_constraint }),
            None => None,
        },
        ImplementationDataCategory::Array => match (length, nested) {
            (Some(length), Some(mut elements)) => {
                if elements.len() > 0 {
                    let element_settings = elements.remove(0);
                    Some(ImplementationDataTypeSettings::Array { name, length, element_type: Box::new(element_settings) })
                } else {
                    None
                }
            },
            _ => None,
        },
        ImplementationDataCategory::Structure => match nested {
            Some(elements) => Some(ImplementationDataTypeSettings::Structure { name, elements }),
            None => None,
        },
        ImplementationDataCategory::Union => match nested {
            Some(elements) => Some(ImplementationDataTypeSettings::Union { name, elements }),
            None => None,
        },
        ImplementationDataCategory::DataReference => Some(ImplementationDataTypeSettings::DataReference { name }),
        ImplementationDataCategory::FunctionReference => Some(ImplementationDataTypeSettings::FunctionReference { name }),
        ImplementationDataCategory::TypeReference => match reftype {
            Some(reftype) => Some(ImplementationDataTypeSettings::TypeReference { name, reftype, compu_method, data_constraint }),
            None => None,
        },
    }
}

//#########################################################

/// An implementation data type; specifics are determined by the category
#[derive(Debug, Clone, PartialEq, Eq, Hash)]
pub struct ImplementationDataType(Element);

impl AbstractionElement for ImplementationDataType {
    closed spec fn spec_element(&self) -> Element {
        self.0
    }

    fn element(&self) -> (r: &Element) {
        proof {
            assert(self.spec_element() == self.0);
        }
        &self.0
    }
}

impl ImplementationDataType {
    /// another handle of the same element
    pub(crate) fn copy_handle(&self) -> (r: Self)
        ensures
            r == *self,
    {
        ImplementationDataType(self.0.clone())
    }

    /// wrap an element of the model whose element name is `IMPLEMENTATION-DATA-TYPE`
    pub fn from_element(element: Element) -> (r: Result<Self, AutosarAbstractionError>)
        ensures
            r is Ok <==> spec_element_name(element) == "IMPLEMENTATION-DATA-TYPE"@,
            r matches Ok(x) ==> x.spec_element() == element,
            r matches Err(e) ==> is_conversion_error(e, element, "ImplementationDataType"@),
    {
        if has_element_name(&element, "IMPLEMENTATION-DATA-TYPE") {
            Ok(ImplementationDataType(element))
        } else {
            Err(AutosarAbstractionError::ConversionError { element, dest: "ImplementationDataType".to_owned() })
        }
    }
}

impl TryFrom<Element> for ImplementationDataType {
    type Error = AutosarAbstractionError;

    fn try_from(element: Element) -> (r: Result<Self, Self::Error>)
        ensures
            r is Ok <==> spec_element_name(element) == "IMPLEMENTATION-DATA-TYPE"@,
            r matches Ok(x) ==> x.spec_element() == element,
            r matches Err(e) ==> is_conversion_error(e, element, "ImplementationDataType"@),
    {
        ImplementationDataType::from_element(element)
    }
}

impl TryFromSpecImpl<Element> for ImplementationDataType {
    open spec fn obeys_try_from_spec() -> bool {
        false
    }

    open spec fn try_from_spec(v: Element) -> Result<Self, AutosarAbstractionError> {
        arbitrary()
    }
}

impl From<ImplementationDataType> for Element {
    fn from(value: ImplementationDataType) -> (r: Element)
        ensures
            r == value.spec_element(),
    {
        value.0
    }
}

impl FromSpecImpl<ImplementationDataType> for Element {
    open spec fn obeys_from_spec() -> bool {
        false
    }

    open spec fn from_spec(v: ImplementationDataType) -> Element {
        arbitrary()
    }
}

impl IdentifiableAbstractionElement for ImplementationDataType {}

impl AbstractAutosarDataType for ImplementationDataType {}

impl AbstractImplementationDataType for ImplementationDataType {}

impl ImplementationDataType {
    /// create a new implementation data type from an `ImplementationDataTypeSettings` structure
    pub fn new(package: &ArPackage, settings: ImplementationDataTypeSettings) -> (r: Result<Self, AutosarAbstractionError>)
        ensures
            r matches Ok(t) ==> spec_element_name(t.spec_element()) == "IMPLEMENTATION-DATA-TYPE"@,
            r matches Err(e) ==> e is ModelError || e is InvalidParameter,
    {
        let elements = get_or_create_sub_element(package.element(), "ELEMENTS")?;
        let implementation_data_type = create_named_sub_element(&elements, "IMPLEMENTATION-DATA-TYPE", settings.name())?;

        apply_impl_data_settings(&implementation_data_type, &settings)?;

        Ok(ImplementationDataType(implementation_data_type))
    }
}

//#########################################################

/// An element of an implementation data type
#[derive(Debug, Clone, PartialEq, Eq, Hash)]
pub struct ImplementationDataTypeElement(Element);

impl AbstractionElement for ImplementationDataTypeElement {
    closed spec fn spec_element(&self) -> Element {
        self.0
    }

    fn element(&self) -> (r: &Element) {
        proof {
            assert(self.spec_element() == self.0);
        }
        &self.0
    }
}

impl ImplementationDataTypeElement {
    /// wrap an element of the model whose element name is `IMPLEMENTATION-DATA-TYPE-ELEMENT`
    pub fn from_element(element: Element) -> (r: Result<Self, AutosarAbstractionError>)
        ensures
            r is Ok <==> spec_element_name(element) == "IMPLEMENTATION-DATA-TYPE-ELEMENT"@,
            r matches Ok(x) ==> x.spec_element() == element,
            r matches Err(e) ==> is_conversion_error(e, element, "ImplementationDataTypeElement"@),
    {
        if has_element_name(&element, "IMPLEMENTATION-DATA-TYPE-ELEMENT") {
            Ok(ImplementationDataTypeElement(element))
        } else {
            Err(AutosarAbstractionError::ConversionError { element, dest: "ImplementationDataTypeElement".to_owned() })
        }
    }
}

impl TryFrom<Element> for ImplementationDataTypeElement {
    type Error = AutosarAbstractionError;

    fn try_from(element: Element) -> (r: Result<Self, Self::Error>)
        ensures
            r is Ok <==> spec_element_name(element) == "IMPLEMENTATION-DATA-TYPE-ELEMENT"@,
            r matches Ok(x) ==> x.spec_element() == element,
            r matches Err(e) ==> is_conversion_error(e, element, "ImplementationDataTypeElement"@),
    {
        ImplementationDataTypeElement::from_element(element)
    }
}

impl TryFromSpecImpl<Element> for ImplementationDataTypeElement {
    open spec fn obeys_try_from_spec() -> bool {
        false
    }

    open spec fn try_from_spec(v: Element) -> Result<Self, AutosarAbstractionError> {
        arbitrary()
    }
}

impl From<ImplementationDataTypeElement> for Element {
    fn from(value: ImplementationDataTypeElement) -> (r: Element)
        ensures
            r == value.spec_element(),
    {
        value.0
    }
}

impl FromSpecImpl<ImplementationDataTypeElement> for Element {
    open spec fn obeys_from_spec() -> bool {
        false
    }

    open spec fn from_spec(v: ImplementationDataTypeElement) -> Element {
        arbitrary()
    }
}

impl IdentifiableAbstractionElement for ImplementationDataTypeElement {}

impl AbstractImplementationDataType for ImplementationDataTypeElement {}

impl ImplementationDataTypeElement {
    /// create a new element of an implementation data type from an `ImplementationDataTypeSettings` structure
    pub fn new(parent: &Element, settings: &ImplementationDataTypeSettings) -> (r: Result<Self, AutosarAbstractionError>)
        ensures
            r matches Ok(t) ==> spec_element_name(t.spec_element()) == "IMPLEMENTATION-DATA-TYPE-ELEMENT"@,
            r matches Err(e) ==> e is ModelError || e is InvalidParameter,
        decreases settings, 1u64,
    {
        let implementation_data_type_element = create_named_sub_element(
            parent,
            "IMPLEMENTATION-DATA-TYPE-ELEMENT",
            settings.name(),
        )?;

        apply_impl_data_settings(&implementation_data_type_element, settings)?;

        Ok(ImplementationDataTypeElement(implementation_data_type_element))
    }
}

//#########################################################

/// create an element of an implementation data type for each of the settings
fn create_elements(parent: &Element, elements: &Vec<ImplementationDataTypeSettings>) -> (r: Result<
    (),
    AutosarAbstractionError,
>)
    ensures
        r matches Err(e) ==> e is ModelError || e is InvalidParameter,
    decreases elements, 2u64,
{
    for i in 0..elements.len() {
        proof {
            assert(decreases_to!(*elements => elements@[i as int]));
        }
        ImplementationDataTypeElement::new(parent, &elements[i])?;
    }
    Ok(())
}

/// create the SW-DATA-DEF-PROPS-CONDITIONAL of an element
fn create_data_def_props(element: &Element) -> (r: Result<Element, AutosarAbstractionError>)
    ensures
        r matches Err(e) ==> e is ModelError || e is InvalidParameter,
{
    let props = create_sub_element(element, "SW-DATA-DEF-PROPS")?;
    let variants = create_sub_element(&props, "SW-DATA-DEF-PROPS-VARIANTS")?;
    create_sub_element(&variants, "SW-DATA-DEF-PROPS-CONDITIONAL")
}

/// create the references to the compu method and the data constraint, where they are given
///
/// Gives each created reference with the element that it was set to refer to.
fn set_compu_method_and_constraint(
    conditional: &Element,
    compu_method: &Option<CompuMethod>,
    data_constraint: &Option<DataConstr>,
) -> (r: Result<Vec<(Element, Element)>, AutosarAbstractionError>)
    ensures
        r matches Ok(created) ==> spec_created_references(created@) == spec_optional_references(*compu_method, *data_constraint),
        r matches Err(e) ==> e is ModelError || e is InvalidParameter,
{
    let mut created: Vec<(Element, Element)> = Vec::new();
    if let Some(compu_method) = compu_method {
        let cm_ref = create_reference(conditional, "COMPU-METHOD-REF", compu_method.element())?;
        created.push(cm_ref);
    }
    if let Some(data_constraint) = data_constraint {
        let dc_ref = create_reference(conditional, "DATA-CONSTR-REF", data_constraint.element())?;
        created.push(dc_ref);
    }
    proof {
        assert(spec_created_references(created@) =~= spec_optional_references(*compu_method, *data_constraint));
    }
    Ok(created)
}

/// create a reference sub element with the given element name, referring to `target`
///
/// Gives the created reference with the element that it was set to refer to.
fn create_reference(element: &Element, name: &str, target: &Element) -> (r: Result<(Element, Element), AutosarAbstractionError>)
    ensures
        r matches Ok(created) ==> spec_element_name(created.0) == name@ && created.1 == *target,
        r matches Err(e) ==> e is ModelError || e is InvalidParameter,
{
    let reference = create_sub_element(element, name)?;
    set_reference_target(&reference, target)?;
    Ok((reference, target.clone()))
}

/// write the settings into an implementation data type or an element of one
///
/// The existing category, sub-elements and data definition properties are removed first. Then the
/// category text and the parts that the `spec_written_*` functions give are written; reading them
/// back assembles the same settings (see [`lemma_settings_written_parts_roundtrip`]).
///
/// Gives the references written into the data definition properties, each with the element that it
/// was set to refer to: those of [`spec_written_references`] (see [`lemma_written_references`]).
fn apply_impl_data_settings(element: &Element, settings: &ImplementationDataTypeSettings) -> (r: Result<
    Vec<(Element, Element)>,
    AutosarAbstractionError,
>)
    ensures
        r matches Ok(created) ==> spec_created_references(created@) == spec_written_references(*settings),
        r matches Err(e) ==> e is ModelError || e is InvalidParameter,
    decreases settings, 0u64,
{
    let _ = remove_sub_element_kind(element, "CATEGORY");
    let _ = remove_sub_element_kind(element, "SUB-ELEMENTS");
    let _ = remove_sub_element_kind(element, "SW-DATA-DEF-PROPS");

    let category_elem = create_sub_element(element, "CATEGORY")?;
    set_character_data_text(&category_elem, settings.category().text())?;

    match settings {
        ImplementationDataTypeSettings::Value { base_type, compu_method, data_constraint, .. } => {
            let conditional = create_data_def_props(element)?;
            let base_type_ref = create_reference(&conditional, "BASE-TYPE-REF", base_type.element())?;
            let mut optional = set_compu_method_and_constraint(&conditional, compu_method, data_constraint)?;
            let mut created: Vec<(Element, Element)> = vec![base_type_ref];
            created.append(&mut optional);
            proof {
                assert(spec_created_references(created@) =~= spec_written_references(*settings));
            }
            return Ok(created);
        },
        ImplementationDataTypeSettings::Array { length, element_type, .. } => {
            let sub_elements = get_or_create_sub_element(element, "SUB-ELEMENTS")?;
            let array_element = ImplementationDataTypeElement::new(&sub_elements, element_type)?;
            let size_elem = create_sub_element(array_element.element(), "ARRAY-SIZE")?;
            set_character_data_u64(&size_elem, *length as u64)?;
            let semantics_elem = create_sub_element(array_element.element(), "ARRAY-SIZE-SEMANTICS")?;
            set_character_data_enum(&semantics_elem, "FIXED-SIZE")?;
        },
        ImplementationDataTypeSettings::Structure { elements, .. } => {
            let sub_elements = get_or_create_sub_element(element, "SUB-ELEMENTS")?;
            proof {
                assert(decreases_to!(*settings => *elements));
            }
            create_elements(&sub_elements, elements)?;
        },
        ImplementationDataTypeSettings::Union { elements, .. } => {
            let sub_elements = get_or_create_sub_element(element, "SUB-ELEMENTS")?;
            proof {
                assert(decreases_to!(*settings => *elements));
            }
            create_elements(&sub_elements, elements)?;
        },
        ImplementationDataTypeSettings::DataReference { .. } => {},
        ImplementationDataTypeSettings::FunctionReference { .. } => {},
        ImplementationDataTypeSettings::TypeReference { reftype, compu_method, data_constraint, .. } => {
            let conditional = create_data_def_props(element)?;
            let type_ref = create_reference(&conditional, "IMPLEMENTATION-DATA-TYPE-REF", reftype.element())?;
            let mut optional = set_compu_method_and_constraint(&conditional, compu_method, data_constraint)?;
            let mut created: Vec<(Element, Element)> = vec![type_ref];
            created.append(&mut optional);
            proof {
                assert(spec_created_references(created@) =~= spec_written_references(*settings));
            }
            return Ok(created);
        },
    }

    Ok(Vec::new())
}

//#########################################################

/// The category of an implementation data type
#[derive(Debug, Clone, PartialEq, Eq, Hash)]
pub enum ImplementationDataCategory {
    /// A simple value
    Value,
    /// a pointer to data
    DataReference,
    /// a pointer to a function
    FunctionReference,
    /// this type is a reference to another type
    TypeReference,
    /// a structure of elements
    Structure,
    /// a union of elements
    Union,
    /// an array
    Array,
}

impl ImplementationDataCategory {
    /// the text of the category as it is stored in the model
    pub open spec fn spec_text(self) -> Seq<char> {
        match self {
            ImplementationDataCategory::Value => "VALUE"@,
            ImplementationDataCategory::DataReference => "DATA_REFERENCE"@,
            ImplementationDataCategory::FunctionReference => "FUNCTION_REFERENCE"@,
            ImplementationDataCategory::TypeReference => "TYPE_REFERENCE"@,
            ImplementationDataCategory::Structure => "STRUCTURE"@,
            ImplementationDataCategory::Union => "UNION"@,
            ImplementationDataCategory::Array => "ARRAY"@,
        }
    }

    /// the category whose text is `text`, if there is one
    pub open spec fn spec_from_text(text: Seq<char>) -> Option<Self> {
        if text == "VALUE"@ {
            Some(ImplementationDataCategory::Value)
        } else if text == "DATA_REFERENCE"@ {
            Some(ImplementationDataCategory::DataReference)
        } else if text == "FUNCTION_REFERENCE"@ {
            Some(ImplementationDataCategory::FunctionReference)
        } else if text == "TYPE_REFERENCE"@ {
            Some(ImplementationDataCategory::TypeReference)
        } else if text == "STRUCTURE"@ {
            Some(ImplementationDataCategory::Structure)
        } else if text == "UNION"@ {
            Some(ImplementationDataCategory::Union)
        } else if text == "ARRAY"@ {
            Some(ImplementationDataCategory::Array)
        } else {
            None
        }
    }

    /// the text of the category as it is stored in the model
    pub fn text(&self) -> (r: &'static str)
        ensures
            r@ == self.spec_text(),
    {
        match self {
            ImplementationDataCategory::Value => "VALUE",
            ImplementationDataCategory::DataReference => "DATA_REFERENCE",
            ImplementationDataCategory::FunctionReference => "FUNCTION_REFERENCE",
            ImplementationDataCategory::TypeReference => "TYPE_REFERENCE",
            ImplementationDataCategory::Structure => "STRUCTURE",
            ImplementationDataCategory::Union => "UNION",
            ImplementationDataCategory::Array => "ARRAY",
        }
    }

    /// the text of the category as it is stored in the model
    pub fn to_string(&self) -> (r: String)
        ensures
            r@ == self.spec_text(),
    {
        self.text().to_owned()
    }

    /// parse the text of a category
    pub fn from_text(value: &str) -> (r: Result<Self, AutosarAbstractionError>)
        ensures
            match Self::spec_from_text(value@) {
                Some(c) => r == Ok::<Self, AutosarAbstractionError>(c),
                None => r matches Err(e) && is_value_conversion_error(e, value@, "ImplementationDataCategory"@),
            },
    {
        if text_equals(value, "VALUE") {
            Ok(ImplementationDataCategory::Value)
        } else if text_equals(value, "DATA_REFERENCE") {
            Ok(ImplementationDataCategory::DataReference)
        } else if text_equals(value, "FUNCTION_REFERENCE") {
            Ok(ImplementationDataCategory::FunctionReference)
        } else if text_equals(value, "TYPE_REFERENCE") {
            Ok(ImplementationDataCategory::TypeReference)
        } else if text_equals(value, "STRUCTURE") {
            Ok(ImplementationDataCategory::Structure)
        } else if text_equals(value, "UNION") {
            Ok(ImplementationDataCategory::Union)
        } else if text_equals(value, "ARRAY") {
            Ok(ImplementationDataCategory::Array)
        } else {
            Err(AutosarAbstractionError::ValueConversionError {
                value: value.to_owned(),
                dest: "ImplementationDataCategory".to_owned(),
            })
        }
    }
}

impl<'a> TryFrom<&'a str> for ImplementationDataCategory {
    type Error = AutosarAbstractionError;

    fn try_from(value: &'a str) -> (r: Result<Self, Self::Error>)
        ensures
            match Self::spec_from_text(value@) {
                Some(c) => r == Ok::<Self, AutosarAbstractionError>(c),
                None => r matches Err(e) && is_value_conversion_error(e, value@, "ImplementationDataCategory"@),
            },
    {
        ImplementationDataCategory::from_text(value)
    }
}

impl<'a> TryFromSpecImpl<&'a str> for ImplementationDataCategory {
    open spec fn obeys_try_from_spec() -> bool {
        false
    }

    open spec fn try_from_spec(v: &'a str) -> Result<Self, AutosarAbstractionError> {
        arbitrary()
    }
}

/// Reading back the text of a category gives the category.
pub proof fn lemma_implementation_category_text_roundtrip(category: ImplementationDataCategory)
    ensures
        ImplementationDataCategory::spec_from_text(category.spec_text()) == Some(category),
{
    reveal_strlit("VALUE");
    reveal_strlit("DATA_REFERENCE");
    reveal_strlit("FUNCTION_REFERENCE");
    reveal_strlit("TYPE_REFERENCE");
    reveal_strlit("STRUCTURE");
    reveal_strlit("UNION");
    reveal_strlit("ARRAY");
    let t = category.spec_text();
    assert(t[0] != 'V' ==> t != "VALUE"@);
    assert(t[0] != 'D' ==> t != "DATA_REFERENCE"@);
    assert(t[0] != 'F' ==> t != "FUNCTION_REFERENCE"@);
    assert(t[0] != 'T' ==> t != "TYPE_REFERENCE"@);
    assert(t[0] != 'S' ==> t != "STRUCTURE"@);
    assert(t[0] != 'U' ==> t != "UNION"@);
    assert(t[0] != 'A' ==> t != "ARRAY"@);
}

//#########################################################

/// Settings for an implementation data type
///
/// This structure is used to create new implementation data types
#[derive(Debug, PartialEq, Eq, Hash)]
pub enum ImplementationDataTypeSettings {
    /// A simple value
    Value {
        /// the name of the data type
        name: String,
        /// the base type of the data type
        base_type: SwBaseType,
        /// the `CompuMethod` of the data type
        compu_method: Option<CompuMethod>,
        /// the data constraints of the data type
        data_constraint: Option<DataConstr>,
    },
    /// An array of elements
    Array {
        /// the name of the data type
        name: String,
        /// the length of the array
        length: u32,
        /// settings to construct the element type of the array
        element_type: Box<ImplementationDataTypeSettings>,
    },
    /// A structure of elements
    Structure {
        /// the name of the structure
        name: String,
        /// settings for the elements of the structure
        elements: Vec<ImplementationDataTypeSettings>,
    },
    /// A union of elements
    Union {
        /// the name of the union
        name: String,
        /// settings for the elements of the union
        elements: Vec<ImplementationDataTypeSettings>,
    },
    /// A pointer to data
    DataReference {
        /// the name of the data type
        name: String,
    },
    /// A pointer to a function
    FunctionReference {
        /// the name of the data type
        name: String,
    },
    /// A reference to another implementation data type
    TypeReference {
        /// the name of the data type
        name: String,
        /// the referenced data type
        reftype: ImplementationDataType,
        /// the `CompuMethod` of the data type
        compu_method: Option<CompuMethod>,
        /// the data constraints of the data type
        data_constraint: Option<DataConstr>,
    },
}

/// the settings describe the same data type: the same names, lengths and referenced elements,
/// and element settings that describe the same data types
pub open spec fn spec_same_settings(a: ImplementationDataTypeSettings, b: ImplementationDataTypeSettings) -> bool
    decreases a,
{
    match a {
        ImplementationDataTypeSettings::Value { name, base_type, compu_method, data_constraint } => b matches ImplementationDataTypeSettings::Value {
            name: n2,
            base_type: b2,
            compu_method: c2,
            data_constraint: d2,
        } && name@ == n2@ && base_type == b2 && compu_method == c2 && data_constraint == d2,
        ImplementationDataTypeSettings::Array { name, length, element_type } => b matches ImplementationDataTypeSettings::Array {
            name: n2,
            length: l2,
            element_type: e2,
        } && name@ == n2@ && length == l2 && spec_same_settings(*element_type, *e2),
        ImplementationDataTypeSettings::Structure { name, elements } => b matches ImplementationDataTypeSettings::Structure { name: n2, elements: e2 } && name@ == n2@
            && spec_same_settings_list(elements@, e2@),
        ImplementationDataTypeSettings::Union { name, elements } => b matches ImplementationDataTypeSettings::Union { name: n2, elements: e2 } && name@ == n2@
            && spec_same_settings_list(elements@, e2@),
        ImplementationDataTypeSettings::DataReference { name } => b matches ImplementationDataTypeSettings::DataReference { name: n2 } && name@ == n2@,
        ImplementationDataTypeSettings::FunctionReference { name } => b matches ImplementationDataTypeSettings::FunctionReference { name: n2 } && name@ == n2@,
        ImplementationDataTypeSettings::TypeReference { name, reftype, compu_method, data_constraint } => b matches ImplementationDataTypeSettings::TypeReference {
            name: n2,
            reftype: t2,
            compu_method: c2,
            data_constraint: d2,
        } && name@ == n2@ && reftype == t2 && compu_method == c2 && data_constraint == d2,
    }
}

/// two lists of settings that describe the same data types, entry by entry
pub open spec fn spec_same_settings_list(a: Seq<ImplementationDataTypeSettings>, b: Seq<ImplementationDataTypeSettings>) -> bool
    decreases a,
{
    a.len() == b.len() && (a.len() > 0 ==> spec_same_settings(a[0], b[0]) && spec_same_settings_list(
        a.drop_first(),
        b.drop_first(),
    ))
}

impl ImplementationDataTypeSettings {
    /// the name in the settings
    pub open spec fn spec_name(self) -> Seq<char> {
        match self {
            ImplementationDataTypeSettings::Value { name, .. } => name@,
            ImplementationDataTypeSettings::Array { name, .. } => name@,
            ImplementationDataTypeSettings::Structure { name, .. } => name@,
            ImplementationDataTypeSettings::Union { name, .. } => name@,
            ImplementationDataTypeSettings::DataReference { name, .. } => name@,
            ImplementationDataTypeSettings::FunctionReference { name, .. } => name@,
            ImplementationDataTypeSettings::TypeReference { name, .. } => name@,
        }
    }

    /// the category of the data type that the settings describe
    pub open spec fn spec_category(self) -> ImplementationDataCategory {
        match self {
            ImplementationDataTypeSettings::Value { .. } => ImplementationDataCategory::Value,
            ImplementationDataTypeSettings::Array { .. } => ImplementationDataCategory::Array,
            ImplementationDataTypeSettings::Structure { .. } => ImplementationDataCategory::Structure,
            ImplementationDataTypeSettings::Union { .. } => ImplementationDataCategory::Union,
            ImplementationDataTypeSettings::DataReference { .. } => ImplementationDataCategory::DataReference,
            ImplementationDataTypeSettings::FunctionReference { .. } => ImplementationDataCategory::FunctionReference,
            ImplementationDataTypeSettings::TypeReference { .. } => ImplementationDataCategory::TypeReference,
        }
    }

    /// get the name of the implementation data type
    pub fn name(&self) -> (r: &str)
        ensures
            r@ == self.spec_name(),
    {
        match self {
            ImplementationDataTypeSettings::Value { name, .. } => name.as_str(),
            ImplementationDataTypeSettings::Array { name, .. } => name.as_str(),
            ImplementationDataTypeSettings::Structure { name, .. } => name.as_str(),
            ImplementationDataTypeSettings::Union { name, .. } => name.as_str(),
            ImplementationDataTypeSettings::DataReference { name, .. } => name.as_str(),
            ImplementationDataTypeSettings::FunctionReference { name, .. } => name.as_str(),
            ImplementationDataTypeSettings::TypeReference { name, .. } => name.as_str(),
        }
    }

    /// a copy of the settings
    pub fn duplicate(&self) -> (r: Self)
        ensures
            spec_same_settings(*self, r),
        decreases self,
    {
        match self {
            ImplementationDataTypeSettings::Value { name, base_type, compu_method, data_constraint } => {
                ImplementationDataTypeSettings::Value {
                    name: name.clone(),
                    base_type: base_type.copy_handle(),
                    compu_method: copy_compu_method(compu_method),
                    data_constraint: copy_data_constraint(data_constraint),
                }
            },
            ImplementationDataTypeSettings::Array { name, length, element_type } => {
                ImplementationDataTypeSettings::Array {
                    name: name.clone(),
                    length: *length,
                    element_type: Box::new(element_type.duplicate()),
                }
            },
            ImplementationDataTypeSettings::Structure { name, elements } => {
                proof {
                    assert(decreases_to!(*self => *elements));
                }
                ImplementationDataTypeSettings::Structure { name: name.clone(), elements: duplicate_all(elements) }
            },
            ImplementationDataTypeSettings::Union { name, elements } => {
                proof {
                    assert(decreases_to!(*self => *elements));
                }
                ImplementationDataTypeSettings::Union { name: name.clone(), elements: duplicate_all(elements) }
            },
            ImplementationDataTypeSettings::DataReference { name } => {
                ImplementationDataTypeSettings::DataReference { name: name.clone() }
            },
            ImplementationDataTypeSettings::FunctionReference { name } => {
                ImplementationDataTypeSettings::FunctionReference { name: name.clone() }
            },
            ImplementationDataTypeSettings::TypeReference { name, reftype, compu_method, data_constraint } => {
                ImplementationDataTypeSettings::TypeReference {
                    name: name.clone(),
                    reftype: reftype.copy_handle(),
                    compu_method: copy_compu_method(compu_method),
                    data_constraint: copy_data_constraint(data_constraint),
                }
            },
        }
    }

    /// get the category of the data type that the settings describe
    pub fn category(&self) -> (r: ImplementationDataCategory)
        ensures
            r == self.spec_category(),
    {
        match self {
            ImplementationDataTypeSettings::Value { .. } => ImplementationDataCategory::Value,
            ImplementationDataTypeSettings::Array { .. } => ImplementationDataCategory::Array,
            ImplementationDataTypeSettings::Structure { .. } => ImplementationDataCategory::Structure,
            ImplementationDataTypeSettings::Union { .. } => ImplementationDataCategory::Union,
            ImplementationDataTypeSettings::DataReference { .. } => ImplementationDataCategory::DataReference,
            ImplementationDataTypeSettings::FunctionReference { .. } => ImplementationDataCategory::FunctionReference,
            ImplementationDataTypeSettings::TypeReference { .. } => ImplementationDataCategory::TypeReference,
        }
    }
}

/// copies of all settings in a list
fn duplicate_all(elements: &Vec<ImplementationDataTypeSettings>) -> (r: Vec<ImplementationDataTypeSettings>)
    ensures
        spec_same_settings_list(elements@, r@),
    decreases elements,
{
    let mut result: Vec<ImplementationDataTypeSettings> = Vec::new();
    for i in 0..elements.len()
        invariant
            result.len() == i,
            forall|k: int| 0 <= k < i ==> #[trigger] spec_same_settings(elements@[k], result@[k]),
    {
        proof {
            assert(decreases_to!(elements => elements@[i as int]));
        }
        result.push(elements[i].duplicate());
    }
    proof {
        lemma_same_settings_pointwise(elements@, result@);
    }
    result
}

/// lists of settings that describe the same data types entry by entry are the same
proof fn lemma_same_settings_pointwise(a: Seq<ImplementationDataTypeSettings>, b: Seq<ImplementationDataTypeSettings>)
    requires
        a.len() == b.len(),
        forall|k: int| 0 <= k < a.len() ==> #[trigger] spec_same_settings(a[k], b[k]),
    ensures
        spec_same_settings_list(a, b),
    decreases a.len(),
{
    if a.len() > 0 {
        assert forall|k: int| 0 <= k < a.drop_first().len() implies #[trigger] spec_same_settings(
            a.drop_first()[k],
            b.drop_first()[k],
        ) by {
            assert(spec_same_settings(a[k + 1], b[k + 1]));
        }
        assert(spec_same_settings(a[0], b[0]));
        lemma_same_settings_pointwise(a.drop_first(), b.drop_first());
    }
}

/// another handle of the same `CompuMethod`, if there is one
fn copy_compu_method(value: &Option<CompuMethod>) -> (r: Option<CompuMethod>)
    ensures
        r == *value,
{
    match value {
        Some(compu_method) => Some(compu_method.copy_handle()),
        None => None,
    }
}

/// another handle of the same `DataConstr`, if there is one
fn copy_data_constraint(value: &Option<DataConstr>) -> (r: Option<DataConstr>)
    ensures
        r == *value,
{
    match value {
        Some(data_constraint) => Some(data_constraint.copy_handle()),
        None => None,
    }
}

impl Clone for ImplementationDataTypeSettings {
    fn clone(&self) -> Self {
        self.duplicate()
    }
}

} // verus!
