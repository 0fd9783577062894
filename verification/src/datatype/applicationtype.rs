use vstd::prelude::*;
use crate::elements::is_model_or_name_error;
use autosar_data::Element;
use vstd::std_specs::convert::{FromSpecImpl, TryFromSpecImpl};
use crate::{
    AbstractionElement, AutosarAbstractionError, IdentifiableAbstractionElement, ArPackage,
    get_reference_parents, has_element_name, is_conversion_error, is_invalid_parameter, is_used, is_value_conversion_error, remove_element,
};
use crate::datatype::{AbstractAutosarDataType, CompuMethod, DataConstr, DataTypeMap, Unit};
use crate::datatype::implementationtype::data_def_props_target;
use crate::elements::{
    character_data, create_named_sub_element, create_sub_element, get_or_create_sub_element, get_sub_element,
    remove_sub_element_kind, set_character_data_enum, set_character_data_text, set_character_data_u64,
    set_reference_target, get_reference_target, spec_element_name, sub_elements,
};
use crate::text::text_equals;
use crate::values::{parse_u64, string_value};

verus! {

/// The nesting depth up to which the removal of a data type follows the elements that
/// use it.
///
/// Every level of nesting removes a distinct element of the model, so no model that fits
/// into memory reaches this depth.
pub const REMOVE_DEPTH_LIMIT: u64 = 0xffff_ffff_ffff_ffff;

/// the error that a removal reports when it reaches [`REMOVE_DEPTH_LIMIT`]
fn depth_limit_error() -> (r: AutosarAbstractionError)
    ensures
        r is InvalidParameter,
{
    AutosarAbstractionError::InvalidParameter("the removal nests deeper than the supported limit".to_owned())
}

//#########################################################

/// An application array data type
#[derive(Debug, Clone, PartialEq, Eq, Hash)]
pub struct ApplicationArrayDataType(Element);

impl AbstractionElement for ApplicationArrayDataType {
    closed spec fn spec_element(&self) -> Element {
        self.0
    }

    fn element(&self) -> (r: &Element) {
        proof {
            assert(self.spec_element() == self.0);
        }
        &self.0
    }
}

impl ApplicationArrayDataType {
    /// wrap an element of the model whose element name is `APPLICATION-ARRAY-DATA-TYPE`
    pub fn from_element(element: Element) -> (r: Result<Self, AutosarAbstractionError>)
        ensures
            r is Ok <==> spec_element_name(element) == "APPLICATION-ARRAY-DATA-TYPE"@,
            r matches Ok(x) ==> x.spec_element() == element,
            r matches Err(e) ==> is_conversion_error(e, element, "ApplicationArrayDataType"@),
    {
        if has_element_name(&element, "APPLICATION-ARRAY-DATA-TYPE") {
            Ok(ApplicationArrayDataType(element))
        } else {
            Err(AutosarAbstractionError::ConversionError { element, dest: "ApplicationArrayDataType".to_owned() })
        }
    }
}

impl TryFrom<Element> for ApplicationArrayDataType {
    type Error = AutosarAbstractionError;

    fn try_from(element: Element) -> (r: Result<Self, Self::Error>)
        ensures
            r is Ok <==> spec_element_name(element) == "APPLICATION-ARRAY-DATA-TYPE"@,
            r matches Ok(x) ==> x.spec_element() == element,
            r matches Err(e) ==> is_conversion_error(e, element, "ApplicationArrayDataType"@),
    {
        ApplicationArrayDataType::from_element(element)
    }
}

impl TryFromSpecImpl<Element> for ApplicationArrayDataType {
    open spec fn obeys_try_from_spec() -> bool {
        false
    }

    open spec fn try_from_spec(v: Element) -> Result<Self, AutosarAbstractionError> {
        arbitrary()
    }
}

impl From<ApplicationArrayDataType> for Element {
    fn from(value: ApplicationArrayDataType) -> (r: Element)
        ensures
            r == value.spec_element(),
    {
        value.0
    }
}

impl FromSpecImpl<ApplicationArrayDataType> for Element {
    open spec fn obeys_from_spec() -> bool {
        false
    }

    open spec fn from_spec(v: ApplicationArrayDataType) -> Element {
        arbitrary()
    }
}

impl IdentifiableAbstractionElement for ApplicationArrayDataType {}

impl AbstractAutosarDataType for ApplicationArrayDataType {}

impl ApplicationArrayDataType {
    /// create a new application array data type in the given package
    pub fn new<T: Into<ApplicationDataType> + AbstractionElement + Clone>(
        name: &str,
        package: &ArPackage,
        element_type: &T,
        size: ApplicationArraySize,
    ) -> (r: Result<Self, AutosarAbstractionError>)
        ensures
            r matches Ok(t) ==> spec_element_name(t.spec_element()) == "APPLICATION-ARRAY-DATA-TYPE"@,
            r matches Err(e) ==> e is ModelError || e is InvalidParameter,
    {
        let element_type: ApplicationDataType = element_type.clone().into();
        Self::new_internal(name, package, &element_type, size)
    }

    /// remove the application array data type from the model
    ///
    /// With `deep`, the data types of the array element and the elements that use this
    /// data type are removed as well, where nothing else uses them.
    pub fn remove(self, deep: bool) -> (r: Result<(), AutosarAbstractionError>)
        ensures
            r matches Err(e) ==> e is ModelError || e is InvalidParameter,
    {
        self.remove_within(deep, REMOVE_DEPTH_LIMIT)
    }

    fn remove_within(self, deep: bool, depth: u64) -> (r: Result<(), AutosarAbstractionError>)
        ensures
            r matches Err(e) ==> e is ModelError || e is InvalidParameter,
        decreases depth,
    {
        if depth == 0 {
            return Err(depth_limit_error());
        }
        if let Some(array_element) = self.array_element() {
            array_element.remove_within(deep, depth - 1)?;
        }
        let ref_parents = get_reference_parents(self.element())?;

        remove_element(self.element())?;

        remove_helper(ref_parents, deep, depth - 1)
    }

    fn new_internal(
        name: &str,
        package: &ArPackage,
        element_type: &ApplicationDataType,
        size: ApplicationArraySize,
    ) -> (r: Result<Self, AutosarAbstractionError>)
        ensures
            r matches Ok(t) ==> spec_element_name(t.spec_element()) == "APPLICATION-ARRAY-DATA-TYPE"@,
            r matches Err(e) ==> e is ModelError || e is InvalidParameter,
    {
        let elements = get_or_create_sub_element(package.element(), "ELEMENTS")?;
        let application_array_data_type = create_named_sub_element(&elements, "APPLICATION-ARRAY-DATA-TYPE", name)?;

        let category = create_sub_element(&application_array_data_type, "CATEGORY")?;
        set_character_data_text(&category, "ARRAY")?;

        let application_array_data_type = ApplicationArrayDataType(application_array_data_type);
        ApplicationArrayElement::new("Element", &application_array_data_type, element_type)?;

        // set the size of the array after creating the array element, since some settings must be set in the array element
        application_array_data_type.set_size(size)?;

        Ok(application_array_data_type)
    }

    /// get the array element of the array data type
    pub fn array_element(&self) -> (r: Option<ApplicationArrayElement>)
        ensures
            r matches Some(x) ==> spec_element_name(x.spec_element()) == "ELEMENT"@,
    {
        let element = get_sub_element(self.element(), "ELEMENT")?;
        match ApplicationArrayElement::from_element(element) {
            Ok(array_element) => Some(array_element),
            Err(_) => None,
        }
    }

    /// set the size of the array
    ///
    /// When the array element has a data type, the size must suit it (see [`check_array_size`]).
    pub fn set_size(&self, size: ApplicationArraySize) -> (r: Result<(), AutosarAbstractionError>)
        ensures
            r matches Err(e) ==> e is ModelError || e is InvalidParameter,
    {
        let found_element = self.array_element();
        let element_type_is_array = match &found_element {
            Some(array_element) => match array_element.data_type() {
                Some(ApplicationDataType::Array(_)) => Some(true),
                Some(_) => Some(false),
                None => None,
            },
            None => None,
        };
        check_set_size(found_element.is_some(), element_type_is_array, &size)?;
        let array_element = found_element.unwrap();
        let settings = size.settings();
        let array_element_elem = array_element.element();

        match settings.size_profile {
            Some(profile) => {
                let profile_elem = get_or_create_sub_element(self.element(), "DYNAMIC-ARRAY-SIZE-PROFILE")?;
                set_character_data_text(&profile_elem, profile)?;
            },
            None => {
                let _ = remove_sub_element_kind(self.element(), "DYNAMIC-ARRAY-SIZE-PROFILE");
            },
        }
        match settings.max_number_of_elements {
            Some(max_size) => {
                let max_elem = get_or_create_sub_element(array_element_elem, "MAX-NUMBER-OF-ELEMENTS")?;
                set_character_data_u64(&max_elem, max_size)?;
            },
            None => {
                let _ = remove_sub_element_kind(array_element_elem, "MAX-NUMBER-OF-ELEMENTS");
            },
        }
        let semantics_elem = get_or_create_sub_element(array_element_elem, "ARRAY-SIZE-SEMANTICS")?;
        set_character_data_enum(&semantics_elem, settings.size_semantics)?;
        match settings.size_handling {
            Some(handling) => {
                let handling_elem = get_or_create_sub_element(array_element_elem, "ARRAY-SIZE-HANDLING")?;
                set_character_data_enum(&handling_elem, handling)?;
            },
            None => {
                let _ = remove_sub_element_kind(array_element_elem, "ARRAY-SIZE-HANDLING");
            },
        }

        Ok(())
    }

    /// get the size of the array
    pub fn size(&self) -> Option<ApplicationArraySize> {
        let array_element = self.array_element();
        let (max_number_of_elements, size_profile) = match &array_element {
            Some(array_element) => {
                let max_number_of_elements = match get_sub_element(array_element.element(), "MAX-NUMBER-OF-ELEMENTS") {
                    Some(max_elem) => match character_data(&max_elem) {
                        Some(cdata) => parse_u64(&cdata),
                        None => None,
                    },
                    None => None,
                };
                let size_profile = match get_sub_element(self.element(), "DYNAMIC-ARRAY-SIZE-PROFILE") {
                    Some(profile_elem) => match character_data(&profile_elem) {
                        Some(cdata) => string_value(cdata),
                        None => None,
                    },
                    None => None,
                };
                (max_number_of_elements, size_profile)
            },
            None => (None, None),
        };
        match size_profile {
            Some(profile) => size_from_parts(array_element.is_some(), Some(profile.as_str()), max_number_of_elements),
            None => size_from_parts(array_element.is_some(), None, max_number_of_elements),
        }
    }
}

/// the message with which the size of an array data type without an array element is refused
pub open spec fn missing_array_element_message() -> Seq<char> {
    "Array data type has no array element"@
}

/// Check that a size can be set on an array data type, given whether it has an array element and,
/// where the data type of that element is known, whether it is an array.
///
/// A missing array element is refused; a known element type must suit the size (see [`check_array_size`]).
pub fn check_set_size(has_array_element: bool, element_type_is_array: Option<bool>, size: &ApplicationArraySize) -> (r:
    Result<(), AutosarAbstractionError>)
    ensures
        !has_array_element ==> (r matches Err(e) && is_invalid_parameter(e, missing_array_element_message())),
        has_array_element && element_type_is_array is None ==> r is Ok,
        has_array_element ==> (element_type_is_array matches Some(b) ==> ((r is Ok <==> size.suits_element_type(b))
            && (r matches Err(e) ==> e is InvalidParameter))),
{
    if !has_array_element {
        return Err(AutosarAbstractionError::InvalidParameter("Array data type has no array element".to_owned()));
    }
    match element_type_is_array {
        Some(is_array_datatype) => check_array_size(is_array_datatype, size),
        None => Ok(()),
    }
}

/// The size of an array data type, from what was read of it: nothing without an array element,
/// else the size that the size profile and the maximum number of elements describe.
pub fn size_from_parts(has_array_element: bool, size_profile: Option<&str>, max_number_of_elements: Option<u64>) -> (r:
    Option<ApplicationArraySize>)
    ensures
        !has_array_element ==> r is None,
        has_array_element ==> r == ApplicationArraySize::spec_from_settings(
            match size_profile {
                Some(p) => Some(p@),
                None => None,
            },
            max_number_of_elements,
        ),
{
    if has_array_element {
        ApplicationArraySize::from_settings(size_profile, max_number_of_elements)
    } else {
        None
    }
}

/// Check that an array size suits the data type of the array element.
///
/// A `VariableLinear` size needs an element type that is not an array; the sizes
/// `VariableSquare`, `VariableRectangular` and `VariableFullyFlexible` need an element
/// type that is an array.
pub fn check_array_size(is_array_datatype: bool, size: &ApplicationArraySize) -> (r: Result<(), AutosarAbstractionError>)
    ensures
        r is Ok <==> size.suits_element_type(is_array_datatype),
        r matches Err(e) ==> e is InvalidParameter,
{
    if is_array_datatype && size.is_variable_linear() {
        Err(AutosarAbstractionError::InvalidParameter(
            "When the size type is VariableLinear, the element type may not be an array".to_owned(),
        ))
    } else if !is_array_datatype && size.is_multi_dimensional() {
        Err(AutosarAbstractionError::InvalidParameter(
            "When the size type is VariableSquare, VariableRectangular or VariableFullyFlexible, the element type must be an array".to_owned(),
        ))
    } else {
        Ok(())
    }
}

//#########################################################

/// definition of the size type of an application array data type
#[derive(Debug, Clone, PartialEq, Eq, Hash)]
pub enum ApplicationArraySize {
    /// Fixed size array, with the given size
    Fixed(u64),
    /// Variable size array, with a single dimension. The maximum size is given
    VariableLinear(u64),
    /// Variable size "square" array, with two or more dimensions. All dimensions have the same maximum size
    /// This maximum size is set in the innermost dimension; it is not set here.
    /// When the size is set to `VariableSquare`, the array element data type must also be an `ApplicationArrayDataType`
    VariableSquare,
    /// Variable size "rectangular" array, with two or more dimensions. Each dimension has its own maximum size.
    /// The array element data type must also be an `ApplicationArrayDataType`.
    VariableRectangular(u64),
    /// Fully flexible variable size array of arrays. The maximum number of elements of each contained array is not necessarily identical
    /// The array element data type must also be an `ApplicationArrayDataType`.
    VariableFullyFlexible(u64),
}

/// The content that the size of an application array data type is stored as.
///
/// `None` for an optional part means that the part is removed from the model.
#[derive(Debug, Clone, Copy, PartialEq, Eq)]
pub struct ArraySizeSettings {
    /// the text of the DYNAMIC-ARRAY-SIZE-PROFILE of the data type
    pub size_profile: Option<&'static str>,
    /// the MAX-NUMBER-OF-ELEMENTS of the array element
    pub max_number_of_elements: Option<u64>,
    /// the enum item text of the ARRAY-SIZE-SEMANTICS of the array element
    pub size_semantics: &'static str,
    /// the enum item text of the ARRAY-SIZE-HANDLING of the array element
    pub size_handling: Option<&'static str>,
}

/// the view of an optional static text
pub open spec fn opt_text(t: Option<&'static str>) -> Option<Seq<char>> {
    match t {
        Some(s) => Some(s@),
        None => None,
    }
}

impl ApplicationArraySize {
    /// the size is `VariableLinear`
    pub open spec fn spec_is_variable_linear(self) -> bool {
        self is VariableLinear
    }

    /// the size is one of `VariableSquare`, `VariableRectangular`, `VariableFullyFlexible`
    pub open spec fn spec_is_multi_dimensional(self) -> bool {
        self is VariableSquare || self is VariableRectangular || self is VariableFullyFlexible
    }

    /// the size suits an array element whose data type is, or is not, an array
    pub open spec fn suits_element_type(self, is_array_datatype: bool) -> bool {
        if is_array_datatype { !self.spec_is_variable_linear() } else { !self.spec_is_multi_dimensional() }
    }

    /// the size is `VariableLinear`
    pub fn is_variable_linear(&self) -> (r: bool)
        ensures
            r == self.spec_is_variable_linear(),
    {
        match self {
            ApplicationArraySize::VariableLinear(_) => true,
            _ => false,
        }
    }

    /// the size is one of `VariableSquare`, `VariableRectangular`, `VariableFullyFlexible`
    pub fn is_multi_dimensional(&self) -> (r: bool)
        ensures
            r == self.spec_is_multi_dimensional(),
    {
        match self {
            ApplicationArraySize::VariableSquare => true,
            ApplicationArraySize::VariableRectangular(_) => true,
            ApplicationArraySize::VariableFullyFlexible(_) => true,
            _ => false,
        }
    }

    /// the DYNAMIC-ARRAY-SIZE-PROFILE text of the size
    pub open spec fn spec_profile(self) -> Option<Seq<char>> {
        match self {
            ApplicationArraySize::Fixed(_) => None,
            ApplicationArraySize::VariableLinear(_) => Some("VSA_LINEAR"@),
            ApplicationArraySize::VariableSquare => Some("VSA_SQUARE"@),
            ApplicationArraySize::VariableRectangular(_) => Some("VSA_RECTANGULAR"@),
            ApplicationArraySize::VariableFullyFlexible(_) => Some("VSA_FULLY_FLEXIBLE"@),
        }
    }

    /// the MAX-NUMBER-OF-ELEMENTS of the size
    pub open spec fn spec_max(self) -> Option<u64> {
        match self {
            ApplicationArraySize::Fixed(n) => Some(n),
            ApplicationArraySize::VariableLinear(n) => Some(n),
            ApplicationArraySize::VariableSquare => None,
            ApplicationArraySize::VariableRectangular(n) => Some(n),
            ApplicationArraySize::VariableFullyFlexible(n) => Some(n),
        }
    }

    /// the ARRAY-SIZE-SEMANTICS item text of the size
    pub open spec fn spec_semantics(self) -> Seq<char> {
        match self {
            ApplicationArraySize::Fixed(_) => "FIXED-SIZE"@,
            _ => "VARIABLE-SIZE"@,
        }
    }

    /// the ARRAY-SIZE-HANDLING item text of the size
    pub open spec fn spec_handling(self) -> Option<Seq<char>> {
        match self {
            ApplicationArraySize::Fixed(_) => None,
            ApplicationArraySize::VariableLinear(_) => Some("ALL-INDICES-SAME-ARRAY-SIZE"@),
            ApplicationArraySize::VariableSquare => Some("INHERITED-FROM-ARRAY-ELEMENT-TYPE-SIZE"@),
            ApplicationArraySize::VariableRectangular(_) => Some("ALL-INDICES-SAME-ARRAY-SIZE"@),
            ApplicationArraySize::VariableFullyFlexible(_) => Some("ALL-INDICES-DIFFERENT-ARRAY-SIZE"@),
        }
    }

    /// the size read from a DYNAMIC-ARRAY-SIZE-PROFILE text and a MAX-NUMBER-OF-ELEMENTS
    pub open spec fn spec_from_settings(profile: Option<Seq<char>>, max: Option<u64>) -> Option<Self> {
        match profile {
            Some(p) => if p == "VSA_LINEAR"@ {
                match max { Some(n) => Some(ApplicationArraySize::VariableLinear(n)), None => None }
            } else if p == "VSA_SQUARE"@ {
                Some(ApplicationArraySize::VariableSquare)
            } else if p == "VSA_RECTANGULAR"@ {
                match max { Some(n) => Some(ApplicationArraySize::VariableRectangular(n)), None => None }
            } else if p == "VSA_FULLY_FLEXIBLE"@ {
                match max { Some(n) => Some(ApplicationArraySize::VariableFullyFlexible(n)), None => None }
            } else {
                None
            },
            None => match max { Some(n) => Some(ApplicationArraySize::Fixed(n)), None => None },
        }
    }

    /// the content that the size is stored as
    pub fn settings(&self) -> (r: ArraySizeSettings)
        ensures
            opt_text(r.size_profile) == self.spec_profile(),
            r.max_number_of_elements == self.spec_max(),
            r.size_semantics@ == self.spec_semantics(),
            opt_text(r.size_handling) == self.spec_handling(),
    {
        match self {
            ApplicationArraySize::Fixed(size) => ArraySizeSettings {
                size_profile: None,
                max_number_of_elements: Some(*size),
                size_semantics: "FIXED-SIZE",
                size_handling: None,
            },
            ApplicationArraySize::VariableLinear(max_size) => ArraySizeSettings {
                size_profile: Some("VSA_LINEAR"),
                max_number_of_elements: Some(*max_size),
                size_semantics: "VARIABLE-SIZE",
                size_handling: Some("ALL-INDICES-SAME-ARRAY-SIZE"),
            },
            ApplicationArraySize::VariableSquare => ArraySizeSettings {
                size_profile: Some("VSA_SQUARE"),
                max_number_of_elements: None,
                size_semantics: "VARIABLE-SIZE",
                size_handling: Some("INHERITED-FROM-ARRAY-ELEMENT-TYPE-SIZE"),
            },
            ApplicationArraySize::VariableRectangular(max_size) => ArraySizeSettings {
                size_profile: Some("VSA_RECTANGULAR"),
                max_number_of_elements: Some(*max_size),
                size_semantics: "VARIABLE-SIZE",
                size_handling: Some("ALL-INDICES-SAME-ARRAY-SIZE"),
            },
            ApplicationArraySize::VariableFullyFlexible(max_size) => ArraySizeSettings {
                size_profile: Some("VSA_FULLY_FLEXIBLE"),
                max_number_of_elements: Some(*max_size),
                size_semantics: "VARIABLE-SIZE",
                size_handling: Some("ALL-INDICES-DIFFERENT-ARRAY-SIZE"),
            },
        }
    }

    /// read the size from a DYNAMIC-ARRAY-SIZE-PROFILE text and a MAX-NUMBER-OF-ELEMENTS
    ///
    /// Without a profile the size is fixed. An unknown profile gives no size.
    pub fn from_settings(profile: Option<&str>, max: Option<u64>) -> (r: Option<Self>)
        ensures
            r == Self::spec_from_settings(
                match profile { Some(p) => Some(p@), None => None },
                max,
            ),
    {
        match profile {
            Some(p) => {
                if text_equals(p, "VSA_LINEAR") {
                    match max { Some(n) => Some(ApplicationArraySize::VariableLinear(n)), None => None }
                } else if text_equals(p, "VSA_SQUARE") {
                    Some(ApplicationArraySize::VariableSquare)
                } else if text_equals(p, "VSA_RECTANGULAR") {
                    match max { Some(n) => Some(ApplicationArraySize::VariableRectangular(n)), None => None }
                } else if text_equals(p, "VSA_FULLY_FLEXIBLE") {
                    match max { Some(n) => Some(ApplicationArraySize::VariableFullyFlexible(n)), None => None }
                } else {
                    None
                }
            },
            None => match max {
                Some(n) => Some(ApplicationArraySize::Fixed(n)),
                None => None,
            },
        }
    }
}

/// Reading back the stored content of an array size gives the size.
pub proof fn lemma_array_size_settings_roundtrip(size: ApplicationArraySize)
    ensures
        ApplicationArraySize::spec_from_settings(size.spec_profile(), size.spec_max()) == Some(size),
{
    reveal_strlit("VSA_LINEAR");
    reveal_strlit("VSA_SQUARE");
    reveal_strlit("VSA_RECTANGULAR");
    reveal_strlit("VSA_FULLY_FLEXIBLE");
    match size.spec_profile() {
        Some(p) => {
            assert(p[4] != 'L' ==> p != "VSA_LINEAR"@);
            assert(p[4] != 'S' ==> p != "VSA_SQUARE"@);
            assert(p[4] != 'R' ==> p != "VSA_RECTANGULAR"@);
            assert(p[4] != 'F' ==> p != "VSA_FULLY_FLEXIBLE"@);
        },
        None => {},
    }
}

//#########################################################

/// An element in an application array data type
#[derive(Debug, Clone, PartialEq, Eq, Hash)]
pub struct ApplicationArrayElement(Element);

impl AbstractionElement for ApplicationArrayElement {
    closed spec fn spec_element(&self) -> Element {
        self.0
    }

    fn element(&self) -> (r: &Element) {
        proof {
            assert(self.spec_element() == self.0);
        }
        &self.0
    }
}

impl ApplicationArrayElement {
    /// wrap an element of the model whose element name is `ELEMENT`
    pub fn from_element(element: Element) -> (r: Result<Self, AutosarAbstractionError>)
        ensures
            r is Ok <==> spec_element_name(element) == "ELEMENT"@,
            r matches Ok(x) ==> x.spec_element() == element,
            r matches Err(e) ==> is_conversion_error(e, element, "ApplicationArrayElement"@),
    {
        if has_element_name(&element, "ELEMENT") {
            Ok(ApplicationArrayElement(element))
        } else {
            Err(AutosarAbstractionError::ConversionError { element, dest: "ApplicationArrayElement".to_owned() })
        }
    }
}

impl TryFrom<Element> for ApplicationArrayElement {
    type Error = AutosarAbstractionError;

    fn try_from(element: Element) -> (r: Result<Self, Self::Error>)
        ensures
            r is Ok <==> spec_element_name(element) == "ELEMENT"@,
            r matches Ok(x) ==> x.spec_element() == element,
            r matches Err(e) ==> is_conversion_error(e, element, "ApplicationArrayElement"@),
    {
        ApplicationArrayElement::from_element(element)
    }
}

impl TryFromSpecImpl<Element> for ApplicationArrayElement {
    open spec fn obeys_try_from_spec() -> bool {
        false
    }

    open spec fn try_from_spec(v: Element) -> Result<Self, AutosarAbstractionError> {
        arbitrary()
    }
}

impl From<ApplicationArrayElement> for Element {
    fn from(value: ApplicationArrayElement) -> (r: Element)
        ensures
            r == value.spec_element(),
    {
        value.0
    }
}

impl FromSpecImpl<ApplicationArrayElement> for Element {
    open spec fn obeys_from_spec() -> bool {
        false
    }

    open spec fn from_spec(v: ApplicationArrayElement) -> Element {
        arbitrary()
    }
}

impl IdentifiableAbstractionElement for ApplicationArrayElement {}

impl ApplicationArrayElement {
    fn new(name: &str, parent: &ApplicationArrayDataType, data_type: &ApplicationDataType) -> (r: Result<
        Self,
        AutosarAbstractionError,
    >)
        ensures
            r matches Err(e) ==> e is ModelError || e is InvalidParameter,
    {
        let application_array_element = create_named_sub_element(parent.element(), "ELEMENT", name)?;
        let application_array_element = ApplicationArrayElement(application_array_element);

        application_array_element.set_data_type(data_type)?;

        Ok(application_array_element)
    }

    /// remove the application array element from the model
    ///
    /// With `deep`, its data type is removed as well where nothing else uses it.
    pub fn remove(self, deep: bool) -> (r: Result<(), AutosarAbstractionError>)
        ensures
            r matches Err(e) ==> e is ModelError || e is InvalidParameter,
    {
        self.remove_within(deep, REMOVE_DEPTH_LIMIT)
    }

    fn remove_within(self, deep: bool, depth: u64) -> (r: Result<(), AutosarAbstractionError>)
        ensures
            r matches Err(e) ==> e is ModelError || e is InvalidParameter,
        decreases depth,
    {
        if depth == 0 {
            return Err(depth_limit_error());
        }
        let opt_data_type = self.data_type();

        remove_element(self.element())?;

        if deep {
            if let Some(data_type) = opt_data_type {
                if !is_used(data_type.element()) {
                    data_type.remove_within(deep, depth - 1)?;
                }
            }
        }

        Ok(())
    }

    /// set the data type of the array element
    ///
    /// The category of the array element is kept equal to the category of the data type.
    pub fn set_data_type<T: Into<ApplicationDataType> + AbstractionElement + Clone>(&self, data_type: &T) -> (r: Result<
        (),
        AutosarAbstractionError,
    >)
        ensures
            r matches Err(e) ==> e is ModelError || e is InvalidParameter,
    {
        let data_type: ApplicationDataType = data_type.clone().into();
        set_type_and_category(self.element(), &data_type)
    }

    /// get the data type of the array element
    pub fn data_type(&self) -> Option<ApplicationDataType> {
        referenced_data_type(self.element())
    }
}

/// set the TYPE-TREF of an element, and keep its category equal to the category of the data type
fn set_type_and_category(element: &Element, data_type: &ApplicationDataType) -> (r: Result<(), AutosarAbstractionError>)
    ensures
        r matches Err(e) ==> e is ModelError || e is InvalidParameter,
{
    let type_ref = get_or_create_sub_element(element, "TYPE-TREF")?;
    set_reference_target(&type_ref, data_type.element())?;
    if let Some(category) = data_type.category() {
        let category_elem = get_or_create_sub_element(element, "CATEGORY")?;
        set_character_data_text(&category_elem, category.as_str())?;
    } else {
        let _ = remove_sub_element_kind(element, "CATEGORY");
    }
    Ok(())
}

/// the data type that the TYPE-TREF of an element refers to
fn referenced_data_type(element: &Element) -> (r: Option<ApplicationDataType>)
    ensures
        r matches Some(x) ==> is_application_data_type_name(spec_element_name(x.spec_element())),
{
    let type_ref = get_sub_element(element, "TYPE-TREF")?;
    let target = match get_reference_target(&type_ref) {
        Ok(target) => target,
        Err(_) => return None,
    };
    match ApplicationDataType::from_element(target) {
        Ok(data_type) => Some(data_type),
        Err(_) => None,
    }
}

//#########################################################

/// An application record data type
#[derive(Debug, Clone, PartialEq, Eq, Hash)]
pub struct ApplicationRecordDataType(Element);

impl AbstractionElement for ApplicationRecordDataType {
    closed spec fn spec_element(&self) -> Element {
        self.0
    }

    fn element(&self) -> (r: &Element) {
        proof {
            assert(self.spec_element() == self.0);
        }
        &self.0
    }
}

impl ApplicationRecordDataType {
    /// wrap an element of the model whose element name is `APPLICATION-RECORD-DATA-TYPE`
    pub fn from_element(element: Element) -> (r: Result<Self, AutosarAbstractionError>)
        ensures
            r is Ok <==> spec_element_name(element) == "APPLICATION-RECORD-DATA-TYPE"@,
            r matches Ok(x) ==> x.spec_element() == element,
            r matches Err(e) ==> is_conversion_error(e, element, "ApplicationRecordDataType"@),
    {
        if has_element_name(&element, "APPLICATION-RECORD-DATA-TYPE") {
            Ok(ApplicationRecordDataType(element))
        } else {
            Err(AutosarAbstractionError::ConversionError { element, dest: "ApplicationRecordDataType".to_owned() })
        }
    }
}

impl TryFrom<Element> for ApplicationRecordDataType {
    type Error = AutosarAbstractionError;

    fn try_from(element: Element) -> (r: Result<Self, Self::Error>)
        ensures
            r is Ok <==> spec_element_name(element) == "APPLICATION-RECORD-DATA-TYPE"@,
            r matches Ok(x) ==> x.spec_element() == element,
            r matches Err(e) ==> is_conversion_error(e, element, "ApplicationRecordDataType"@),
    {
        ApplicationRecordDataType::from_element(element)
    }
}

impl TryFromSpecImpl<Element> for ApplicationRecordDataType {
    open spec fn obeys_try_from_spec() -> bool {
        false
    }

    open spec fn try_from_spec(v: Element) -> Result<Self, AutosarAbstractionError> {
        arbitrary()
    }
}

impl From<ApplicationRecordDataType> for Element {
    fn from(value: ApplicationRecordDataType) -> (r: Element)
        ensures
            r == value.spec_element(),
    {
        value.0
    }
}

impl FromSpecImpl<ApplicationRecordDataType> for Element {
    open spec fn obeys_from_spec() -> bool {
        false
    }

    open spec fn from_spec(v: ApplicationRecordDataType) -> Element {
        arbitrary()
    }
}

impl IdentifiableAbstractionElement for ApplicationRecordDataType {}

impl AbstractAutosarDataType for ApplicationRecordDataType {}

impl ApplicationRecordDataType {
    /// create a new application record data type in the given package
    pub fn new(name: &str, package: &ArPackage) -> (r: Result<Self, AutosarAbstractionError>)
        ensures
            r matches Ok(t) ==> spec_element_name(t.spec_element()) == "APPLICATION-RECORD-DATA-TYPE"@,
            r matches Err(e) ==> e is ModelError || e is InvalidParameter,
    {
        let elements = get_or_create_sub_element(package.element(), "ELEMENTS")?;
        let application_record_data_type = create_named_sub_element(&elements, "APPLICATION-RECORD-DATA-TYPE", name)?;

        let category = create_sub_element(&application_record_data_type, "CATEGORY")?;
        set_character_data_text(&category, "STRUCTURE")?;

        Ok(ApplicationRecordDataType(application_record_data_type))
    }

    /// remove the application record data type from the model
    ///
    /// With `deep`, the data types of the record elements and the elements that use this
    /// data type are removed as well, where nothing else uses them.
    pub fn remove(self, deep: bool) -> (r: Result<(), AutosarAbstractionError>)
        ensures
            r matches Err(e) ==> e is ModelError || e is InvalidParameter,
    {
        self.remove_within(deep, REMOVE_DEPTH_LIMIT)
    }

    fn remove_within(self, deep: bool, depth: u64) -> (r: Result<(), AutosarAbstractionError>)
        ensures
            r matches Err(e) ==> e is ModelError || e is InvalidParameter,
        decreases depth,
    {
        if depth == 0 {
            return Err(depth_limit_error());
        }
        let record_elements = self.record_elements();
        let mut i: usize = 0;
        while i < record_elements.len()
            invariant
                0 <= i <= record_elements.len(),
                depth > 0,
            decreases record_elements.len() - i,
        {
            record_elements[i].clone().remove_within(deep, depth - 1)?;
            i = i + 1;
        }
        let ref_parents = get_reference_parents(self.element())?;

        remove_element(self.element())?;

        remove_helper(ref_parents, deep, depth - 1)
    }

    /// create a new element in the record data type
    pub fn create_record_element<T: Into<ApplicationDataType> + Clone>(&self, name: &str, data_type: &T) -> (r: Result<
        ApplicationRecordElement,
        AutosarAbstractionError,
    >)
        ensures
            r matches Ok(t) ==> spec_element_name(t.spec_element()) == "APPLICATION-RECORD-ELEMENT"@,
            r matches Err(e) ==> e is ModelError || e is InvalidParameter,
    {
        let data_type: ApplicationDataType = data_type.clone().into();
        ApplicationRecordElement::new(name, self, &data_type)
    }

    /// get the record elements of the record data type
    pub fn record_elements(&self) -> (r: Vec<ApplicationRecordElement>)
        ensures
            forall|i: int| 0 <= i < r.len() ==> spec_element_name(#[trigger] r@[i].spec_element()) == "APPLICATION-RECORD-ELEMENT"@,
    {
        let mut result: Vec<ApplicationRecordElement> = Vec::new();
        if let Some(elements) = get_sub_element(self.element(), "ELEMENTS") {
            let items = sub_elements(&elements);
            for i in 0..items.len()
                invariant
                    forall|j: int| 0 <= j < result.len() ==> spec_element_name(#[trigger] result@[j].spec_element()) == "APPLICATION-RECORD-ELEMENT"@,
            {
                if let Ok(record_element) = ApplicationRecordElement::from_element(items[i].clone()) {
                    result.push(record_element);
                }
            }
        }
        result
    }
}

//#########################################################

/// An element in an application record data type
#[derive(Debug, Clone, PartialEq, Eq, Hash)]
pub struct ApplicationRecordElement(Element);

impl AbstractionElement for ApplicationRecordElement {
    closed spec fn spec_element(&self) -> Element {
        self.0
    }

    fn element(&self) -> (r: &Element) {
        proof {
            assert(self.spec_element() == self.0);
        }
        &self.0
    }
}

impl ApplicationRecordElement {
    /// wrap an element of the model whose element name is `APPLICATION-RECORD-ELEMENT`
    pub fn from_element(element: Element) -> (r: Result<Self, AutosarAbstractionError>)
        ensures
            r is Ok <==> spec_element_name(element) == "APPLICATION-RECORD-ELEMENT"@,
            r matches Ok(x) ==> x.spec_element() == element,
            r matches Err(e) ==> is_conversion_error(e, element, "ApplicationRecordElement"@),
    {
        if has_element_name(&element, "APPLICATION-RECORD-ELEMENT") {
            Ok(ApplicationRecordElement(element))
        } else {
            Err(AutosarAbstractionError::ConversionError { element, dest: "ApplicationRecordElement".to_owned() })
        }
    }
}

impl TryFrom<Element> for ApplicationRecordElement {
    type Error = AutosarAbstractionError;

    fn try_from(element: Element) -> (r: Result<Self, Self::Error>)
        ensures
            r is Ok <==> spec_element_name(element) == "APPLICATION-RECORD-ELEMENT"@,
            r matches Ok(x) ==> x.spec_element() == element,
            r matches Err(e) ==> is_conversion_error(e, element, "ApplicationRecordElement"@),
    {
        ApplicationRecordElement::from_element(element)
    }
}

impl TryFromSpecImpl<Element> for ApplicationRecordElement {
    open spec fn obeys_try_from_spec() -> bool {
        false
    }

    open spec fn try_from_spec(v: Element) -> Result<Self, AutosarAbstractionError> {
        arbitrary()
    }
}

impl From<ApplicationRecordElement> for Element {
    fn from(value: ApplicationRecordElement) -> (r: Element)
        ensures
            r == value.spec_element(),
    {
        value.0
    }
}

impl FromSpecImpl<ApplicationRecordElement> for Element {
    open spec fn obeys_from_spec() -> bool {
        false
    }

    open spec fn from_spec(v: ApplicationRecordElement) -> Element {
        arbitrary()
    }
}

impl IdentifiableAbstractionElement for ApplicationRecordElement {}

impl ApplicationRecordElement {
    fn new(name: &str, parent: &ApplicationRecordDataType, data_type: &ApplicationDataType) -> (r: Result<
        Self,
        AutosarAbstractionError,
    >)
        ensures
            r matches Ok(t) ==> spec_element_name(t.spec_element()) == "APPLICATION-RECORD-ELEMENT"@,
            r matches Err(e) ==> e is ModelError || e is InvalidParameter,
    {
        let elements = get_or_create_sub_element(parent.element(), "ELEMENTS")?;
        let application_record_element = create_named_sub_element(&elements, "APPLICATION-RECORD-ELEMENT", name)?;

        let application_record_element = ApplicationRecordElement(application_record_element);
        application_record_element.set_data_type(data_type)?;

        Ok(application_record_element)
    }

    /// remove the application record element from the model
    ///
    /// With `deep`, its data type is removed as well where nothing else uses it.
    pub fn remove(self, deep: bool) -> (r: Result<(), AutosarAbstractionError>)
        ensures
            r matches Err(e) ==> e is ModelError || e is InvalidParameter,
    {
        self.remove_within(deep, REMOVE_DEPTH_LIMIT)
    }

    fn remove_within(self, deep: bool, depth: u64) -> (r: Result<(), AutosarAbstractionError>)
        ensures
            r matches Err(e) ==> e is ModelError || e is InvalidParameter,
        decreases depth,
    {
        if depth == 0 {
            return Err(depth_limit_error());
        }
        let opt_data_type = self.data_type();

        remove_element(self.element())?;

        if deep {
            if let Some(data_type) = opt_data_type {
                if !is_used(data_type.element()) {
                    data_type.remove_within(deep, depth - 1)?;
                }
            }
        }

        Ok(())
    }

    /// set the data type of the record element
    ///
    /// The category of the record element is kept equal to the category of the data type.
    pub fn set_data_type<T: Into<ApplicationDataType> + AbstractionElement + Clone>(&self, data_type: &T) -> (r: Result<
        (),
        AutosarAbstractionError,
    >)
        ensures
            r matches Err(e) ==> e is ModelError || e is InvalidParameter,
    {
        let data_type: ApplicationDataType = data_type.clone().into();
        set_type_and_category(self.element(), &data_type)
    }

    /// get the data type of the record element
    pub fn data_type(&self) -> Option<ApplicationDataType> {
        referenced_data_type(self.element())
    }
}

//#########################################################

/// An application primitive data type
#[derive(Debug, Clone, PartialEq, Eq, Hash)]
pub struct ApplicationPrimitiveDataType(Element);

impl AbstractionElement for ApplicationPrimitiveDataType {
    closed spec fn spec_element(&self) -> Element {
        self.0
    }

    fn element(&self) -> (r: &Element) {
        proof {
            assert(self.spec_element() == self.0);
        }
        &self.0
    }
}

impl ApplicationPrimitiveDataType {
    /// wrap an element of the model whose element name is `APPLICATION-PRIMITIVE-DATA-TYPE`
    pub fn from_element(element: Element) -> (r: Result<Self, AutosarAbstractionError>)
        ensures
            r is Ok <==> spec_element_name(element) == "APPLICATION-PRIMITIVE-DATA-TYPE"@,
            r matches Ok(x) ==> x.spec_element() == element,
            r matches Err(e) ==> is_conversion_error(e, element, "ApplicationPrimitiveDataType"@),
    {
        if has_element_name(&element, "APPLICATION-PRIMITIVE-DATA-TYPE") {
            Ok(ApplicationPrimitiveDataType(element))
        } else {
            Err(AutosarAbstractionError::ConversionError { element, dest: "ApplicationPrimitiveDataType".to_owned() })
        }
    }
}

impl TryFrom<Element> for ApplicationPrimitiveDataType {
    type Error = AutosarAbstractionError;

    fn try_from(element: Element) -> (r: Result<Self, Self::Error>)
        ensures
            r is Ok <==> spec_element_name(element) == "APPLICATION-PRIMITIVE-DATA-TYPE"@,
            r matches Ok(x) ==> x.spec_element() == element,
            r matches Err(e) ==> is_conversion_error(e, element, "ApplicationPrimitiveDataType"@),
    {
        ApplicationPrimitiveDataType::from_element(element)
    }
}

impl TryFromSpecImpl<Element> for ApplicationPrimitiveDataType {
    open spec fn obeys_try_from_spec() -> bool {
        false
    }

    open spec fn try_from_spec(v: Element) -> Result<Self, AutosarAbstractionError> {
        arbitrary()
    }
}

impl From<ApplicationPrimitiveDataType> for Element {
    fn from(value: ApplicationPrimitiveDataType) -> (r: Element)
        ensures
            r == value.spec_element(),
    {
        value.0
    }
}

impl FromSpecImpl<ApplicationPrimitiveDataType> for Element {
    open spec fn obeys_from_spec() -> bool {
        false
    }

    open spec fn from_spec(v: ApplicationPrimitiveDataType) -> Element {
        arbitrary()
    }
}

impl IdentifiableAbstractionElement for ApplicationPrimitiveDataType {}

impl AbstractAutosarDataType for ApplicationPrimitiveDataType {}

impl ApplicationPrimitiveDataType {
    /// create a new application primitive data type in the given package
    pub fn new(
        name: &str,
        package: &ArPackage,
        category: ApplicationPrimitiveCategory,
        compu_method: Option<&CompuMethod>,
        unit: Option<&Unit>,
        data_constraint: Option<&DataConstr>,
    ) -> (r: Result<Self, AutosarAbstractionError>)
        ensures
            r matches Ok(t) ==> spec_element_name(t.spec_element()) == "APPLICATION-PRIMITIVE-DATA-TYPE"@,
            r matches Err(e) ==> e is ModelError || e is InvalidParameter,
    {
        let elements = get_or_create_sub_element(package.element(), "ELEMENTS")?;
        let application_primitive_data_type = create_named_sub_element(
            &elements,
            "APPLICATION-PRIMITIVE-DATA-TYPE",
            name,
        )?;

        let application_primitive_data_type = ApplicationPrimitiveDataType(application_primitive_data_type);

        application_primitive_data_type.set_category(category)?;
        application_primitive_data_type.set_compu_method(compu_method)?;
        application_primitive_data_type.set_unit(unit)?;
        application_primitive_data_type.set_data_constraint(data_constraint)?;

        Ok(application_primitive_data_type)
    }

    /// remove the application primitive data type from the model
    ///
    /// With `deep`, its compu method, unit and data constraint and the elements that use
    /// this data type are removed as well, where nothing else uses them.
    pub fn remove(self, deep: bool) -> (r: Result<(), AutosarAbstractionError>)
        ensures
            r matches Err(e) ==> e is ModelError || e is InvalidParameter,
    {
        self.remove_within(deep, REMOVE_DEPTH_LIMIT)
    }

    fn remove_within(self, deep: bool, depth: u64) -> (r: Result<(), AutosarAbstractionError>)
        ensures
            r matches Err(e) ==> e is ModelError || e is InvalidParameter,
        decreases depth,
    {
        if depth == 0 {
            return Err(depth_limit_error());
        }
        let opt_compu_method = self.compu_method();
        let opt_unit = self.unit();
        let opt_data_constraint = self.data_constraint();
        let ref_parents = get_reference_parents(self.element())?;

        remove_element(self.element())?;

        if deep {
            if let Some(compu_method) = opt_compu_method {
                if !is_used(compu_method.element()) {
                    remove_element(compu_method.element())?;
                }
            }
            if let Some(unit) = opt_unit {
                if !is_used(unit.element()) {
                    remove_element(unit.element())?;
                }
            }
            if let Some(data_constraint) = opt_data_constraint {
                if !is_used(data_constraint.element()) {
                    remove_element(data_constraint.element())?;
                }
            }
        }

        remove_helper(ref_parents, deep, depth - 1)
    }

    /// set the category of the primitive data type
    pub fn set_category(&self, category: ApplicationPrimitiveCategory) -> (r: Result<(), AutosarAbstractionError>)
        ensures
            r matches Err(e) ==> is_model_or_name_error(e, "CATEGORY"@),
    {
        let category_elem = get_or_create_sub_element(self.element(), "CATEGORY")?;
        set_character_data_text(&category_elem, category.text())
    }

    /// get the category of the primitive data type
    pub fn category(&self) -> Option<ApplicationPrimitiveCategory> {
        let category_elem = get_sub_element(self.element(), "CATEGORY")?;
        let text = string_value(character_data(&category_elem)?)?;
        match ApplicationPrimitiveCategory::from_text(&text) {
            Ok(category) => Some(category),
            Err(_) => None,
        }
    }

    /// set the compu method of the primitive data type
    pub fn set_compu_method(&self, compu_method: Option<&CompuMethod>) -> (r: Result<(), AutosarAbstractionError>)
        ensures
            r matches Err(e) ==> e is ModelError || e is InvalidParameter,
    {
        match compu_method {
            Some(compu_method) => set_data_def_props_ref(self.element(), "COMPU-METHOD-REF", compu_method.element()),
            None => {
                remove_data_def_props_ref(self.element(), "COMPU-METHOD-REF");
                Ok(())
            },
        }
    }

    /// get the compu method of the primitive data type
    pub fn compu_method(&self) -> (r: Option<CompuMethod>)
        ensures
            r matches Some(x) ==> spec_element_name(x.spec_element()) == "COMPU-METHOD"@,
    {
        let target = data_def_props_target(self.element(), "COMPU-METHOD-REF")?;
        match CompuMethod::from_element(target) {
            Ok(compu_method) => Some(compu_method),
            Err(_) => None,
        }
    }

    /// set the unit of the primitive data type
    pub fn set_unit(&self, unit: Option<&Unit>) -> (r: Result<(), AutosarAbstractionError>)
        ensures
            r matches Err(e) ==> e is ModelError || e is InvalidParameter,
    {
        match unit {
            Some(unit) => set_data_def_props_ref(self.element(), "UNIT-REF", unit.element()),
            None => {
                remove_data_def_props_ref(self.element(), "UNIT-REF");
                Ok(())
            },
        }
    }

    /// get the unit of the primitive data type
    pub fn unit(&self) -> (r: Option<Unit>)
        ensures
            r matches Some(x) ==> spec_element_name(x.spec_element()) == "UNIT"@,
    {
        let target = data_def_props_target(self.element(), "UNIT-REF")?;
        match Unit::from_element(target) {
            Ok(unit) => Some(unit),
            Err(_) => None,
        }
    }

    /// set the data constraint of the primitive data type
    pub fn set_data_constraint(&self, data_constraint: Option<&DataConstr>) -> (r: Result<(), AutosarAbstractionError>)
        ensures
            r matches Err(e) ==> e is ModelError || e is InvalidParameter,
    {
        match data_constraint {
            Some(data_constraint) => set_data_def_props_ref(
                self.element(),
                "DATA-CONSTR-REF",
                data_constraint.element(),
            ),
            None => {
                remove_data_def_props_ref(self.element(), "DATA-CONSTR-REF");
                Ok(())
            },
        }
    }

    /// get the data constraint of the primitive data type
    pub fn data_constraint(&self) -> (r: Option<DataConstr>)
        ensures
            r matches Some(x) ==> spec_element_name(x.spec_element()) == "DATA-CONSTR"@,
    {
        let target = data_def_props_target(self.element(), "DATA-CONSTR-REF")?;
        match DataConstr::from_element(target) {
            Ok(data_constr) => Some(data_constr),
            Err(_) => None,
        }
    }
}

/// set the reference `ref_name` in the SW-DATA-DEF-PROPS-CONDITIONAL of an element, creating the path to it
fn set_data_def_props_ref(element: &Element, ref_name: &str, target: &Element) -> (r: Result<(), AutosarAbstractionError>)
    ensures
        r matches Err(e) ==> e is ModelError || e is InvalidParameter,
{
    let props = get_or_create_sub_element(element, "SW-DATA-DEF-PROPS")?;
    let variants = get_or_create_sub_element(&props, "SW-DATA-DEF-PROPS-VARIANTS")?;
    let conditional = get_or_create_sub_element(&variants, "SW-DATA-DEF-PROPS-CONDITIONAL")?;
    let reference = get_or_create_sub_element(&conditional, ref_name)?;
    set_reference_target(&reference, target)
}

/// remove the reference `ref_name` from the SW-DATA-DEF-PROPS-CONDITIONAL of an element, if it exists
fn remove_data_def_props_ref(element: &Element, ref_name: &str) {
    if let Some(props) = get_sub_element(element, "SW-DATA-DEF-PROPS") {
        if let Some(variants) = get_sub_element(&props, "SW-DATA-DEF-PROPS-VARIANTS") {
            if let Some(conditional) = get_sub_element(&variants, "SW-DATA-DEF-PROPS-CONDITIONAL") {
                let _ = remove_sub_element_kind(&conditional, ref_name);
            }
        }
    }
}

//#########################################################

/// The category of an application primitive data type
#[derive(Debug, Clone, Copy, PartialEq, Eq, Hash)]
pub enum ApplicationPrimitiveCategory {
    /// Value
    Value,
    /// Value block
    ValBlk,
    /// String
    String,
    /// Boolean
    Boolean,
    /// Common axis
    ComAxis,
    /// Rescale axis
    ResAxis,
    /// Curve - 1D array with an axis
    Curve,
    /// Map - 2D array with two axes
    Map2D,
    /// Cuboid - 3D array with three axes
    Cuboid,
    /// Cube4 - 4D array with four axes
    Cube4,
    /// Cube5 - 5D array with five axes
    Cube5,
}

impl ApplicationPrimitiveCategory {
    /// the text of the category as it is stored in the model
    pub open spec fn spec_text(self) -> Seq<char> {
        match self {
            ApplicationPrimitiveCategory::Value => "VALUE"@,
            ApplicationPrimitiveCategory::ValBlk => "VAL_BLK"@,
            ApplicationPrimitiveCategory::String => "STRING"@,
            ApplicationPrimitiveCategory::Boolean => "BOOLEAN"@,
            ApplicationPrimitiveCategory::ComAxis => "COM_AXIS"@,
            ApplicationPrimitiveCategory::ResAxis => "RES_AXIS"@,
            ApplicationPrimitiveCategory::Curve => "CURVE"@,
            ApplicationPrimitiveCategory::Map2D => "MAP"@,
            ApplicationPrimitiveCategory::Cuboid => "CUBOID"@,
            ApplicationPrimitiveCategory::Cube4 => "CUBE_4"@,
            ApplicationPrimitiveCategory::Cube5 => "CUBE_5"@,
        }
    }

    /// the category whose text is `text`, if there is one
    pub open spec fn spec_from_text(text: Seq<char>) -> Option<Self> {
        if text == "VALUE"@ {
            Some(ApplicationPrimitiveCategory::Value)
        } else if text == "VAL_BLK"@ {
            Some(ApplicationPrimitiveCategory::ValBlk)
        } else if text == "STRING"@ {
            Some(ApplicationPrimitiveCategory::String)
        } else if text == "BOOLEAN"@ {
            Some(ApplicationPrimitiveCategory::Boolean)
        } else if text == "COM_AXIS"@ {
            Some(ApplicationPrimitiveCategory::ComAxis)
        } else if text == "RES_AXIS"@ {
            Some(ApplicationPrimitiveCategory::ResAxis)
        } else if text == "CURVE"@ {
            Some(ApplicationPrimitiveCategory::Curve)
        } else if text == "MAP"@ {
            Some(ApplicationPrimitiveCategory::Map2D)
        } else if text == "CUBOID"@ {
            Some(ApplicationPrimitiveCategory::Cuboid)
        } else if text == "CUBE_4"@ {
            Some(ApplicationPrimitiveCategory::Cube4)
        } else if text == "CUBE_5"@ {
            Some(ApplicationPrimitiveCategory::Cube5)
        } else {
            None
        }
    }

    /// the text of the category as it is stored in the model
    pub fn text(&self) -> (r: &'static str)
        ensures
            r@ == self.spec_text(),
    {
        match self {
            ApplicationPrimitiveCategory::Value => "VALUE",
            ApplicationPrimitiveCategory::ValBlk => "VAL_BLK",
            ApplicationPrimitiveCategory::String => "STRING",
            ApplicationPrimitiveCategory::Boolean => "BOOLEAN",
            ApplicationPrimitiveCategory::ComAxis => "COM_AXIS",
            ApplicationPrimitiveCategory::ResAxis => "RES_AXIS",
            ApplicationPrimitiveCategory::Curve => "CURVE",
            ApplicationPrimitiveCategory::Map2D => "MAP",
            ApplicationPrimitiveCategory::Cuboid => "CUBOID",
            ApplicationPrimitiveCategory::Cube4 => "CUBE_4",
            ApplicationPrimitiveCategory::Cube5 => "CUBE_5",
        }
    }

    /// the text of the category as it is stored in the model
    pub fn to_string(&self) -> (r: String)
        ensures
            r@ == self.spec_text(),
    {
        self.text().to_owned()
    }

    /// parse the text of a category
    pub fn from_text(s: &str) -> (r: Result<Self, AutosarAbstractionError>)
        ensures
            match Self::spec_from_text(s@) {
                Some(c) => r == Ok::<Self, AutosarAbstractionError>(c),
                None => r matches Err(e) && is_value_conversion_error(e, s@, "ApplicationPrimitiveCategory"@),
            },
    {
        if text_equals(s, "VALUE") {
            Ok(ApplicationPrimitiveCategory::Value)
        } else if text_equals(s, "VAL_BLK") {
            Ok(ApplicationPrimitiveCategory::ValBlk)
        } else if text_equals(s, "STRING") {
            Ok(ApplicationPrimitiveCategory::String)
        } else if text_equals(s, "BOOLEAN") {
            Ok(ApplicationPrimitiveCategory::Boolean)
        } else if text_equals(s, "COM_AXIS") {
            Ok(ApplicationPrimitiveCategory::ComAxis)
        } else if text_equals(s, "RES_AXIS") {
            Ok(ApplicationPrimitiveCategory::ResAxis)
        } else if text_equals(s, "CURVE") {
            Ok(ApplicationPrimitiveCategory::Curve)
        } else if text_equals(s, "MAP") {
            Ok(ApplicationPrimitiveCategory::Map2D)
        } else if text_equals(s, "CUBOID") {
            Ok(ApplicationPrimitiveCategory::Cuboid)
        } else if text_equals(s, "CUBE_4") {
            Ok(ApplicationPrimitiveCategory::Cube4)
        } else if text_equals(s, "CUBE_5") {
            Ok(ApplicationPrimitiveCategory::Cube5)
        } else {
            Err(AutosarAbstractionError::ValueConversionError {
                value: s.to_owned(),
                dest: "ApplicationPrimitiveCategory".to_owned(),
            })
        }
    }
}

impl std::str::FromStr for ApplicationPrimitiveCategory {
    type Err = AutosarAbstractionError;

    fn from_str(s: &str) -> (r: Result<Self, Self::Err>)
        ensures
            match ApplicationPrimitiveCategory::spec_from_text(s@) {
                Some(c) => r == Ok::<Self, AutosarAbstractionError>(c),
                None => r matches Err(e) && is_value_conversion_error(e, s@, "ApplicationPrimitiveCategory"@),
            },
    {
        ApplicationPrimitiveCategory::from_text(s)
    }
}

/// Reading back the text of a category gives the category.
pub proof fn lemma_application_primitive_category_text_roundtrip(category: ApplicationPrimitiveCategory)
    ensures
        ApplicationPrimitiveCategory::spec_from_text(category.spec_text()) == Some(category),
{
    reveal_strlit("VALUE");
    reveal_strlit("VAL_BLK");
    reveal_strlit("STRING");
    reveal_strlit("BOOLEAN");
    reveal_strlit("COM_AXIS");
    reveal_strlit("RES_AXIS");
    reveal_strlit("CURVE");
    reveal_strlit("MAP");
    reveal_strlit("CUBOID");
    reveal_strlit("CUBE_4");
    reveal_strlit("CUBE_5");
    let t = category.spec_text();
    assert(t.len() != 5 || t[0] != 'V' ==> t != "VALUE"@);
    assert(t.len() != 7 ==> t != "VAL_BLK"@);
    assert(t[0] != 'S' ==> t != "STRING"@);
    assert(t[0] != 'B' ==> t != "BOOLEAN"@);
    assert(t[0] != 'C' || t[1] != 'O' ==> t != "COM_AXIS"@);
    assert(t[0] != 'R' ==> t != "RES_AXIS"@);
    assert(t.len() != 5 || t[0] != 'C' ==> t != "CURVE"@);
    assert(t[0] != 'M' ==> t != "MAP"@);
    assert(t.len() != 6 || t[0] != 'C' ==> t != "CUBOID"@);
    assert(t.len() != 6 || t[5] != '4' ==> t != "CUBE_4"@);
    assert(t.len() != 6 || t[5] != '5' ==> t != "CUBE_5"@);
}

//#########################################################

/// A wrapper for all application data types
#[derive(Debug, Clone, PartialEq, Eq, Hash)]
pub enum ApplicationDataType {
    /// An array data type
    Array(ApplicationArrayDataType),
    /// A record data type
    Record(ApplicationRecordDataType),
    /// A primitive data type
    Primitive(ApplicationPrimitiveDataType),
}

impl AbstractionElement for ApplicationDataType {
    open spec fn spec_element(&self) -> Element {
        match self {
            ApplicationDataType::Array(e) => e.spec_element(),
            ApplicationDataType::Record(e) => e.spec_element(),
            ApplicationDataType::Primitive(e) => e.spec_element(),
        }
    }

    fn element(&self) -> (r: &Element) {
        match self {
            ApplicationDataType::Array(e) => {
                proof {
                    assert(self.spec_element() == e.spec_element());
                }
                e.element()
            },
            ApplicationDataType::Record(e) => {
                proof {
                    assert(self.spec_element() == e.spec_element());
                }
                e.element()
            },
            ApplicationDataType::Primitive(e) => {
                proof {
                    assert(self.spec_element() == e.spec_element());
                }
                e.element()
            },
        }
    }
}

/// the element names of the elements that an [`ApplicationDataType`] can wrap
pub open spec fn is_application_data_type_name(name: Seq<char>) -> bool {
    ||| name == "APPLICATION-ARRAY-DATA-TYPE"@
    ||| name == "APPLICATION-RECORD-DATA-TYPE"@
    ||| name == "APPLICATION-PRIMITIVE-DATA-TYPE"@
}

impl ApplicationDataType {
    /// wrap an element of the model that is one of the application data types
    pub fn from_element(element: Element) -> (r: Result<Self, AutosarAbstractionError>)
        ensures
            r is Ok <==> is_application_data_type_name(spec_element_name(element)),
            r matches Ok(x) ==> x.spec_element() == element,
            r matches Err(e) ==> is_conversion_error(e, element, "ApplicationDataType"@),
    {
        if has_element_name(&element, "APPLICATION-ARRAY-DATA-TYPE") {
            Ok(ApplicationDataType::Array(ApplicationArrayDataType::from_element(element)?))
        } else if has_element_name(&element, "APPLICATION-RECORD-DATA-TYPE") {
            Ok(ApplicationDataType::Record(ApplicationRecordDataType::from_element(element)?))
        } else if has_element_name(&element, "APPLICATION-PRIMITIVE-DATA-TYPE") {
            Ok(ApplicationDataType::Primitive(ApplicationPrimitiveDataType::from_element(element)?))
        } else {
            Err(AutosarAbstractionError::ConversionError { element, dest: "ApplicationDataType".to_owned() })
        }
    }

    /// get the category of the data type
    pub fn category(&self) -> Option<String> {
        let category_elem = get_sub_element(self.element(), "CATEGORY")?;
        string_value(character_data(&category_elem)?)
    }

    /// remove the application data type from the model
    pub fn remove(self, deep: bool) -> (r: Result<(), AutosarAbstractionError>)
        ensures
            r matches Err(e) ==> e is ModelError || e is InvalidParameter,
    {
        self.remove_within(deep, REMOVE_DEPTH_LIMIT)
    }

    fn remove_within(self, deep: bool, depth: u64) -> (r: Result<(), AutosarAbstractionError>)
        ensures
            r matches Err(e) ==> e is ModelError || e is InvalidParameter,
        decreases depth,
    {
        if depth == 0 {
            return Err(depth_limit_error());
        }
        match self {
            ApplicationDataType::Array(e) => e.remove_within(deep, depth - 1),
            ApplicationDataType::Record(e) => e.remove_within(deep, depth - 1),
            ApplicationDataType::Primitive(e) => e.remove_within(deep, depth - 1),
        }
    }
}

impl TryFrom<Element> for ApplicationDataType {
    type Error = AutosarAbstractionError;

    fn try_from(element: Element) -> (r: Result<Self, Self::Error>)
        ensures
            r is Ok <==> is_application_data_type_name(spec_element_name(element)),
            r matches Ok(x) ==> x.spec_element() == element,
            r matches Err(e) ==> is_conversion_error(e, element, "ApplicationDataType"@),
    {
        ApplicationDataType::from_element(element)
    }
}

impl TryFromSpecImpl<Element> for ApplicationDataType {
    open spec fn obeys_try_from_spec() -> bool {
        false
    }

    open spec fn try_from_spec(v: Element) -> Result<Self, AutosarAbstractionError> {
        arbitrary()
    }
}

impl IdentifiableAbstractionElement for ApplicationDataType {}

impl From<ApplicationPrimitiveDataType> for ApplicationDataType {
    fn from(val: ApplicationPrimitiveDataType) -> (r: ApplicationDataType)
        ensures
            r == ApplicationDataType::Primitive(val),
    {
        ApplicationDataType::Primitive(val)
    }
}

impl FromSpecImpl<ApplicationPrimitiveDataType> for ApplicationDataType {
    open spec fn obeys_from_spec() -> bool {
        true
    }

    open spec fn from_spec(v: ApplicationPrimitiveDataType) -> ApplicationDataType {
        ApplicationDataType::Primitive(v)
    }
}

impl From<ApplicationRecordDataType> for ApplicationDataType {
    fn from(val: ApplicationRecordDataType) -> (r: ApplicationDataType)
        ensures
            r == ApplicationDataType::Record(val),
    {
        ApplicationDataType::Record(val)
    }
}

impl FromSpecImpl<ApplicationRecordDataType> for ApplicationDataType {
    open spec fn obeys_from_spec() -> bool {
        true
    }

    open spec fn from_spec(v: ApplicationRecordDataType) -> ApplicationDataType {
        ApplicationDataType::Record(v)
    }
}

impl From<ApplicationArrayDataType> for ApplicationDataType {
    fn from(val: ApplicationArrayDataType) -> (r: ApplicationDataType)
        ensures
            r == ApplicationDataType::Array(val),
    {
        ApplicationDataType::Array(val)
    }
}

impl FromSpecImpl<ApplicationArrayDataType> for ApplicationDataType {
    open spec fn obeys_from_spec() -> bool {
        true
    }

    open spec fn from_spec(v: ApplicationArrayDataType) -> ApplicationDataType {
        ApplicationDataType::Array(v)
    }
}

//#########################################################

/// remove the elements that referred to a removed data type
///
/// Each pair holds the named parent and the parent of a referring element. Array and
/// record elements, data type maps and data prototypes that used the data type are
/// removed; a data type mapping set keeps its other mappings.
fn remove_helper(ref_parents: Vec<(Element, Element)>, deep: bool, depth: u64) -> (r: Result<(), AutosarAbstractionError>)
    ensures
        r matches Err(e) ==> e is ModelError || e is InvalidParameter,
    decreases depth,
{
    if depth == 0 {
        return Err(depth_limit_error());
    }
    let mut i: usize = 0;
    while i < ref_parents.len()
        invariant
            0 <= i <= ref_parents.len(),
            depth > 0,
        decreases ref_parents.len() - i,
    {
        let named_parent = ref_parents[i].0.clone();
        let parent = ref_parents[i].1.clone();
        if has_element_name(&named_parent, "ELEMENT") {
            if let Ok(array_element) = ApplicationArrayElement::from_element(named_parent) {
                array_element.remove_within(deep, depth - 1)?;
            }
        } else if has_element_name(&named_parent, "APPLICATION-RECORD-ELEMENT") {
            if let Ok(record_element) = ApplicationRecordElement::from_element(named_parent) {
                record_element.remove_within(deep, depth - 1)?;
            }
        } else if has_element_name(&named_parent, "DATA-TYPE-MAPPING-SET") {
            // don't remove the whole mapping set, only the mapping
            if let Ok(data_type_map) = DataTypeMap::from_element(parent) {
                remove_element(data_type_map.element())?;
            }
        } else if has_element_name(&named_parent, "PARAMETER-DATA-PROTOTYPE") {
            remove_element(&named_parent)?;
        } else if has_element_name(&named_parent, "VARIABLE-DATA-PROTOTYPE") {
            if has_element_name(&parent, "VARIABLE-DATA-PROTOTYPE") {
                remove_element(&parent)?;
            }
        } else if has_element_name(&named_parent, "ARGUMENT-DATA-PROTOTYPE") {
            if has_element_name(&parent, "ARGUMENT-DATA-PROTOTYPE") {
                remove_element(&parent)?;
            }
        }
        i = i + 1;
    }

    Ok(())
}

} // verus!
