//! Definitions of the ECU configuration: module definitions, container definitions and
//! the attributes that they share.

use vstd::prelude::*;
use crate::elements::is_model_or_name_error;
use autosar_data::{Element, EnumItem};
use vstd::std_specs::convert::{FromSpecImpl, TryFromSpecImpl};
use crate::{
    AbstractionElement, ArPackage, AutosarAbstractionError, IdentifiableAbstractionElement, has_element_name,
    is_conversion_error, is_value_conversion_error,
};
use crate::elements::{
    create_named_sub_element, create_sub_element, enum_item_to_text, get_or_create_sub_element,
    get_reference_target, get_sub_element, remove_sub_element_kind, set_character_data_enum, set_character_data_text, set_reference_target,
    spec_element_name, spec_enum_item_text, sub_elements, ecuc_configuration_class_item,
    ecuc_configuration_variant_item, ecuc_nesting_contract_item,
};
use crate::text::text_equals;
use crate::values::{enum_value, sub_element_string};
use crate::accessors::{set_optional_bool, set_optional_text, set_optional_u64, sub_element_bool, sub_element_u32};

mod container;
mod parameter;
mod reference;

pub use container::{AbstractEcucContainerDef, EcucChoiceContainerDef, EcucContainerDef, EcucParamConfContainerDef};
pub use parameter::{
    EcucAbstractStringParamDef, EcucAddInfoParamDef, EcucBooleanParamDef, EcucEnumerationLiteralDef,
    EcucEnumerationParamDef, EcucFloatParamDef, EcucFunctionNameDef, EcucIntegerParamDef, EcucLinkerSymbolDef,
    EcucMultilineStringParamDef, EcucNumericalParamDef, EcucParamDef, EcucParameterDef, EcucStringParamDef,
    EcucTextualParamDef,
};
pub use reference::{
    AbstractEcucReferenceDef, EcucAnyReferenceDef, EcucChoiceReferenceDef, EcucForeignReferenceDef,
    EcucInstanceReferenceDef, EcucReferenceDef, EcucUriReferenceDef,
};

verus! {

//#########################################################

//#########################################################

/// `EcucCommonAttributes` provides methods to modify attributes that are shared by all parameters and references
pub trait EcucCommonAttributes: EcucDefinitionElement {
    /// set the multiplicity config classes of the parameter definition.
    /// If an empty list is provided, the multiplicity config classes are removed.
    ///
    /// This setting is required if the containing `EcucModuleDef` has the category `VENDOR_SPECIFIC_MODULE_DEFINITION`.
    fn set_multiplicity_config_classes(&self, config: &[(EcucConfigurationClass, EcucConfigurationVariant)]) -> (r:
        Result<(), AutosarAbstractionError>)
        ensures
            r matches Err(e) ==> e is ModelError || e is InvalidParameter,
    {
        set_config_classes(self.element(), "MULTIPLICITY-CONFIG-CLASSES", "ECUC-MULTIPLICITY-CONFIGURATION-CLASS", config)
    }

    /// get the multiplicity config classes of the parameter definition
    fn multiplicity_config_classes(&self) -> Vec<(EcucConfigurationClass, EcucConfigurationVariant)> {
        get_config_classes(self.element(), "MULTIPLICITY-CONFIG-CLASSES")
    }

    /// set the origin of the parameter definition
    ///
    /// The origin is a string that describes if the parameter was defined in the AUTOSAR standard or by a vendor.
    /// Standardized parameters use the origin "AUTOSAR_ECUC", while vendors are supposed to use string like "VendorXyz_v1.3"
    fn set_origin(&self, origin: &str) -> (r: Result<(), AutosarAbstractionError>)
        ensures
            r matches Err(e) ==> is_model_or_name_error(e, "ORIGIN"@),
    {
        set_character_data_text(&get_or_create_sub_element(self.element(), "ORIGIN")?, origin)
    }

    /// get the origin of the parameter definition
    fn origin(&self) -> Option<String> {
        sub_element_string(self.element(), "ORIGIN")
    }

    /// set or remove the postBuildVariantMultiplicity attribute
    ///
    /// If postBuildVariantMultiplicity is true, then the parameter or reference
    /// may have a different number of instances in different post-build variants.
    fn set_post_build_variant_multiplicity(&self, post_build_variant_multiplicity: Option<bool>) -> (r: Result<
        (),
        AutosarAbstractionError,
    >)
        ensures
            r matches Err(e) ==> is_model_or_name_error(e, "POST-BUILD-VARIANT-MULTIPLICITY"@),
    {
        set_optional_bool(self.element(), "POST-BUILD-VARIANT-MULTIPLICITY", post_build_variant_multiplicity)
    }

    /// get the postBuildVariantMultiplicity attribute
    fn post_build_variant_multiplicity(&self) -> Option<bool> {
        sub_element_bool(self.element(), "POST-BUILD-VARIANT-MULTIPLICITY")
    }

    /// set or remove the postBuildVariantValue attribute
    ///
    /// If postBuildVariantValue is true, then the parameter or reference
    /// may have different values in different post-build variants.
    fn set_post_build_variant_value(&self, post_build_variant_value: Option<bool>) -> (r: Result<
        (),
        AutosarAbstractionError,
    >)
        ensures
            r matches Err(e) ==> is_model_or_name_error(e, "POST-BUILD-VARIANT-VALUE"@),
    {
        set_optional_bool(self.element(), "POST-BUILD-VARIANT-VALUE", post_build_variant_value)
    }

    /// get the postBuildVariantValue attribute
    fn post_build_variant_value(&self) -> Option<bool> {
        sub_element_bool(self.element(), "POST-BUILD-VARIANT-VALUE")
    }

    /// set or remove the requiresIndex attribute
    fn set_requires_index(&self, requires_index: Option<bool>) -> (r: Result<(), AutosarAbstractionError>)
        ensures
            r matches Err(e) ==> is_model_or_name_error(e, "REQUIRES-INDEX"@),
    {
        set_optional_bool(self.element(), "REQUIRES-INDEX", requires_index)
    }

    /// get the requiresIndex attribute
    fn requires_index(&self) -> Option<bool> {
        sub_element_bool(self.element(), "REQUIRES-INDEX")
    }

    /// set the value config classes of the parameter definition.
    ///
    /// If an empty list is provided, the value config classes are removed.
    fn set_value_config_classes(&self, config: &[(EcucConfigurationClass, EcucConfigurationVariant)]) -> (r: Result<
        (),
        AutosarAbstractionError,
    >)
        ensures
            r matches Err(e) ==> e is ModelError || e is InvalidParameter,
    {
        set_config_classes(self.element(), "VALUE-CONFIG-CLASSES", "ECUC-VALUE-CONFIGURATION-CLASS", config)
    }

    /// get the value config classes of the parameter definition
    fn value_config_classes(&self) -> Vec<(EcucConfigurationClass, EcucConfigurationVariant)> {
        get_config_classes(self.element(), "VALUE-CONFIG-CLASSES")
    }

    /// set or remove the withAuto attribute
    ///
    /// If withAuto is true, then the parameter or reference is allowed to set its isAutoValue attribute to true.
    fn set_with_auto(&self, with_auto: Option<bool>) -> (r: Result<(), AutosarAbstractionError>)
        ensures
            r matches Err(e) ==> is_model_or_name_error(e, "WITH-AUTO"@),
    {
        set_optional_bool(self.element(), "WITH-AUTO", with_auto)
    }

    /// get the withAuto attribute
    fn with_auto(&self) -> Option<bool> {
        sub_element_bool(self.element(), "WITH-AUTO")
    }
}

/// `EcucDefinitionElement` provides methods to modify attributes that are shared by all elements of the ecuc definition
pub trait EcucDefinitionElement: AbstractionElement {
    /// set or remove the lower multiplicity attribute
    fn set_lower_multiplicity(&self, lower_multiplicity: Option<u32>) -> (r: Result<(), AutosarAbstractionError>)
        ensures
            r matches Err(e) ==> is_model_or_name_error(e, "LOWER-MULTIPLICITY"@),
    {
        let value: Option<u64> = match lower_multiplicity {
            Some(v) => Some(v as u64),
            None => None,
        };
        set_optional_u64(self.element(), "LOWER-MULTIPLICITY", value)
    }

    /// get the lower multiplicity attribute
    fn lower_multiplicity(&self) -> Option<u32> {
        sub_element_u32(self.element(), "LOWER-MULTIPLICITY")
    }

    /// set or remove the upper multiplicity attribute
    fn set_upper_multiplicity(&self, upper_multiplicity: Option<u32>) -> (r: Result<(), AutosarAbstractionError>)
        ensures
            r matches Err(e) ==> is_model_or_name_error(e, "UPPER-MULTIPLICITY"@),
    {
        let value: Option<u64> = match upper_multiplicity {
            Some(v) => Some(v as u64),
            None => None,
        };
        set_optional_u64(self.element(), "UPPER-MULTIPLICITY", value)
    }

    /// get the upper multiplicity attribute
    fn upper_multiplicity(&self) -> Option<u32> {
        sub_element_u32(self.element(), "UPPER-MULTIPLICITY")
    }

    /// set or remove the upper multiplicity infinite attribute
    ///
    /// if this attribute is set to true, the upper multiplicity is infinite
    /// (i.e. the module definition can be used an arbitrary number of times)
    /// When this attribute is true, the upper multiplicity attribute automatically removed.
    fn set_upper_multiplicity_infinite(&self, infinite: Option<bool>) -> (r: Result<(), AutosarAbstractionError>)
        ensures
            r matches Err(e) ==> is_model_or_name_error(e, "UPPER-MULTIPLICITY-INFINITE"@) || is_model_or_name_error(e, "UPPER-MULTIPLICITY"@),
    {
        set_optional_bool(self.element(), "UPPER-MULTIPLICITY-INFINITE", infinite)?;
        if let Some(true) = infinite {
            let _ = remove_sub_element_kind(self.element(), "UPPER-MULTIPLICITY");
        }
        Ok(())
    }

    /// get the upper multiplicity infinite attribute
    fn upper_multiplicity_infinite(&self) -> Option<bool> {
        sub_element_bool(self.element(), "UPPER-MULTIPLICITY-INFINITE")
    }
}

//#########################################################

/// The `EcucDefinitionCollection` is a container for all module definitions in the ECU configuration
#[derive(Debug, Clone, PartialEq, Eq, Hash)]
pub struct EcucDefinitionCollection(Element);

impl AbstractionElement for EcucDefinitionCollection {
    closed spec fn spec_element(&self) -> Element {
        self.0
    }

    fn element(&self) -> (r: &Element) {
        proof {
            assert(self.spec_element() == self.0);
        }
        &self.0
    }
}

impl EcucDefinitionCollection {
    /// wrap an element of the model whose element name is `ECUC-DEFINITION-COLLECTION`
    pub fn from_element(element: Element) -> (r: Result<Self, AutosarAbstractionError>)
        ensures
            r is Ok <==> spec_element_name(element) == "ECUC-DEFINITION-COLLECTION"@,
            r matches Ok(x) ==> x.spec_element() == element,
            r matches Err(e) ==> is_conversion_error(e, element, "EcucDefinitionCollection"@),
    {
        if has_element_name(&element, "ECUC-DEFINITION-COLLECTION") {
            Ok(EcucDefinitionCollection(element))
        } else {
            Err(AutosarAbstractionError::ConversionError { element, dest: "EcucDefinitionCollection".to_owned() })
        }
    }
}

impl TryFrom<Element> for EcucDefinitionCollection {
    type Error = AutosarAbstractionError;

    fn try_from(element: Element) -> (r: Result<Self, Self::Error>)
        ensures
            r is Ok <==> spec_element_name(element) == "ECUC-DEFINITION-COLLECTION"@,
            r matches Ok(x) ==> x.spec_element() == element,
            r matches Err(e) ==> is_conversion_error(e, element, "EcucDefinitionCollection"@),
    {
        EcucDefinitionCollection::from_element(element)
    }
}

impl TryFromSpecImpl<Element> for EcucDefinitionCollection {
    open spec fn obeys_try_from_spec() -> bool {
        false
    }

    open spec fn try_from_spec(v: Element) -> Result<Self, AutosarAbstractionError> {
        arbitrary()
    }
}

impl From<EcucDefinitionCollection> for Element {
    fn from(value: EcucDefinitionCollection) -> (r: Element)
        ensures
            r == value.spec_element(),
    {
        value.0
    }
}

impl FromSpecImpl<EcucDefinitionCollection> for Element {
    open spec fn obeys_from_spec() -> bool {
        false
    }

    open spec fn from_spec(v: EcucDefinitionCollection) -> Element {
        arbitrary()
    }
}

impl IdentifiableAbstractionElement for EcucDefinitionCollection {}

impl EcucDefinitionCollection {
    /// create a new `EcucDefinitionCollection` in the package
    pub fn new(name: &str, package: &ArPackage) -> (r: Result<Self, AutosarAbstractionError>)
        ensures
            r matches Ok(c) ==> spec_element_name(c.spec_element()) == "ECUC-DEFINITION-COLLECTION"@,
            r matches Err(e) ==> e is ModelError || e is InvalidParameter,
    {
        let elements = get_or_create_sub_element(package.element(), "ELEMENTS")?;
        let elem = create_named_sub_element(&elements, "ECUC-DEFINITION-COLLECTION", name)?;
        Ok(Self(elem))
    }

    /// add a reference to a module definition to the collection
    pub fn add_module_def(&self, module_def: &EcucModuleDef) -> (r: Result<(), AutosarAbstractionError>)
        ensures
            r matches Err(e) ==> e is ModelError || e is InvalidParameter,
    {
        let module_refs = get_or_create_sub_element(self.element(), "MODULE-REFS")?;
        let module_ref = create_sub_element(&module_refs, "MODULE-REF")?;
        set_reference_target(&module_ref, module_def.element())
    }

    /// all module definitions in the collection
    pub fn module_defs(&self) -> (r: Vec<EcucModuleDef>)
        ensures
            forall|i: int| 0 <= i < r.len() ==> spec_element_name(#[trigger] r@[i].spec_element()) == "ECUC-MODULE-DEF"@,
    {
        let mut result: Vec<EcucModuleDef> = Vec::new();
        if let Some(module_refs) = get_sub_element(self.element(), "MODULE-REFS") {
            let refs = sub_elements(&module_refs);
            for i in 0..refs.len()
                invariant
                    forall|j: int| 0 <= j < result.len() ==> spec_element_name(#[trigger] result@[j].spec_element()) == "ECUC-MODULE-DEF"@,
            {
                if let Ok(target) = get_reference_target(&refs[i]) {
                    if let Ok(module_def) = EcucModuleDef::from_element(target) {
                        result.push(module_def);
                    }
                }
            }
        }
        result
    }
}

//#########################################################

/// The `EcucModuleDef` is a container for the definition of a single base software module
#[derive(Debug, Clone, PartialEq, Eq, Hash)]
pub struct EcucModuleDef(Element);

impl AbstractionElement for EcucModuleDef {
    closed spec fn spec_element(&self) -> Element {
        self.0
    }

    fn element(&self) -> (r: &Element) {
        proof {
            assert(self.spec_element() == self.0);
        }
        &self.0
    }
}

impl EcucModuleDef {
    /// wrap an element of the model whose element name is `ECUC-MODULE-DEF`
    pub fn from_element(element: Element) -> (r: Result<Self, AutosarAbstractionError>)
        ensures
            r is Ok <==> spec_element_name(element) == "ECUC-MODULE-DEF"@,
            r matches Ok(x) ==> x.spec_element() == element,
            r matches Err(e) ==> is_conversion_error(e, element, "EcucModuleDef"@),
    {
        if has_element_name(&element, "ECUC-MODULE-DEF") {
            Ok(EcucModuleDef(element))
        } else {
            Err(AutosarAbstractionError::ConversionError { element, dest: "EcucModuleDef".to_owned() })
        }
    }
}

impl TryFrom<Element> for EcucModuleDef {
    type Error = AutosarAbstractionError;

    fn try_from(element: Element) -> (r: Result<Self, Self::Error>)
        ensures
            r is Ok <==> spec_element_name(element) == "ECUC-MODULE-DEF"@,
            r matches Ok(x) ==> x.spec_element() == element,
            r matches Err(e) ==> is_conversion_error(e, element, "EcucModuleDef"@),
    {
        EcucModuleDef::from_element(element)
    }
}

impl TryFromSpecImpl<Element> for EcucModuleDef {
    open spec fn obeys_try_from_spec() -> bool {
        false
    }

    open spec fn try_from_spec(v: Element) -> Result<Self, AutosarAbstractionError> {
        arbitrary()
    }
}

impl From<EcucModuleDef> for Element {
    fn from(value: EcucModuleDef) -> (r: Element)
        ensures
            r == value.spec_element(),
    {
        value.0
    }
}

impl FromSpecImpl<EcucModuleDef> for Element {
    open spec fn obeys_from_spec() -> bool {
        false
    }

    open spec fn from_spec(v: EcucModuleDef) -> Element {
        arbitrary()
    }
}

impl IdentifiableAbstractionElement for EcucModuleDef {}

impl EcucDefinitionElement for EcucModuleDef {}

impl EcucModuleDef {
    /// create a new `EcucModuleDef` in the package
    pub fn new(name: &str, package: &ArPackage) -> (r: Result<Self, AutosarAbstractionError>)
        ensures
            r matches Ok(m) ==> spec_element_name(m.spec_element()) == "ECUC-MODULE-DEF"@,
            r matches Err(e) ==> e is ModelError || e is InvalidParameter,
    {
        let elements = get_or_create_sub_element(package.element(), "ELEMENTS")?;
        let elem = create_named_sub_element(&elements, "ECUC-MODULE-DEF", name)?;
        Ok(Self(elem))
    }

    /// create a new `EcucChoiceContainerDef` in the module
    pub fn create_choice_container_def(&self, name: &str) -> (r: Result<EcucChoiceContainerDef, AutosarAbstractionError>)
        ensures
            r matches Err(e) ==> e is ModelError || e is InvalidParameter,
    {
        let containers_elem = get_or_create_sub_element(self.element(), "CONTAINERS")?;
        EcucChoiceContainerDef::new(name, &containers_elem)
    }

    /// create a new `EcucParamConfContainerDef` in the module
    pub fn create_param_conf_container_def(&self, name: &str) -> (r: Result<
        EcucParamConfContainerDef,
        AutosarAbstractionError,
    >)
        ensures
            r matches Err(e) ==> e is ModelError || e is InvalidParameter,
    {
        let containers_elem = get_or_create_sub_element(self.element(), "CONTAINERS")?;
        EcucParamConfContainerDef::new(name, &containers_elem)
    }

    /// all containers in the module
    pub fn containers(&self) -> Vec<EcucContainerDef> {
        container::container_defs_in(self.element(), "CONTAINERS")
    }

    /// set or remove the apiServicePrefix for the module
    ///
    /// for CDD modules the short name of the module is always "CDD", so
    /// this attribute is needed to define the prefix for the API services
    pub fn set_api_service_prefix(&self, prefix: Option<&str>) -> (r: Result<(), AutosarAbstractionError>)
        ensures
            r matches Err(e) ==> is_model_or_name_error(e, "API-SERVICE-PREFIX"@),
    {
        set_optional_text(self.element(), "API-SERVICE-PREFIX", prefix)
    }

    /// get the apiServicePrefix for the module
    pub fn api_service_prefix(&self) -> Option<String> {
        sub_element_string(self.element(), "API-SERVICE-PREFIX")
    }

    /// set the supported configuration variants for the module
    pub fn set_supported_config_variants(&self, variants: &[EcucConfigurationVariant]) -> (r: Result<
        (),
        AutosarAbstractionError,
    >)
        ensures
            r matches Err(e) ==> e is ModelError || e is InvalidParameter,
    {
        // remove the old supported configuration variants list
        let _ = remove_sub_element_kind(self.element(), "SUPPORTED-CONFIG-VARIANTS");

        // create the new supported configuration variants list
        let supported_config_variants_elem = create_sub_element(self.element(), "SUPPORTED-CONFIG-VARIANTS")?;
        for i in 0..variants.len() {
            let variant_elem = create_sub_element(&supported_config_variants_elem, "SUPPORTED-CONFIG-VARIANT")?;
            set_character_data_enum(&variant_elem, variants[i].item_text())?;
        }
        Ok(())
    }

    /// get the supported configuration variants for the module
    pub fn supported_config_variants(&self) -> Vec<EcucConfigurationVariant> {
        let mut result: Vec<EcucConfigurationVariant> = Vec::new();
        if let Some(elem) = get_sub_element(self.element(), "SUPPORTED-CONFIG-VARIANTS") {
            let subs = sub_elements(&elem);
            for i in 0..subs.len() {
                if let Some(variant) = enum_content(&subs[i]) {
                    if let Ok(v) = EcucConfigurationVariant::from_item_text(&variant) {
                        result.push(v);
                    }
                }
            }
        }
        result
    }

    /// set or remove the post build variant support attribute
    pub fn set_post_build_variant_support(&self, support: Option<bool>) -> (r: Result<(), AutosarAbstractionError>)
        ensures
            r matches Err(e) ==> is_model_or_name_error(e, "POST-BUILD-VARIANT-SUPPORT"@),
    {
        set_optional_bool(self.element(), "POST-BUILD-VARIANT-SUPPORT", support)
    }

    /// get the post build variant support attribute
    pub fn post_build_variant_support(&self) -> Option<bool> {
        sub_element_bool(self.element(), "POST-BUILD-VARIANT-SUPPORT")
    }

    /// set or remove the category of the module definition
    pub fn set_category(&self, category: Option<EcucModuleDefCategory>) -> (r: Result<(), AutosarAbstractionError>)
        ensures
            r matches Err(e) ==> is_model_or_name_error(e, "CATEGORY"@),
    {
        match category {
            Some(category) => set_optional_text(self.element(), "CATEGORY", Some(category.text())),
            None => set_optional_text(self.element(), "CATEGORY", None),
        }
    }

    /// get the category of the module definition
    pub fn category(&self) -> Option<EcucModuleDefCategory> {
        let value = sub_element_string(self.element(), "CATEGORY")?;
        match EcucModuleDefCategory::from_text(&value) {
            Ok(category) => Some(category),
            Err(_) => None,
        }
    }

    /// set or remove the reference to a refined standard module
    ///
    /// This reference is only used if the category is `VendorSpecificModuleDefinition`
    pub fn set_refined_module_def(&self, refined_module_def: Option<&EcucModuleDef>) -> (r: Result<
        (),
        AutosarAbstractionError,
    >)
        ensures
            r matches Err(e) ==> is_model_or_name_error(e, "REFINED-MODULE-DEF-REF"@),
    {
        match refined_module_def {
            Some(refined) => {
                let ref_elem = get_or_create_sub_element(self.element(), "REFINED-MODULE-DEF-REF")?;
                set_reference_target(&ref_elem, refined.element())
            },
            None => {
                let _ = remove_sub_element_kind(self.element(), "REFINED-MODULE-DEF-REF");
                Ok(())
            },
        }
    }

    /// get the reference to a refined standard module
    ///
    /// This reference is only used if the category is `VendorSpecificModuleDefinition`
    pub fn refined_module_def(&self) -> (r: Option<EcucModuleDef>)
        ensures
            r matches Some(x) ==> spec_element_name(x.spec_element()) == "ECUC-MODULE-DEF"@,
    {
        let ref_elem = get_sub_element(self.element(), "REFINED-MODULE-DEF-REF")?;
        match get_reference_target(&ref_elem) {
            Ok(target) => match EcucModuleDef::from_element(target) {
                Ok(module_def) => Some(module_def),
                Err(_) => None,
            },
            Err(_) => None,
        }
    }
}

/// the enum item text of the character content of an element, if it holds one
fn enum_content(element: &Element) -> Option<String> {
    match crate::elements::character_data(element) {
        Some(cdata) => enum_value(cdata),
        None => None,
    }
}

//#########################################################

/// `EcucConfigurationVariant` provides the different configuration variants that
/// can be used by the module definition.
#[derive(Debug, Clone, Copy, PartialEq, Eq, Hash, Structural)]
pub enum EcucConfigurationVariant {
    /// Preconfigured (i.e. fixed) configuration which cannot be changed.
    PreconfiguredConfiguration,
    /// Recommended configuration
    RecommendedConfiguration,
    /// the BSW Module implementation may use `PreCompileTime` and `LinkTime` configuration parameters
    VariantLinkTime,
    /// the BSW Module implementation may use `PreCompileTime`, `LinkTime` and `PostBuild` configuration parameters
    VariantPostBuild,
    /// the BSW Module implementation may use `PreCompileTime` configuration parameters
    VariantPreCompile,
    /// deprecated in Autosar 4.2.1 - the BSW Module implementation may use `PreCompileTime`, `LinkTime` and `PostBuild` loadable configuration parameters
    VariantPostBuildLoadable,
    /// deprecated in Autosar 4.2.1 - the BSW Module implementation may use `PreCompileTime`, `LinkTime` and `PostBuild` selectable configuration parameters
    VariantPostBuildSelectable,
}

impl EcucConfigurationVariant {
    /// the XML text that represents the value in the model
    pub open spec fn spec_item_text(self) -> Seq<char> {
        match self {
            EcucConfigurationVariant::PreconfiguredConfiguration => "PRECONFIGURED-CONFIGURATION"@,
            EcucConfigurationVariant::RecommendedConfiguration => "RECOMMENDED-CONFIGURATION"@,
            EcucConfigurationVariant::VariantLinkTime => "VARIANT-LINK-TIME"@,
            EcucConfigurationVariant::VariantPostBuild => "VARIANT-POST-BUILD"@,
            EcucConfigurationVariant::VariantPreCompile => "VARIANT-PRE-COMPILE"@,
            EcucConfigurationVariant::VariantPostBuildLoadable => "VARIANT-POST-BUILD-LOADABLE"@,
            EcucConfigurationVariant::VariantPostBuildSelectable => "VARIANT-POST-BUILD-SELECTABLE"@,
        }
    }

    /// the value that an XML text represents, if there is one
    pub open spec fn spec_from_item_text(text: Seq<char>) -> Option<Self> {
        if text == "PRECONFIGURED-CONFIGURATION"@ {
            Some(EcucConfigurationVariant::PreconfiguredConfiguration)
        } else if text == "RECOMMENDED-CONFIGURATION"@ {
            Some(EcucConfigurationVariant::RecommendedConfiguration)
        } else if text == "VARIANT-LINK-TIME"@ {
            Some(EcucConfigurationVariant::VariantLinkTime)
        } else if text == "VARIANT-POST-BUILD"@ {
            Some(EcucConfigurationVariant::VariantPostBuild)
        } else if text == "VARIANT-PRE-COMPILE"@ {
            Some(EcucConfigurationVariant::VariantPreCompile)
        } else if text == "VARIANT-POST-BUILD-LOADABLE"@ {
            Some(EcucConfigurationVariant::VariantPostBuildLoadable)
        } else if text == "VARIANT-POST-BUILD-SELECTABLE"@ {
            Some(EcucConfigurationVariant::VariantPostBuildSelectable)
        } else {
            None
        }
    }

    /// the XML text that represents the value in the model
    pub fn item_text(&self) -> (r: &'static str)
        ensures
            r@ == self.spec_item_text(),
    {
        match self {
            EcucConfigurationVariant::PreconfiguredConfiguration => "PRECONFIGURED-CONFIGURATION",
            EcucConfigurationVariant::RecommendedConfiguration => "RECOMMENDED-CONFIGURATION",
            EcucConfigurationVariant::VariantLinkTime => "VARIANT-LINK-TIME",
            EcucConfigurationVariant::VariantPostBuild => "VARIANT-POST-BUILD",
            EcucConfigurationVariant::VariantPreCompile => "VARIANT-PRE-COMPILE",
            EcucConfigurationVariant::VariantPostBuildLoadable => "VARIANT-POST-BUILD-LOADABLE",
            EcucConfigurationVariant::VariantPostBuildSelectable => "VARIANT-POST-BUILD-SELECTABLE",
        }
    }

    /// the value that an XML text represents
    pub fn from_item_text(text: &str) -> (r: Result<Self, AutosarAbstractionError>)
        ensures
            match Self::spec_from_item_text(text@) {
                Some(v) => r == Ok::<Self, AutosarAbstractionError>(v),
                None => r matches Err(e) && is_value_conversion_error(e, text@, "EcucConfigurationVariant"@),
            },
    {
        if text_equals(text, "PRECONFIGURED-CONFIGURATION") {
            Ok(EcucConfigurationVariant::PreconfiguredConfiguration)
        } else if text_equals(text, "RECOMMENDED-CONFIGURATION") {
            Ok(EcucConfigurationVariant::RecommendedConfiguration)
        } else if text_equals(text, "VARIANT-LINK-TIME") {
            Ok(EcucConfigurationVariant::VariantLinkTime)
        } else if text_equals(text, "VARIANT-POST-BUILD") {
            Ok(EcucConfigurationVariant::VariantPostBuild)
        } else if text_equals(text, "VARIANT-PRE-COMPILE") {
            Ok(EcucConfigurationVariant::VariantPreCompile)
        } else if text_equals(text, "VARIANT-POST-BUILD-LOADABLE") {
            Ok(EcucConfigurationVariant::VariantPostBuildLoadable)
        } else if text_equals(text, "VARIANT-POST-BUILD-SELECTABLE") {
            Ok(EcucConfigurationVariant::VariantPostBuildSelectable)
        } else {
            Err(AutosarAbstractionError::ValueConversionError { value: text.to_owned(), dest: "EcucConfigurationVariant".to_owned() })
        }
    }
}

impl TryFrom<EnumItem> for EcucConfigurationVariant {
    type Error = AutosarAbstractionError;

    fn try_from(value: EnumItem) -> (r: Result<Self, Self::Error>)
        ensures
            match Self::spec_from_item_text(spec_enum_item_text(value)) {
                Some(v) => r == Ok::<Self, AutosarAbstractionError>(v),
                None => r matches Err(e) && is_value_conversion_error(e, spec_enum_item_text(value), "EcucConfigurationVariant"@),
            },
    {
        let text = enum_item_to_text(value);
        EcucConfigurationVariant::from_item_text(&text)
    }
}

impl TryFromSpecImpl<EnumItem> for EcucConfigurationVariant {
    open spec fn obeys_try_from_spec() -> bool {
        false
    }

    open spec fn try_from_spec(v: EnumItem) -> Result<Self, AutosarAbstractionError> {
        arbitrary()
    }
}

impl From<EcucConfigurationVariant> for EnumItem {
    fn from(value: EcucConfigurationVariant) -> (r: EnumItem)
        ensures
            spec_enum_item_text(r) == value.spec_item_text(),
    {
        ecuc_configuration_variant_item(value)
    }
}

impl FromSpecImpl<EcucConfigurationVariant> for EnumItem {
    open spec fn obeys_from_spec() -> bool {
        false
    }

    open spec fn from_spec(v: EcucConfigurationVariant) -> EnumItem {
        arbitrary()
    }
}

/// The XML text of a value of `EcucConfigurationVariant` gives back the value.
pub proof fn lemma_configuration_variant_roundtrip(v: EcucConfigurationVariant)
    ensures
        EcucConfigurationVariant::spec_from_item_text(v.spec_item_text()) == Some(v),
{
    reveal_strlit("PRECONFIGURED-CONFIGURATION");
    reveal_strlit("RECOMMENDED-CONFIGURATION");
    reveal_strlit("VARIANT-LINK-TIME");
    reveal_strlit("VARIANT-POST-BUILD");
    reveal_strlit("VARIANT-PRE-COMPILE");
    reveal_strlit("VARIANT-POST-BUILD-LOADABLE");
    reveal_strlit("VARIANT-POST-BUILD-SELECTABLE");
    match v {
        EcucConfigurationVariant::PreconfiguredConfiguration => {
        },
        EcucConfigurationVariant::RecommendedConfiguration => {
            assert("RECOMMENDED-CONFIGURATION"@.len() != "PRECONFIGURED-CONFIGURATION"@.len());
        },
        EcucConfigurationVariant::VariantLinkTime => {
            assert("VARIANT-LINK-TIME"@.len() != "PRECONFIGURED-CONFIGURATION"@.len());
            assert("VARIANT-LINK-TIME"@.len() != "RECOMMENDED-CONFIGURATION"@.len());
        },
        EcucConfigurationVariant::VariantPostBuild => {
            assert("VARIANT-POST-BUILD"@.len() != "PRECONFIGURED-CONFIGURATION"@.len());
            assert("VARIANT-POST-BUILD"@.len() != "RECOMMENDED-CONFIGURATION"@.len());
            assert("VARIANT-POST-BUILD"@.len() != "VARIANT-LINK-TIME"@.len());
        },
        EcucConfigurationVariant::VariantPreCompile => {
            assert("VARIANT-PRE-COMPILE"@.len() != "PRECONFIGURED-CONFIGURATION"@.len());
            assert("VARIANT-PRE-COMPILE"@.len() != "RECOMMENDED-CONFIGURATION"@.len());
            assert("VARIANT-PRE-COMPILE"@.len() != "VARIANT-LINK-TIME"@.len());
            assert("VARIANT-PRE-COMPILE"@.len() != "VARIANT-POST-BUILD"@.len());
        },
        EcucConfigurationVariant::VariantPostBuildLoadable => {
            assert("VARIANT-POST-BUILD-LOADABLE"@[0] != "PRECONFIGURED-CONFIGURATION"@[0]);
            assert("VARIANT-POST-BUILD-LOADABLE"@.len() != "RECOMMENDED-CONFIGURATION"@.len());
            assert("VARIANT-POST-BUILD-LOADABLE"@.len() != "VARIANT-LINK-TIME"@.len());
            assert("VARIANT-POST-BUILD-LOADABLE"@.len() != "VARIANT-POST-BUILD"@.len());
            assert("VARIANT-POST-BUILD-LOADABLE"@.len() != "VARIANT-PRE-COMPILE"@.len());
        },
        EcucConfigurationVariant::VariantPostBuildSelectable => {
            assert("VARIANT-POST-BUILD-SELECTABLE"@.len() != "PRECONFIGURED-CONFIGURATION"@.len());
            assert("VARIANT-POST-BUILD-SELECTABLE"@.len() != "RECOMMENDED-CONFIGURATION"@.len());
            assert("VARIANT-POST-BUILD-SELECTABLE"@.len() != "VARIANT-LINK-TIME"@.len());
            assert("VARIANT-POST-BUILD-SELECTABLE"@.len() != "VARIANT-POST-BUILD"@.len());
            assert("VARIANT-POST-BUILD-SELECTABLE"@.len() != "VARIANT-PRE-COMPILE"@.len());
            assert("VARIANT-POST-BUILD-SELECTABLE"@.len() != "VARIANT-POST-BUILD-LOADABLE"@.len());
        },
    }
}

/// `EcucConfigurationClass` provides the different configuration classes for Autosar configuration parameters
#[derive(Debug, Clone, Copy, PartialEq, Eq, Hash, Structural)]
pub enum EcucConfigurationClass {
    /// Link Time: parts of configuration are delivered from another object code file
    Link,
    /// `PostBuild`: a configuration parameter can be changed after compilation
    PostBuild,
    /// `PreCompile`: a configuration parameter can not be changed after compilation
    PreCompile,
    /// `PublishedInformation` is used to specify the fact that certain information is fixed even before the pre-compile stage.
    PublishedInformation,
}

impl EcucConfigurationClass {
    /// the XML text that represents the value in the model
    pub open spec fn spec_item_text(self) -> Seq<char> {
        match self {
            EcucConfigurationClass::Link => "LINK"@,
            EcucConfigurationClass::PostBuild => "POST-BUILD"@,
            EcucConfigurationClass::PreCompile => "PRE-COMPILE"@,
            EcucConfigurationClass::PublishedInformation => "PUBLISHED-INFORMATION"@,
        }
    }

    /// the value that an XML text represents, if there is one
    pub open spec fn spec_from_item_text(text: Seq<char>) -> Option<Self> {
        if text == "LINK"@ {
            Some(EcucConfigurationClass::Link)
        } else if text == "POST-BUILD"@ {
            Some(EcucConfigurationClass::PostBuild)
        } else if text == "PRE-COMPILE"@ {
            Some(EcucConfigurationClass::PreCompile)
        } else if text == "PUBLISHED-INFORMATION"@ {
            Some(EcucConfigurationClass::PublishedInformation)
        } else {
            None
        }
    }

    /// the XML text that represents the value in the model
    pub fn item_text(&self) -> (r: &'static str)
        ensures
            r@ == self.spec_item_text(),
    {
        match self {
            EcucConfigurationClass::Link => "LINK",
            EcucConfigurationClass::PostBuild => "POST-BUILD",
            EcucConfigurationClass::PreCompile => "PRE-COMPILE",
            EcucConfigurationClass::PublishedInformation => "PUBLISHED-INFORMATION",
        }
    }

    /// the value that an XML text represents
    pub fn from_item_text(text: &str) -> (r: Result<Self, AutosarAbstractionError>)
        ensures
            match Self::spec_from_item_text(text@) {
                Some(v) => r == Ok::<Self, AutosarAbstractionError>(v),
                None => r matches Err(e) && is_value_conversion_error(e, text@, "EcucConfigurationClass"@),
            },
    {
        if text_equals(text, "LINK") {
            Ok(EcucConfigurationClass::Link)
        } else if text_equals(text, "POST-BUILD") {
            Ok(EcucConfigurationClass::PostBuild)
        } else if text_equals(text, "PRE-COMPILE") {
            Ok(EcucConfigurationClass::PreCompile)
        } else if text_equals(text, "PUBLISHED-INFORMATION") {
            Ok(EcucConfigurationClass::PublishedInformation)
        } else {
            Err(AutosarAbstractionError::ValueConversionError { value: text.to_owned(), dest: "EcucConfigurationClass".to_owned() })
        }
    }
}

impl TryFrom<EnumItem> for EcucConfigurationClass {
    type Error = AutosarAbstractionError;

    fn try_from(value: EnumItem) -> (r: Result<Self, Self::Error>)
        ensures
            match Self::spec_from_item_text(spec_enum_item_text(value)) {
                Some(v) => r == Ok::<Self, AutosarAbstractionError>(v),
                None => r matches Err(e) && is_value_conversion_error(e, spec_enum_item_text(value), "EcucConfigurationClass"@),
            },
    {
        let text = enum_item_to_text(value);
        EcucConfigurationClass::from_item_text(&text)
    }
}

impl TryFromSpecImpl<EnumItem> for EcucConfigurationClass {
    open spec fn obeys_try_from_spec() -> bool {
        false
    }

    open spec fn try_from_spec(v: EnumItem) -> Result<Self, AutosarAbstractionError> {
        arbitrary()
    }
}

impl From<EcucConfigurationClass> for EnumItem {
    fn from(value: EcucConfigurationClass) -> (r: EnumItem)
        ensures
            spec_enum_item_text(r) == value.spec_item_text(),
    {
        ecuc_configuration_class_item(value)
    }
}

impl FromSpecImpl<EcucConfigurationClass> for EnumItem {
    open spec fn obeys_from_spec() -> bool {
        false
    }

    open spec fn from_spec(v: EcucConfigurationClass) -> EnumItem {
        arbitrary()
    }
}

/// The XML text of a value of `EcucConfigurationClass` gives back the value.
pub proof fn lemma_configuration_class_roundtrip(v: EcucConfigurationClass)
    ensures
        EcucConfigurationClass::spec_from_item_text(v.spec_item_text()) == Some(v),
{
    reveal_strlit("LINK");
    reveal_strlit("POST-BUILD");
    reveal_strlit("PRE-COMPILE");
    reveal_strlit("PUBLISHED-INFORMATION");
    match v {
        EcucConfigurationClass::Link => {
        },
        EcucConfigurationClass::PostBuild => {
            assert("POST-BUILD"@.len() != "LINK"@.len());
        },
        EcucConfigurationClass::PreCompile => {
            assert("PRE-COMPILE"@.len() != "LINK"@.len());
            assert("PRE-COMPILE"@.len() != "POST-BUILD"@.len());
        },
        EcucConfigurationClass::PublishedInformation => {
            assert("PUBLISHED-INFORMATION"@.len() != "LINK"@.len());
            assert("PUBLISHED-INFORMATION"@.len() != "POST-BUILD"@.len());
            assert("PUBLISHED-INFORMATION"@.len() != "PRE-COMPILE"@.len());
        },
    }
}

/// The `EcucModuleDefCategory` represents the possible category values for a module definition
#[derive(Debug, Clone, Copy, PartialEq, Eq, Hash, Structural)]
pub enum EcucModuleDefCategory {
    /// The module definition is a standardized module (StMD)
    StandardizedModuleDefinition,
    /// The module definition is a vendor specific module (VSMD)
    VendorSpecificModuleDefinition,
}

impl EcucModuleDefCategory {
    /// the XML text that represents the value in the model
    pub open spec fn spec_text(self) -> Seq<char> {
        match self {
            EcucModuleDefCategory::StandardizedModuleDefinition => "STANDARDIZED_MODULE_DEFINITION"@,
            EcucModuleDefCategory::VendorSpecificModuleDefinition => "VENDOR_SPECIFIC_MODULE_DEFINITION"@,
        }
    }

    /// the value that an XML text represents, if there is one
    pub open spec fn spec_from_text(text: Seq<char>) -> Option<Self> {
        if text == "STANDARDIZED_MODULE_DEFINITION"@ {
            Some(EcucModuleDefCategory::StandardizedModuleDefinition)
        } else if text == "VENDOR_SPECIFIC_MODULE_DEFINITION"@ {
            Some(EcucModuleDefCategory::VendorSpecificModuleDefinition)
        } else {
            None
        }
    }

    /// the XML text that represents the value in the model
    pub fn text(&self) -> (r: &'static str)
        ensures
            r@ == self.spec_text(),
    {
        match self {
            EcucModuleDefCategory::StandardizedModuleDefinition => "STANDARDIZED_MODULE_DEFINITION",
            EcucModuleDefCategory::VendorSpecificModuleDefinition => "VENDOR_SPECIFIC_MODULE_DEFINITION",
        }
    }

    /// the value that an XML text represents
    pub fn from_text(text: &str) -> (r: Result<Self, AutosarAbstractionError>)
        ensures
            match Self::spec_from_text(text@) {
                Some(v) => r == Ok::<Self, AutosarAbstractionError>(v),
                None => r matches Err(e) && is_value_conversion_error(e, text@, "EcucModuleDefCategory"@),
            },
    {
        if text_equals(text, "STANDARDIZED_MODULE_DEFINITION") {
            Ok(EcucModuleDefCategory::StandardizedModuleDefinition)
        } else if text_equals(text, "VENDOR_SPECIFIC_MODULE_DEFINITION") {
            Ok(EcucModuleDefCategory::VendorSpecificModuleDefinition)
        } else {
            Err(AutosarAbstractionError::ValueConversionError { value: text.to_owned(), dest: "EcucModuleDefCategory".to_owned() })
        }
    }
}

/// The XML text of a value of `EcucModuleDefCategory` gives back the value.
pub proof fn lemma_module_def_category_roundtrip(v: EcucModuleDefCategory)
    ensures
        EcucModuleDefCategory::spec_from_text(v.spec_text()) == Some(v),
{
    reveal_strlit("STANDARDIZED_MODULE_DEFINITION");
    reveal_strlit("VENDOR_SPECIFIC_MODULE_DEFINITION");
    match v {
        EcucModuleDefCategory::StandardizedModuleDefinition => {
        },
        EcucModuleDefCategory::VendorSpecificModuleDefinition => {
            assert("VENDOR_SPECIFIC_MODULE_DEFINITION"@.len() != "STANDARDIZED_MODULE_DEFINITION"@.len());
        },
    }
}

impl EcucModuleDefCategory {
    /// the category as it is written in the model
    pub fn to_string(&self) -> (r: String)
        ensures
            r@ == self.spec_text(),
    {
        self.text().to_owned()
    }
}

impl<'a> TryFrom<&'a str> for EcucModuleDefCategory {
    type Error = AutosarAbstractionError;

    fn try_from(value: &'a str) -> (r: Result<Self, Self::Error>)
        ensures
            match Self::spec_from_text(value@) {
                Some(v) => r == Ok::<Self, AutosarAbstractionError>(v),
                None => r matches Err(e) && is_value_conversion_error(e, value@, "EcucModuleDefCategory"@),
            },
    {
        EcucModuleDefCategory::from_text(value)
    }
}

impl<'a> TryFromSpecImpl<&'a str> for EcucModuleDefCategory {
    open spec fn obeys_try_from_spec() -> bool {
        false
    }

    open spec fn try_from_spec(v: &'a str) -> Result<Self, AutosarAbstractionError> {
        arbitrary()
    }
}

//#########################################################

/// the configuration classes of a parameter or reference definition, with their variants:
/// the content of the elements that `set_config_classes` writes
fn set_config_classes(
    base: &Element,
    element_name_l1: &str,
    element_name_l2: &str,
    config: &[(EcucConfigurationClass, EcucConfigurationVariant)],
) -> (r: Result<(), AutosarAbstractionError>)
    ensures
        r matches Err(e) ==> e is ModelError || e is InvalidParameter,
{
    // remove the existing config classes, since the entire list is configured instead of updating the existing one
    let _ = remove_sub_element_kind(base, element_name_l1);

    if config.len() > 0 {
        let config_classes = create_sub_element(base, element_name_l1)?;
        for i in 0..config.len() {
            let (config_class, variant) = config[i];
            let ecuc_config_class_elem = create_sub_element(&config_classes, element_name_l2)?;
            set_character_data_enum(&create_sub_element(&ecuc_config_class_elem, "CONFIG-CLASS")?, config_class.item_text())?;
            set_character_data_enum(&create_sub_element(&ecuc_config_class_elem, "CONFIG-VARIANT")?, variant.item_text())?;
        }
    }
    Ok(())
}

/// read the configuration classes written by `set_config_classes`; entries that are incomplete are skipped
fn get_config_classes(base: &Element, element_name_l1: &str) -> Vec<(EcucConfigurationClass, EcucConfigurationVariant)> {
    let mut result: Vec<(EcucConfigurationClass, EcucConfigurationVariant)> = Vec::new();
    if let Some(config_classes) = get_sub_element(base, element_name_l1) {
        let subs = sub_elements(&config_classes);
        for i in 0..subs.len() {
            if let Some(entry) = config_class_entry(&subs[i]) {
                result.push(entry);
            }
        }
    }
    result
}

/// one entry of a list of configuration classes
fn config_class_entry(config_class: &Element) -> Option<(EcucConfigurationClass, EcucConfigurationVariant)> {
    let class_text = enum_content(&get_sub_element(config_class, "CONFIG-CLASS")?)?;
    let variant_text = enum_content(&get_sub_element(config_class, "CONFIG-VARIANT")?)?;
    let class = match EcucConfigurationClass::from_item_text(&class_text) {
        Ok(class) => class,
        Err(_) => return None,
    };
    let variant = match EcucConfigurationVariant::from_item_text(&variant_text) {
        Ok(variant) => variant,
        Err(_) => return None,
    };
    Some((class, variant))
}

//#########################################################

/// A `EcucDestinationUriDefSet` contains a list of `EcucDestinationUriDef`s
#[derive(Debug, Clone, PartialEq, Eq, Hash)]
pub struct EcucDestinationUriDefSet(Element);

impl AbstractionElement for EcucDestinationUriDefSet {
    closed spec fn spec_element(&self) -> Element {
        self.0
    }

    fn element(&self) -> (r: &Element) {
        proof {
            assert(self.spec_element() == self.0);
        }
        &self.0
    }
}

impl EcucDestinationUriDefSet {
    /// wrap an element of the model whose element name is `ECUC-DESTINATION-URI-DEF-SET`
    pub fn from_element(element: Element) -> (r: Result<Self, AutosarAbstractionError>)
        ensures
            r is Ok <==> spec_element_name(element) == "ECUC-DESTINATION-URI-DEF-SET"@,
            r matches Ok(x) ==> x.spec_element() == element,
            r matches Err(e) ==> is_conversion_error(e, element, "EcucDestinationUriDefSet"@),
    {
        if has_element_name(&element, "ECUC-DESTINATION-URI-DEF-SET") {
            Ok(EcucDestinationUriDefSet(element))
        } else {
            Err(AutosarAbstractionError::ConversionError { element, dest: "EcucDestinationUriDefSet".to_owned() })
        }
    }
}

impl TryFrom<Element> for EcucDestinationUriDefSet {
    type Error = AutosarAbstractionError;

    fn try_from(element: Element) -> (r: Result<Self, Self::Error>)
        ensures
            r is Ok <==> spec_element_name(element) == "ECUC-DESTINATION-URI-DEF-SET"@,
            r matches Ok(x) ==> x.spec_element() == element,
            r matches Err(e) ==> is_conversion_error(e, element, "EcucDestinationUriDefSet"@),
    {
        EcucDestinationUriDefSet::from_element(element)
    }
}

impl TryFromSpecImpl<Element> for EcucDestinationUriDefSet {
    open spec fn obeys_try_from_spec() -> bool {
        false
    }

    open spec fn try_from_spec(v: Element) -> Result<Self, AutosarAbstractionError> {
        arbitrary()
    }
}

impl From<EcucDestinationUriDefSet> for Element {
    fn from(value: EcucDestinationUriDefSet) -> (r: Element)
        ensures
            r == value.spec_element(),
    {
        value.0
    }
}

impl FromSpecImpl<EcucDestinationUriDefSet> for Element {
    open spec fn obeys_from_spec() -> bool {
        false
    }

    open spec fn from_spec(v: EcucDestinationUriDefSet) -> Element {
        arbitrary()
    }
}

impl IdentifiableAbstractionElement for EcucDestinationUriDefSet {}

impl EcucDestinationUriDefSet {
    /// create a new `EcucDestinationUriDefSet` in the package
    pub fn new(name: &str, package: &ArPackage) -> (r: Result<Self, AutosarAbstractionError>)
        ensures
            r matches Ok(s) ==> spec_element_name(s.spec_element()) == "ECUC-DESTINATION-URI-DEF-SET"@,
            r matches Err(e) ==> e is ModelError || e is InvalidParameter,
    {
        let elements = get_or_create_sub_element(package.element(), "ELEMENTS")?;
        let elem = create_named_sub_element(&elements, "ECUC-DESTINATION-URI-DEF-SET", name)?;
        Ok(Self(elem))
    }

    /// create a new `EcucDestinationUriDef`
    pub fn create_destination_uri_def(&self, name: &str, contract: EcucDestinationUriNestingContract) -> (r: Result<
        EcucDestinationUriDef,
        AutosarAbstractionError,
    >)
        ensures
            r matches Err(e) ==> e is ModelError || e is InvalidParameter,
    {
        let defs = get_or_create_sub_element(self.element(), "DESTINATION-URI-DEFS")?;
        EcucDestinationUriDef::new(name, &defs, contract)
    }

    /// all destination uri definitions in the set
    pub fn destination_uri_defs(&self) -> (r: Vec<EcucDestinationUriDef>)
        ensures
            forall|i: int| 0 <= i < r.len() ==> spec_element_name(#[trigger] r@[i].spec_element()) == "ECUC-DESTINATION-URI-DEF"@,
    {
        let mut result: Vec<EcucDestinationUriDef> = Vec::new();
        if let Some(defs) = get_sub_element(self.element(), "DESTINATION-URI-DEFS") {
            let subs = sub_elements(&defs);
            for i in 0..subs.len()
                invariant
                    forall|j: int| 0 <= j < result.len() ==> spec_element_name(#[trigger] result@[j].spec_element()) == "ECUC-DESTINATION-URI-DEF"@,
            {
                if let Ok(def) = EcucDestinationUriDef::from_element(subs[i].clone()) {
                    result.push(def);
                }
            }
        }
        result
    }
}

//#########################################################

/// A `EcucDestinationUriDef` defines a target for an `EcucUriReferenceDef`
#[derive(Debug, Clone, PartialEq, Eq, Hash)]
pub struct EcucDestinationUriDef(Element);

impl AbstractionElement for EcucDestinationUriDef {
    closed spec fn spec_element(&self) -> Element {
        self.0
    }

    fn element(&self) -> (r: &Element) {
        proof {
            assert(self.spec_element() == self.0);
        }
        &self.0
    }
}

impl EcucDestinationUriDef {
    /// wrap an element of the model whose element name is `ECUC-DESTINATION-URI-DEF`
    pub fn from_element(element: Element) -> (r: Result<Self, AutosarAbstractionError>)
        ensures
            r is Ok <==> spec_element_name(element) == "ECUC-DESTINATION-URI-DEF"@,
            r matches Ok(x) ==> x.spec_element() == element,
            r matches Err(e) ==> is_conversion_error(e, element, "EcucDestinationUriDef"@),
    {
        if has_element_name(&element, "ECUC-DESTINATION-URI-DEF") {
            Ok(EcucDestinationUriDef(element))
        } else {
            Err(AutosarAbstractionError::ConversionError { element, dest: "EcucDestinationUriDef".to_owned() })
        }
    }
}

impl TryFrom<Element> for EcucDestinationUriDef {
    type Error = AutosarAbstractionError;

    fn try_from(element: Element) -> (r: Result<Self, Self::Error>)
        ensures
            r is Ok <==> spec_element_name(element) == "ECUC-DESTINATION-URI-DEF"@,
            r matches Ok(x) ==> x.spec_element() == element,
            r matches Err(e) ==> is_conversion_error(e, element, "EcucDestinationUriDef"@),
    {
        EcucDestinationUriDef::from_element(element)
    }
}

impl TryFromSpecImpl<Element> for EcucDestinationUriDef {
    open spec fn obeys_try_from_spec() -> bool {
        false
    }

    open spec fn try_from_spec(v: Element) -> Result<Self, AutosarAbstractionError> {
        arbitrary()
    }
}

impl From<EcucDestinationUriDef> for Element {
    fn from(value: EcucDestinationUriDef) -> (r: Element)
        ensures
            r == value.spec_element(),
    {
        value.0
    }
}

impl FromSpecImpl<EcucDestinationUriDef> for Element {
    open spec fn obeys_from_spec() -> bool {
        false
    }

    open spec fn from_spec(v: EcucDestinationUriDef) -> Element {
        arbitrary()
    }
}

impl IdentifiableAbstractionElement for EcucDestinationUriDef {}

impl EcucDestinationUriDef {
    /// create a new `EcucDestinationUriDef`
    pub fn new(name: &str, parent: &Element, contract: EcucDestinationUriNestingContract) -> (r: Result<
        Self,
        AutosarAbstractionError,
    >)
        ensures
            r matches Ok(d) ==> spec_element_name(d.spec_element()) == "ECUC-DESTINATION-URI-DEF"@,
            r matches Err(e) ==> e is ModelError || e is InvalidParameter,
    {
        let elem = create_named_sub_element(parent, "ECUC-DESTINATION-URI-DEF", name)?;
        let def = Self(elem);
        def.set_nesting_contract(contract)?;
        Ok(def)
    }

    /// set the nesting contract for the destination uri
    pub fn set_nesting_contract(&self, contract: EcucDestinationUriNestingContract) -> (r: Result<
        (),
        AutosarAbstractionError,
    >)
        ensures
            r matches Err(e) ==> is_model_or_name_error(e, "DESTINATION-URI-POLICY"@) || is_model_or_name_error(e, "DESTINATION-URI-NESTING-CONTRACT"@) || is_model_or_name_error(e, contract.spec_item_text()),
    {
        let policy = get_or_create_sub_element(self.element(), "DESTINATION-URI-POLICY")?;
        let contract_elem = get_or_create_sub_element(&policy, "DESTINATION-URI-NESTING-CONTRACT")?;
        set_character_data_enum(&contract_elem, contract.item_text())
    }

    /// get the nesting contract for the destination uri
    pub fn nesting_contract(&self) -> Option<EcucDestinationUriNestingContract> {
        let policy = get_sub_element(self.element(), "DESTINATION-URI-POLICY")?;
        let text = enum_content(&get_sub_element(&policy, "DESTINATION-URI-NESTING-CONTRACT")?)?;
        match EcucDestinationUriNestingContract::from_item_text(&text) {
            Ok(contract) => Some(contract),
            Err(_) => None,
        }
    }

    /// create an `EcucParamConfContainerDef` in the destination uri policy
    pub fn create_param_conf_container_def(&self, name: &str) -> (r: Result<
        EcucParamConfContainerDef,
        AutosarAbstractionError,
    >)
        ensures
            r matches Err(e) ==> e is ModelError || e is InvalidParameter,
    {
        let policy = get_or_create_sub_element(self.element(), "DESTINATION-URI-POLICY")?;
        let containers = get_or_create_sub_element(&policy, "CONTAINERS")?;
        EcucParamConfContainerDef::new(name, &containers)
    }

    /// create an `EcucChoiceContainerDef` in the destination uri policy
    pub fn create_choice_container_def(&self, name: &str) -> (r: Result<EcucChoiceContainerDef, AutosarAbstractionError>)
        ensures
            r matches Err(e) ==> e is ModelError || e is InvalidParameter,
    {
        let policy = get_or_create_sub_element(self.element(), "DESTINATION-URI-POLICY")?;
        let containers = get_or_create_sub_element(&policy, "CONTAINERS")?;
        EcucChoiceContainerDef::new(name, &containers)
    }

    /// all containers in the destination uri policy
    pub fn containers(&self) -> (r: Vec<EcucContainerDef>)
        ensures
            forall|i: int| 0 <= i < r.len() ==> EcucContainerDef::spec_is_wrapped_name(spec_element_name(#[trigger] r@[i].spec_element())),
    {
        match get_sub_element(self.element(), "DESTINATION-URI-POLICY") {
            Some(policy) => container::container_defs_in(&policy, "CONTAINERS"),
            None => Vec::new(),
        }
    }
}

//#########################################################

/// `EcucDestinationUriNestingContract` provides the different nesting contracts for destination URIs
#[derive(Debug, Clone, Copy, PartialEq, Eq, Hash, Structural)]
pub enum EcucDestinationUriNestingContract {
    /// `EcucDestinationUriPolicy` describes elements (subContainers, Parameters, References) that are directly owned by the target container.
    LeafOfTargetContainer,
    /// `EcucDestinationUriPolicy` describes the target container of `EcucUriReferenceDef`.
    TargetContainer,
    /// `EcucDestinationUriPolicy` describes elements (subContainers, Parameters, References) that are owned by the target container or its subContainers.
    VertexOfTargetContainer,
}

impl EcucDestinationUriNestingContract {
    /// the XML text that represents the value in the model
    pub open spec fn spec_item_text(self) -> Seq<char> {
        match self {
            EcucDestinationUriNestingContract::LeafOfTargetContainer => "LEAF-OF-TARGET-CONTAINER"@,
            EcucDestinationUriNestingContract::TargetContainer => "TARGET-CONTAINER"@,
            EcucDestinationUriNestingContract::VertexOfTargetContainer => "VERTEX-OF-TARGET-CONTAINER"@,
        }
    }

    /// the value that an XML text represents, if there is one
    pub open spec fn spec_from_item_text(text: Seq<char>) -> Option<Self> {
        if text == "LEAF-OF-TARGET-CONTAINER"@ {
            Some(EcucDestinationUriNestingContract::LeafOfTargetContainer)
        } else if text == "TARGET-CONTAINER"@ {
            Some(EcucDestinationUriNestingContract::TargetContainer)
        } else if text == "VERTEX-OF-TARGET-CONTAINER"@ {
            Some(EcucDestinationUriNestingContract::VertexOfTargetContainer)
        } else {
            None
        }
    }

    /// the XML text that represents the value in the model
    pub fn item_text(&self) -> (r: &'static str)
        ensures
            r@ == self.spec_item_text(),
    {
        match self {
            EcucDestinationUriNestingContract::LeafOfTargetContainer => "LEAF-OF-TARGET-CONTAINER",
            EcucDestinationUriNestingContract::TargetContainer => "TARGET-CONTAINER",
            EcucDestinationUriNestingContract::VertexOfTargetContainer => "VERTEX-OF-TARGET-CONTAINER",
        }
    }

    /// the value that an XML text represents
    pub fn from_item_text(text: &str) -> (r: Result<Self, AutosarAbstractionError>)
        ensures
            match Self::spec_from_item_text(text@) {
                Some(v) => r == Ok::<Self, AutosarAbstractionError>(v),
                None => r matches Err(e) && is_value_conversion_error(e, text@, "EcucDestinationUriNestingContract"@),
            },
    {
        if text_equals(text, "LEAF-OF-TARGET-CONTAINER") {
            Ok(EcucDestinationUriNestingContract::LeafOfTargetContainer)
        } else if text_equals(text, "TARGET-CONTAINER") {
            Ok(EcucDestinationUriNestingContract::TargetContainer)
        } else if text_equals(text, "VERTEX-OF-TARGET-CONTAINER") {
            Ok(EcucDestinationUriNestingContract::VertexOfTargetContainer)
        } else {
            Err(AutosarAbstractionError::ValueConversionError { value: text.to_owned(), dest: "EcucDestinationUriNestingContract".to_owned() })
        }
    }
}

impl TryFrom<EnumItem> for EcucDestinationUriNestingContract {
    type Error = AutosarAbstractionError;

    fn try_from(value: EnumItem) -> (r: Result<Self, Self::Error>)
        ensures
            match Self::spec_from_item_text(spec_enum_item_text(value)) {
                Some(v) => r == Ok::<Self, AutosarAbstractionError>(v),
                None => r matches Err(e) && is_value_conversion_error(e, spec_enum_item_text(value), "EcucDestinationUriNestingContract"@),
            },
    {
        let text = enum_item_to_text(value);
        EcucDestinationUriNestingContract::from_item_text(&text)
    }
}

impl TryFromSpecImpl<EnumItem> for EcucDestinationUriNestingContract {
    open spec fn obeys_try_from_spec() -> bool {
        false
    }

    open spec fn try_from_spec(v: EnumItem) -> Result<Self, AutosarAbstractionError> {
        arbitrary()
    }
}

impl From<EcucDestinationUriNestingContract> for EnumItem {
    fn from(value: EcucDestinationUriNestingContract) -> (r: EnumItem)
        ensures
            spec_enum_item_text(r) == value.spec_item_text(),
    {
        ecuc_nesting_contract_item(value)
    }
}

impl FromSpecImpl<EcucDestinationUriNestingContract> for EnumItem {
    open spec fn obeys_from_spec() -> bool {
        false
    }

    open spec fn from_spec(v: EcucDestinationUriNestingContract) -> EnumItem {
        arbitrary()
    }
}

/// The XML text of a value of `EcucDestinationUriNestingContract` gives back the value.
pub proof fn lemma_nesting_contract_roundtrip(v: EcucDestinationUriNestingContract)
    ensures
        EcucDestinationUriNestingContract::spec_from_item_text(v.spec_item_text()) == Some(v),
{
    reveal_strlit("LEAF-OF-TARGET-CONTAINER");
    reveal_strlit("TARGET-CONTAINER");
    reveal_strlit("VERTEX-OF-TARGET-CONTAINER");
    match v {
        EcucDestinationUriNestingContract::LeafOfTargetContainer => {
        },
        EcucDestinationUriNestingContract::TargetContainer => {
            assert("TARGET-CONTAINER"@.len() != "LEAF-OF-TARGET-CONTAINER"@.len());
        },
        EcucDestinationUriNestingContract::VertexOfTargetContainer => {
            assert("VERTEX-OF-TARGET-CONTAINER"@.len() != "LEAF-OF-TARGET-CONTAINER"@.len());
            assert("VERTEX-OF-TARGET-CONTAINER"@.len() != "TARGET-CONTAINER"@.len());
        },
    }
}

} // verus!
