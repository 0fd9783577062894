//! The ECU configuration: definitions of modules, containers, parameters and references, and
//! the values that are configured against them.

mod definition;
mod values;

pub use definition::{
    AbstractEcucContainerDef, AbstractEcucReferenceDef, EcucAbstractStringParamDef, EcucAddInfoParamDef,
    EcucAnyReferenceDef, EcucBooleanParamDef, EcucChoiceContainerDef, EcucChoiceReferenceDef, EcucCommonAttributes,
    EcucConfigurationClass, EcucConfigurationVariant, EcucContainerDef, EcucDefinitionCollection,
    EcucDefinitionElement, EcucDestinationUriDef, EcucDestinationUriDefSet, EcucDestinationUriNestingContract,
    EcucEnumerationLiteralDef, EcucEnumerationParamDef, EcucFloatParamDef, EcucForeignReferenceDef,
    EcucFunctionNameDef, EcucInstanceReferenceDef, EcucIntegerParamDef, EcucLinkerSymbolDef, EcucModuleDef,
    EcucModuleDefCategory, EcucMultilineStringParamDef, EcucNumericalParamDef, EcucParamConfContainerDef,
    EcucParamDef, EcucParameterDef, EcucReferenceDef, EcucStringParamDef, EcucTextualParamDef, EcucUriReferenceDef,
    lemma_configuration_class_roundtrip, lemma_configuration_variant_roundtrip, lemma_module_def_category_roundtrip,
    lemma_nesting_contract_roundtrip,
};
pub use values::{
    EcucAnyReferenceValue, EcucContainerValue, EcucInstanceReferenceValue, EcucModuleConfigurationValues,
    EcucReferenceValue, EcucValueCollection,
};
