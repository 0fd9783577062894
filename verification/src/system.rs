//! The system: the top level of a system description, as far as the ECU configuration refers to it.

use vstd::prelude::*;
use crate::elements::is_model_or_name_error;
use autosar_data::{AutosarModel, Element};
use vstd::std_specs::convert::{FromSpecImpl, TryFromSpecImpl};
use crate::{
    AbstractionElement, ArPackage, AutosarAbstractionError, IdentifiableAbstractionElement, has_element_name,
    is_conversion_error, is_value_conversion_error,
};
use crate::communication::{
    CanCluster, CanTpConfig, Cluster, EventGroupControlType, SomeipTpConfig, FlexrayCluster, FlexrayTpConfig, ServiceInstanceCollectionSet,
    SoAdRoutingGroup,
};
use crate::communication::someip_sd::add_conditional_reference;
use crate::elements::{
    create_named_sub_element, get_or_create_sub_element, identifiable_elements, set_character_data_text,
    spec_element_name,
};
use crate::text::text_equals;
use crate::values::sub_element_string;

verus! {

/// The `System` is the top level of a system template
#[derive(Debug, Clone, PartialEq, Eq, Hash)]
pub struct System(Element);

impl AbstractionElement for System {
    closed spec fn spec_element(&self) -> Element {
        self.0
    }

    fn element(&self) -> (r: &Element) {
        proof {
            assert(self.spec_element() == self.0);
        }
        &self.0
    }
}

impl System {
    /// wrap an element of the model whose element name is `SYSTEM`
    pub fn from_element(element: Element) -> (r: Result<Self, AutosarAbstractionError>)
        ensures
            r is Ok <==> spec_element_name(element) == "SYSTEM"@,
            r matches Ok(x) ==> x.spec_element() == element,
            r matches Err(e) ==> is_conversion_error(e, element, "System"@),
    {
        if has_element_name(&element, "SYSTEM") {
            Ok(System(element))
        } else {
            Err(AutosarAbstractionError::ConversionError { element, dest: "System".to_owned() })
        }
    }
}

impl TryFrom<Element> for System {
    type Error = AutosarAbstractionError;

    fn try_from(element: Element) -> (r: Result<Self, Self::Error>)
        ensures
            r is Ok <==> spec_element_name(element) == "SYSTEM"@,
            r matches Ok(x) ==> x.spec_element() == element,
            r matches Err(e) ==> is_conversion_error(e, element, "System"@),
    {
        System::from_element(element)
    }
}

impl TryFromSpecImpl<Element> for System {
    open spec fn obeys_try_from_spec() -> bool {
        false
    }

    open spec fn try_from_spec(v: Element) -> Result<Self, AutosarAbstractionError> {
        arbitrary()
    }
}

impl From<System> for Element {
    fn from(value: System) -> (r: Element)
        ensures
            r == value.spec_element(),
    {
        value.0
    }
}

impl FromSpecImpl<System> for Element {
    open spec fn obeys_from_spec() -> bool {
        false
    }

    open spec fn from_spec(v: System) -> Element {
        arbitrary()
    }
}

impl IdentifiableAbstractionElement for System {}

impl System {
    /// create a new `System` in the package
    pub fn new(name: &str, package: &ArPackage, category: SystemCategory) -> (r: Result<Self, AutosarAbstractionError>)
        ensures
            r matches Ok(x) ==> spec_element_name(x.spec_element()) == "SYSTEM"@,
            r matches Err(e) ==> e is ModelError || e is InvalidParameter,
    {
        let elements = get_or_create_sub_element(package.element(), "ELEMENTS")?;
        let elem = create_named_sub_element(&elements, "SYSTEM", name)?;
        let system = Self(elem);
        system.set_category(category)?;
        Ok(system)
    }

    /// set the category of the system
    pub fn set_category(&self, category: SystemCategory) -> (r: Result<(), AutosarAbstractionError>)
        ensures
            r matches Err(e) ==> is_model_or_name_error(e, "CATEGORY"@),
    {
        set_character_data_text(&get_or_create_sub_element(self.element(), "CATEGORY")?, category.text())
    }

    /// create a `ServiceInstanceCollectionSet` in the package; the system refers to it as one of its fibex elements
    pub fn create_service_instance_collection_set(&self, name: &str, package: &ArPackage) -> (r: Result<
        ServiceInstanceCollectionSet,
        AutosarAbstractionError,
    >)
        ensures
            r matches Err(e) ==> e is ModelError || e is InvalidParameter,
    {
        let set = ServiceInstanceCollectionSet::new(name, package)?;
        add_conditional_reference(
            self.element(),
            "FIBEX-ELEMENTS",
            "FIBEX-ELEMENT-REF-CONDITIONAL",
            "FIBEX-ELEMENT-REF",
            set.element(),
        )?;
        Ok(set)
    }

    /// create a `CanTpConfig` for the given cluster in the package; the system refers to it as one of its fibex elements
    pub fn create_can_tp_config(&self, name: &str, package: &ArPackage, can_cluster: &CanCluster) -> (r: Result<
        CanTpConfig,
        AutosarAbstractionError,
    >)
        ensures
            r matches Ok(x) ==> spec_element_name(x.spec_element()) == "CAN-TP-CONFIG"@,
            r matches Err(e) ==> e is ModelError || e is InvalidParameter,
    {
        let tp_config = CanTpConfig::new(name, package, can_cluster)?;
        add_conditional_reference(
            self.element(),
            "FIBEX-ELEMENTS",
            "FIBEX-ELEMENT-REF-CONDITIONAL",
            "FIBEX-ELEMENT-REF",
            tp_config.element(),
        )?;
        Ok(tp_config)
    }

    /// create a `FlexrayTpConfig` for the given cluster in the package; the system refers to it as one of its fibex elements
    pub fn create_flexray_tp_config(&self, name: &str, package: &ArPackage, flexray_cluster: &FlexrayCluster) -> (r: Result<
        FlexrayTpConfig,
        AutosarAbstractionError,
    >)
        ensures
            r matches Ok(x) ==> spec_element_name(x.spec_element()) == "FLEXRAY-TP-CONFIG"@,
            r matches Err(e) ==> e is ModelError || e is InvalidParameter,
    {
        let tp_config = FlexrayTpConfig::new(name, package, flexray_cluster)?;
        add_conditional_reference(
            self.element(),
            "FIBEX-ELEMENTS",
            "FIBEX-ELEMENT-REF-CONDITIONAL",
            "FIBEX-ELEMENT-REF",
            tp_config.element(),
        )?;
        Ok(tp_config)
    }

    /// create a `SoAdRoutingGroup` in the package; the system refers to it as one of its fibex elements
    pub fn create_so_ad_routing_group(
        &self,
        name: &str,
        package: &ArPackage,
        control_type: Option<EventGroupControlType>,
    ) -> (r: Result<SoAdRoutingGroup, AutosarAbstractionError>)
        ensures
            r matches Ok(x) ==> spec_element_name(x.spec_element()) == "SO-AD-ROUTING-GROUP"@,
            r matches Err(e) ==> e is ModelError || e is InvalidParameter,
    {
        let routing_group = SoAdRoutingGroup::new(name, package, control_type)?;
        add_conditional_reference(
            self.element(),
            "FIBEX-ELEMENTS",
            "FIBEX-ELEMENT-REF-CONDITIONAL",
            "FIBEX-ELEMENT-REF",
            routing_group.element(),
        )?;
        Ok(routing_group)
    }

    /// create a `SomeipTpConfig` for the given cluster in the package; the system refers to it as one of its fibex elements
    pub fn create_somip_tp_config(&self, name: &str, package: &ArPackage, cluster: &Cluster) -> (r: Result<
        SomeipTpConfig,
        AutosarAbstractionError,
    >)
        ensures
            r matches Ok(x) ==> spec_element_name(x.spec_element()) == "SOMEIP-TP-CONFIG"@,
            r matches Err(e) ==> e is ModelError || e is InvalidParameter,
    {
        let tp_config = SomeipTpConfig::new(name, package, cluster)?;
        add_conditional_reference(
            self.element(),
            "FIBEX-ELEMENTS",
            "FIBEX-ELEMENT-REF-CONDITIONAL",
            "FIBEX-ELEMENT-REF",
            tp_config.element(),
        )?;
        Ok(tp_config)
    }

    /// find a SYSTEM among the identifiable elements of the model, if there is one
    pub fn find(model: &AutosarModel) -> (r: Option<System>)
        ensures
            r matches Some(system) ==> spec_element_name(system.spec_element()) == "SYSTEM"@,
    {
        let candidates = identifiable_elements(model);
        for i in 0..candidates.len() {
            if let Some(elem) = &candidates[i] {
                if has_element_name(elem, "SYSTEM") {
                    return Some(System(elem.clone()));
                }
            }
        }
        None
    }

    /// get the category of the system
    pub fn category(&self) -> Option<SystemCategory> {
        let text = sub_element_string(self.element(), "CATEGORY")?;
        match SystemCategory::from_text(&text) {
            Ok(category) => Some(category),
            Err(_) => None,
        }
    }
}

//#########################################################

/// The category of a `System`
#[derive(Debug, Clone, Copy, PartialEq, Eq, Hash, Structural)]
pub enum SystemCategory {
    /// The `System` is used to describe system constraints
    SystemConstraints,
    /// The `System` is used to describe the system configuration of a complete AUTOSAR system
    SystemDescription,
    /// The `System` is used to describe a subset of a complete AUTOSAR system
    SystemExtract,
    /// The `System` is used to describe the ECU extract of a single ECU
    EcuExtract,
    /// The `System` is used to describe an abstract system description
    AbstractSystemDescription,
    /// The `System` is used to describe the system description of a single ECU
    EcuSystemDescription,
    /// The `System` is used to describe the system description of a software cluster
    SwClusterSystemDescription,
    /// The `System` is used to describe a rapid prototyping system
    RptSystem,
}

impl SystemCategory {
    /// the XML text that represents the value in the model
    pub open spec fn spec_text(self) -> Seq<char> {
        match self {
            SystemCategory::SystemConstraints => "SYSTEM_CONSTRAINTS"@,
            SystemCategory::SystemDescription => "SYSTEM_DESCRIPTION"@,
            SystemCategory::SystemExtract => "SYSTEM_EXTRACT"@,
            SystemCategory::EcuExtract => "ECU_EXTRACT"@,
            SystemCategory::AbstractSystemDescription => "ABSTRACT_SYSTEM_DESCRIPTION"@,
            SystemCategory::EcuSystemDescription => "ECU_SYSTEM_DESCRIPTION"@,
            SystemCategory::SwClusterSystemDescription => "SW_CLUSTER_SYSTEM_DESCRIPTION"@,
            SystemCategory::RptSystem => "RPT_SYSTEM"@,
        }
    }

    /// the value that an XML text represents, if there is one
    pub open spec fn spec_from_text(text: Seq<char>) -> Option<Self> {
        if text == "SYSTEM_CONSTRAINTS"@ {
            Some(SystemCategory::SystemConstraints)
        } else if text == "SYSTEM_DESCRIPTION"@ {
            Some(SystemCategory::SystemDescription)
        } else if text == "SYSTEM_EXTRACT"@ {
            Some(SystemCategory::SystemExtract)
        } else if text == "ECU_EXTRACT"@ {
            Some(SystemCategory::EcuExtract)
        } else if text == "ABSTRACT_SYSTEM_DESCRIPTION"@ {
            Some(SystemCategory::AbstractSystemDescription)
        } else if text == "ECU_SYSTEM_DESCRIPTION"@ {
            Some(SystemCategory::EcuSystemDescription)
        } else if text == "SW_CLUSTER_SYSTEM_DESCRIPTION"@ {
            Some(SystemCategory::SwClusterSystemDescription)
        } else if text == "RPT_SYSTEM"@ {
            Some(SystemCategory::RptSystem)
        } else {
            None
        }
    }

    /// the XML text that represents the value in the model
    pub fn text(&self) -> (r: &'static str)
        ensures
            r@ == self.spec_text(),
    {
        match self {
            SystemCategory::SystemConstraints => "SYSTEM_CONSTRAINTS",
            SystemCategory::SystemDescription => "SYSTEM_DESCRIPTION",
            SystemCategory::SystemExtract => "SYSTEM_EXTRACT",
            SystemCategory::EcuExtract => "ECU_EXTRACT",
            SystemCategory::AbstractSystemDescription => "ABSTRACT_SYSTEM_DESCRIPTION",
            SystemCategory::EcuSystemDescription => "ECU_SYSTEM_DESCRIPTION",
            SystemCategory::SwClusterSystemDescription => "SW_CLUSTER_SYSTEM_DESCRIPTION",
            SystemCategory::RptSystem => "RPT_SYSTEM",
        }
    }

    /// the value that an XML text represents
    pub fn from_text(text: &str) -> (r: Result<Self, AutosarAbstractionError>)
        ensures
            match Self::spec_from_text(text@) {
                Some(v) => r == Ok::<Self, AutosarAbstractionError>(v),
                None => r matches Err(e) && is_value_conversion_error(e, text@, "SystemCategory"@),
            },
    {
        if text_equals(text, "SYSTEM_CONSTRAINTS") {
            Ok(SystemCategory::SystemConstraints)
        } else if text_equals(text, "SYSTEM_DESCRIPTION") {
            Ok(SystemCategory::SystemDescription)
        } else if text_equals(text, "SYSTEM_EXTRACT") {
            Ok(SystemCategory::SystemExtract)
        } else if text_equals(text, "ECU_EXTRACT") {
            Ok(SystemCategory::EcuExtract)
        } else if text_equals(text, "ABSTRACT_SYSTEM_DESCRIPTION") {
            Ok(SystemCategory::AbstractSystemDescription)
        } else if text_equals(text, "ECU_SYSTEM_DESCRIPTION") {
            Ok(SystemCategory::EcuSystemDescription)
        } else if text_equals(text, "SW_CLUSTER_SYSTEM_DESCRIPTION") {
            Ok(SystemCategory::SwClusterSystemDescription)
        } else if text_equals(text, "RPT_SYSTEM") {
            Ok(SystemCategory::RptSystem)
        } else {
            Err(AutosarAbstractionError::ValueConversionError { value: text.to_owned(), dest: "SystemCategory".to_owned() })
        }
    }
}

/// The XML text of a value of `SystemCategory` gives back the value.
pub proof fn lemma_system_category_roundtrip(v: SystemCategory)
    ensures
        SystemCategory::spec_from_text(v.spec_text()) == Some(v),
{
    reveal_strlit("SYSTEM_CONSTRAINTS");
    reveal_strlit("SYSTEM_DESCRIPTION");
    reveal_strlit("SYSTEM_EXTRACT");
    reveal_strlit("ECU_EXTRACT");
    reveal_strlit("ABSTRACT_SYSTEM_DESCRIPTION");
    reveal_strlit("ECU_SYSTEM_DESCRIPTION");
    reveal_strlit("SW_CLUSTER_SYSTEM_DESCRIPTION");
    reveal_strlit("RPT_SYSTEM");
    match v {
        SystemCategory::SystemConstraints => {
        },
        SystemCategory::SystemDescription => {
            assert("SYSTEM_DESCRIPTION"@[7] != "SYSTEM_CONSTRAINTS"@[7]);
        },
        SystemCategory::SystemExtract => {
            assert("SYSTEM_EXTRACT"@.len() != "SYSTEM_CONSTRAINTS"@.len());
            assert("SYSTEM_EXTRACT"@.len() != "SYSTEM_DESCRIPTION"@.len());
        },
        SystemCategory::EcuExtract => {
            assert("ECU_EXTRACT"@.len() != "SYSTEM_CONSTRAINTS"@.len());
            assert("ECU_EXTRACT"@.len() != "SYSTEM_DESCRIPTION"@.len());
            assert("ECU_EXTRACT"@.len() != "SYSTEM_EXTRACT"@.len());
        },
        SystemCategory::AbstractSystemDescription => {
            assert("ABSTRACT_SYSTEM_DESCRIPTION"@.len() != "SYSTEM_CONSTRAINTS"@.len());
            assert("ABSTRACT_SYSTEM_DESCRIPTION"@.len() != "SYSTEM_DESCRIPTION"@.len());
            assert("ABSTRACT_SYSTEM_DESCRIPTION"@.len() != "SYSTEM_EXTRACT"@.len());
            assert("ABSTRACT_SYSTEM_DESCRIPTION"@.len() != "ECU_EXTRACT"@.len());
        },
        SystemCategory::EcuSystemDescription => {
            assert("ECU_SYSTEM_DESCRIPTION"@.len() != "SYSTEM_CONSTRAINTS"@.len());
            assert("ECU_SYSTEM_DESCRIPTION"@.len() != "SYSTEM_DESCRIPTION"@.len());
            assert("ECU_SYSTEM_DESCRIPTION"@.len() != "SYSTEM_EXTRACT"@.len());
            assert("ECU_SYSTEM_DESCRIPTION"@.len() != "ECU_EXTRACT"@.len());
            assert("ECU_SYSTEM_DESCRIPTION"@.len() != "ABSTRACT_SYSTEM_DESCRIPTION"@.len());
        },
        SystemCategory::SwClusterSystemDescription => {
            assert("SW_CLUSTER_SYSTEM_DESCRIPTION"@.len() != "SYSTEM_CONSTRAINTS"@.len());
            assert("SW_CLUSTER_SYSTEM_DESCRIPTION"@.len() != "SYSTEM_DESCRIPTION"@.len());
            assert("SW_CLUSTER_SYSTEM_DESCRIPTION"@.len() != "SYSTEM_EXTRACT"@.len());
            assert("SW_CLUSTER_SYSTEM_DESCRIPTION"@.len() != "ECU_EXTRACT"@.len());
            assert("SW_CLUSTER_SYSTEM_DESCRIPTION"@.len() != "ABSTRACT_SYSTEM_DESCRIPTION"@.len());
            assert("SW_CLUSTER_SYSTEM_DESCRIPTION"@.len() != "ECU_SYSTEM_DESCRIPTION"@.len());
        },
        SystemCategory::RptSystem => {
            assert("RPT_SYSTEM"@.len() != "SYSTEM_CONSTRAINTS"@.len());
            assert("RPT_SYSTEM"@.len() != "SYSTEM_DESCRIPTION"@.len());
            assert("RPT_SYSTEM"@.len() != "SYSTEM_EXTRACT"@.len());
            assert("RPT_SYSTEM"@.len() != "ECU_EXTRACT"@.len());
            assert("RPT_SYSTEM"@.len() != "ABSTRACT_SYSTEM_DESCRIPTION"@.len());
            assert("RPT_SYSTEM"@.len() != "ECU_SYSTEM_DESCRIPTION"@.len());
            assert("RPT_SYSTEM"@.len() != "SW_CLUSTER_SYSTEM_DESCRIPTION"@.len());
        },
    }
}

} // verus!
