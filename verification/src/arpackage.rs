//! Packages of the model.

use vstd::prelude::*;
use vstd::std_specs::convert::{FromSpecImpl, TryFromSpecImpl};
use autosar_data::{AutosarModel, Element};
use crate::{
    AbstractionElement, AutosarAbstractionError, IdentifiableAbstractionElement, has_element_name,
    is_conversion_error,
};
use crate::ecu_configuration::{
    EcucDefinitionCollection, EcucDestinationUriDefSet, EcucModuleConfigurationValues, EcucModuleDef,
    EcucValueCollection,
};
use crate::{System, SystemCategory};
use crate::elements::{
    get_element_by_path, get_or_create_named_sub_element, get_or_create_sub_element, root_element, spec_element_name,
};

verus! {

/// The text of an absolute Autosar path with the given segments: each segment preceded by `/`.
pub open spec fn spec_join_path(parts: Seq<Seq<char>>) -> Seq<char>
    decreases parts.len(),
{
    if parts.len() == 0 {
        Seq::empty()
    } else {
        spec_join_path(parts.drop_last()) + seq!['/'] + parts.last()
    }
}

/// the views of a list of strings
pub open spec fn views(parts: Seq<String>) -> Seq<Seq<char>> {
    parts.map_values(|s: String| s@)
}

/// Split an absolute Autosar path into its segments.
///
/// A path that is empty or does not start with `/` is not absolute and has no segments.
pub fn path_segments(path: &str) -> (r: Option<Vec<String>>)
    ensures
        r is None <==> (path@.len() == 0 || path@[0] != '/'),
        r matches Some(parts) ==> {
            &&& parts.len() >= 1
            &&& spec_join_path(views(parts@)) == path@
            &&& forall|i: int| 0 <= i < parts.len() ==> !(#[trigger] parts@[i]@).contains('/')
        },
{
    let n = path.unicode_len();
    if n == 0 {
        return None;
    }
    if path.get_char(0) != '/' {
        return None;
    }
    let mut parts: Vec<String> = Vec::new();
    let mut start: usize = 1;
    let mut i: usize = 1;
    proof {
        assert(path@.subrange(0, 1) =~= spec_join_path(views(parts@)) + seq!['/']);
    }
    while i < n
        invariant
            n == path@.len(),
            1 <= start <= i <= n,
            path@.subrange(0, start as int) == spec_join_path(views(parts@)) + seq!['/'],
            forall|k: int| start <= k < i ==> path@[k] != '/',
            forall|j: int| 0 <= j < parts.len() ==> !(#[trigger] parts@[j]@).contains('/'),
        decreases n - i,
    {
        if path.get_char(i) == '/' {
            let part = path.substring_char(start, i).to_owned();
            let ghost old_parts = parts@;
            parts.push(part);
            proof {
                assert(views(parts@) =~= views(old_parts).push(part@));
                assert(views(parts@).drop_last() =~= views(old_parts));
                assert(!part@.contains('/')) by {
                    if part@.contains('/') {
                        let k = choose|k: int| 0 <= k < part@.len() && part@[k] == '/';
                        assert(path@[start + k] == '/');
                    }
                }
                assert(path@.subrange(0, i + 1) =~= spec_join_path(views(parts@)) + seq!['/']);
            }
            start = i + 1;
        }
        i = i + 1;
    }
    let part = path.substring_char(start, n).to_owned();
    let ghost old_parts = parts@;
    parts.push(part);
    proof {
        assert(views(parts@) =~= views(old_parts).push(part@));
        assert(views(parts@).drop_last() =~= views(old_parts));
        assert(!part@.contains('/')) by {
            if part@.contains('/') {
                let k = choose|k: int| 0 <= k < part@.len() && part@[k] == '/';
                assert(path@[start + k] == '/');
            }
        }
        assert(path@ =~= spec_join_path(views(parts@)));
    }
    Some(parts)
}

/// An `ArPackage` is a container of the elements of the model.
#[derive(Debug, Clone, PartialEq, Eq, Hash)]
pub struct ArPackage(Element);

impl AbstractionElement for ArPackage {
    closed spec fn spec_element(&self) -> Element {
        self.0
    }

    fn element(&self) -> (r: &Element) {
        proof {
            assert(self.spec_element() == self.0);
        }
        &self.0
    }
}

impl ArPackage {
    /// wrap an element of the model whose element name is `AR-PACKAGE`
    pub fn from_element(element: Element) -> (r: Result<Self, AutosarAbstractionError>)
        ensures
            r is Ok <==> spec_element_name(element) == "AR-PACKAGE"@,
            r matches Ok(x) ==> x.spec_element() == element,
            r matches Err(e) ==> is_conversion_error(e, element, "ArPackage"@),
    {
        if has_element_name(&element, "AR-PACKAGE") {
            Ok(ArPackage(element))
        } else {
            Err(AutosarAbstractionError::ConversionError { element, dest: "ArPackage".to_owned() })
        }
    }
}

impl TryFrom<Element> for ArPackage {
    type Error = AutosarAbstractionError;

    fn try_from(element: Element) -> (r: Result<Self, Self::Error>)
        ensures
            r is Ok <==> spec_element_name(element) == "AR-PACKAGE"@,
            r matches Ok(x) ==> x.spec_element() == element,
            r matches Err(e) ==> is_conversion_error(e, element, "ArPackage"@),
    {
        ArPackage::from_element(element)
    }
}

impl TryFromSpecImpl<Element> for ArPackage {
    open spec fn obeys_try_from_spec() -> bool {
        false
    }

    open spec fn try_from_spec(v: Element) -> Result<Self, AutosarAbstractionError> {
        arbitrary()
    }
}

impl From<ArPackage> for Element {
    fn from(value: ArPackage) -> (r: Element)
        ensures
            r == value.spec_element(),
    {
        value.0
    }
}

impl FromSpecImpl<ArPackage> for Element {
    open spec fn obeys_from_spec() -> bool {
        false
    }

    open spec fn from_spec(v: ArPackage) -> Element {
        arbitrary()
    }
}

impl IdentifiableAbstractionElement for ArPackage {}

impl ArPackage {
    /// Get a package by its path or create it if it does not exist
    ///
    /// A path that does not start with `/` is reported as `InvalidPath`.
    pub fn get_or_create(model: &AutosarModel, path: &str) -> (r: Result<Self, AutosarAbstractionError>)
        ensures
            r matches Ok(pkg) ==> spec_element_name(pkg.spec_element()) == "AR-PACKAGE"@,
            r matches Err(AutosarAbstractionError::InvalidPath(p)) ==> p@ == path@ && (path@.len() == 0
                || path@[0] != '/'),
    {
        if let Some(pkg_elem) = get_element_by_path(model, path) {
            return ArPackage::from_element(pkg_elem);
        }
        let parts = match path_segments(path) {
            Some(parts) => parts,
            None => return Err(AutosarAbstractionError::InvalidPath(path.to_owned())),
        };
        let mut pkg_elem = root_element(model);
        for i in 0..parts.len() {
            let packages = get_or_create_sub_element(&pkg_elem, "AR-PACKAGES")?;
            pkg_elem = get_or_create_named_sub_element(&packages, "AR-PACKAGE", parts[i].as_str())?;
        }
        ArPackage::from_element(pkg_elem)
    }

    /// create a new `EcucDefinitionCollection` in the package
    pub fn create_ecuc_definition_collection(&self, name: &str) -> (r: Result<
        EcucDefinitionCollection,
        AutosarAbstractionError,
    >)
        ensures
            r matches Err(e) ==> e is ModelError || e is InvalidParameter,
    {
        EcucDefinitionCollection::new(name, self)
    }

    /// create a new `EcucModuleDef` in the package
    pub fn create_ecuc_module_def(&self, name: &str) -> (r: Result<EcucModuleDef, AutosarAbstractionError>)
        ensures
            r matches Err(e) ==> e is ModelError || e is InvalidParameter,
    {
        EcucModuleDef::new(name, self)
    }

    /// create a new `EcucDestinationUriDefSet` in the package
    pub fn create_ecuc_destination_uri_def_set(&self, name: &str) -> (r: Result<
        EcucDestinationUriDefSet,
        AutosarAbstractionError,
    >)
        ensures
            r matches Err(e) ==> e is ModelError || e is InvalidParameter,
    {
        EcucDestinationUriDefSet::new(name, self)
    }

    /// create a new `EcucValueCollection` in the package
    pub fn create_ecuc_value_collection(&self, name: &str) -> (r: Result<EcucValueCollection, AutosarAbstractionError>)
        ensures
            r matches Err(e) ==> e is ModelError || e is InvalidParameter,
    {
        EcucValueCollection::new(name, self)
    }

    /// create a new `EcucModuleConfigurationValues` in the package, for the module definition
    pub fn create_ecuc_module_configuration_values(&self, name: &str, definition: &EcucModuleDef) -> (r: Result<
        EcucModuleConfigurationValues,
        AutosarAbstractionError,
    >)
        ensures
            r matches Err(e) ==> e is ModelError || e is InvalidParameter,
    {
        EcucModuleConfigurationValues::new(name, self, definition)
    }

    /// create a new `System` in the package
    pub fn create_system(&self, name: &str, category: SystemCategory) -> (r: Result<System, AutosarAbstractionError>)
        ensures
            r matches Err(e) ==> e is ModelError || e is InvalidParameter,
    {
        System::new(name, self, category)
    }
}

} // verus!
