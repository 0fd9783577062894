//! The model as a whole.

use vstd::prelude::*;
use autosar_data::{ArxmlFile, AutosarModel, AutosarVersion, Element};
use crate::{AbstractionElement, ArPackage, AutosarAbstractionError, System};
use crate::elements::{
    create_file, get_element_by_path, get_sub_element, model_files, new_model, root_element, spec_element_name,
    sub_elements,
};

verus! {

/// The `AutosarModelAbstraction` wraps an `AutosarModel` and provides additional functionality
#[derive(Debug, Clone, PartialEq, Eq)]
pub struct AutosarModelAbstraction(AutosarModel);

impl AutosarModelAbstraction {
    /// Create a new `AutosarModelAbstraction` from an `AutosarModel`
    pub fn new(model: AutosarModel) -> (r: Self)
        ensures
            r.spec_model() == model,
    {
        AutosarModelAbstraction(model)
    }

    /// the wrapped model
    pub closed spec fn spec_model(&self) -> AutosarModel {
        self.0
    }

    /// create a new `AutosarModelAbstraction` with an empty `AutosarModel`
    ///
    /// You must specify a file name for the initial file in the model. This file is not created on disk immediately.
    /// The model also needs an `AutosarVersion`.
    pub fn create<P: AsRef<std::path::Path>>(file_name: P, version: AutosarVersion) -> Self {
        let model = new_model();
        // a new model contains no file, so creating the first file cannot fail on a duplicate name
        let _ = create_file(&model, file_name, version);
        AutosarModelAbstraction(model)
    }

    /// Get the underlying `AutosarModel` from the abstraction model
    pub fn model(&self) -> (r: &AutosarModel)
        ensures
            *r == self.spec_model(),
    {
        &self.0
    }

    /// Get the root element of the model
    pub fn root_element(&self) -> Element {
        root_element(&self.0)
    }

    /// get all top-level packages
    pub fn packages(&self) -> (r: Vec<ArPackage>)
        ensures
            forall|i: int| 0 <= i < r.len() ==> spec_element_name(#[trigger] r@[i].spec_element()) == "AR-PACKAGE"@,
    {
        let mut result: Vec<ArPackage> = Vec::new();
        if let Some(packages) = get_sub_element(&root_element(&self.0), "AR-PACKAGES") {
            let items = sub_elements(&packages);
            for i in 0..items.len()
                invariant
                    forall|j: int| 0 <= j < result.len() ==> spec_element_name(#[trigger] result@[j].spec_element())
                        == "AR-PACKAGE"@,
            {
                if let Ok(pkg) = ArPackage::from_element(items[i].clone()) {
                    result.push(pkg);
                }
            }
        }
        result
    }

    /// Get a package by its path or create it if it does not exist
    pub fn get_or_create_package(&self, path: &str) -> (r: Result<ArPackage, AutosarAbstractionError>)
        ensures
            r matches Ok(pkg) ==> spec_element_name(pkg.spec_element()) == "AR-PACKAGE"@,
            r matches Err(AutosarAbstractionError::InvalidPath(p)) ==> p@ == path@ && (path@.len() == 0
                || path@[0] != '/'),
    {
        ArPackage::get_or_create(&self.0, path)
    }

    /// Create a new file in the model
    pub fn create_file(&self, file_name: &str, version: AutosarVersion) -> (r: Result<ArxmlFile, AutosarAbstractionError>)
        ensures
            r matches Err(e) ==> e is ModelError,
    {
        create_file(&self.0, file_name, version)
    }

    /// get all files in the model
    pub fn files(&self) -> Vec<ArxmlFile> {
        model_files(&self.0)
    }

    /// Get an element by its path
    pub fn get_element_by_path(&self, path: &str) -> Option<Element> {
        get_element_by_path(&self.0, path)
    }

    /// find an existing SYSTEM in the model, if it exists
    pub fn find_system(&self) -> (r: Option<System>)
        ensures
            r matches Some(x) ==> spec_element_name(x.spec_element()) == "SYSTEM"@,
    {
        System::find(&self.0)
    }
}

} // verus!
