//! Abstraction layer for the AUTOSAR data model.
//!
//! The crate presents typed views onto the elements of an `autosar_data` model and
//! provides the interactions between them. Every operation that touches the model goes
//! through the small set of trusted calls in [`elements`]; the decisions taken around
//! those calls are verified.

use vstd::prelude::*;
use vstd::std_specs::convert::{FromSpecImpl, TryFromSpecImpl};
use autosar_data::{AutosarModel, Element, EnumItem};

mod accessors;
mod arpackage;
pub mod communication;
pub mod datatype;
pub mod ecu_configuration;
mod ecuinstance;
pub mod elements;
mod model;
mod system;
pub mod text;
pub mod values;

pub use arpackage::ArPackage;
pub use ecuinstance::EcuInstance;
pub use model::AutosarModelAbstraction;
pub use system::{System, SystemCategory, lemma_system_category_roundtrip};
pub use elements::CharData;

use elements::{
    element_model, element_path, enum_item_to_text, get_element_by_path, item_name, named_parent, parent,
    references_to, remove_sub_element, set_item_name, spec_enum_item_text,
    byte_order_item, data_error_text, element_name, spec_element_name,
};
use text::{decimal_text, join_text, spec_decimal, text_equals};

verus! {

/// The error type of the crate
#[derive(Debug)]
pub enum AutosarAbstractionError {
    /// converting an element of the model to a class of the abstract model failed
    ConversionError {
        /// the element that could not be converted
        element: Element,
        /// the name of the destination type
        dest: String,
    },
    /// converting a value to a class of the abstract model failed
    ValueConversionError {
        /// the value that could not be converted
        value: String,
        /// the name of the destination type
        dest: String,
    },
    /// an error reported by an operation of the underlying model
    ModelError(autosar_data::AutosarDataError),
    /// an invalid Autosar path was passed as a parameter
    InvalidPath(String),
    /// an item could not be created because another item already fulfills its role in the model
    ItemAlreadyExists,
    /// a function parameter has an invalid value
    InvalidParameter(String),
}

impl AutosarAbstractionError {
    /// the message of an error that holds no error of the model
    pub open spec fn spec_message(self) -> Seq<char> {
        match self {
            AutosarAbstractionError::ConversionError { element, dest } => "conversion error: could not convert "@
                + spec_element_name(element) + " to "@ + dest@,
            AutosarAbstractionError::ValueConversionError { value, dest } => "value conversion error: could not convert "@
                + value@ + " to "@ + dest@,
            AutosarAbstractionError::ModelError(_) => "model error: "@,
            AutosarAbstractionError::InvalidPath(path) => "invalid path: "@ + path@,
            AutosarAbstractionError::ItemAlreadyExists => "the item already exists"@,
            AutosarAbstractionError::InvalidParameter(text) => "invalid parameter: "@ + text@,
        }
    }

    /// the text that describes the error
    ///
    /// An error of the model is described by `model error: ` and the text of that error.
    pub fn to_string(&self) -> (r: String)
        ensures
            !(*self is ModelError) ==> r@ == self.spec_message(),
            *self is ModelError ==> exists|t: Seq<char>| r@ == self.spec_message() + t,
    {
        match self {
            AutosarAbstractionError::ConversionError { element, dest } => {
                let name = element_name(element);
                join_text(&join_text(&join_text("conversion error: could not convert ", &name), " to "), dest)
            },
            AutosarAbstractionError::ValueConversionError { value, dest } => {
                join_text(&join_text(&join_text("value conversion error: could not convert ", value), " to "), dest)
            },
            AutosarAbstractionError::ModelError(error) => {
                let text = data_error_text(error);
                let r = join_text("model error: ", &text);
                proof {
                    assert(r@ == self.spec_message() + text@);
                }
                r
            },
            AutosarAbstractionError::InvalidPath(path) => join_text("invalid path: ", path),
            AutosarAbstractionError::ItemAlreadyExists => "the item already exists".to_owned(),
            AutosarAbstractionError::InvalidParameter(text) => join_text("invalid parameter: ", text),
        }
    }
}

/// the error that a failed conversion of `value` into the type named `dest` reports
pub open spec fn is_value_conversion_error(e: AutosarAbstractionError, value: Seq<char>, dest: Seq<char>) -> bool {
    e matches AutosarAbstractionError::ValueConversionError { value: v, dest: d } && v@ == value && d@ == dest
}

/// the error that a failed conversion of an element into the type named `dest` reports
pub open spec fn is_conversion_error(e: AutosarAbstractionError, element: Element, dest: Seq<char>) -> bool {
    e matches AutosarAbstractionError::ConversionError { element: el, dest: d } && el == element && d@ == dest
}

/// an `InvalidParameter` error with the given message
pub open spec fn is_invalid_parameter(e: AutosarAbstractionError, message: Seq<char>) -> bool {
    e matches AutosarAbstractionError::InvalidParameter(m) && m@ == message
}

//#########################################################

/// The `AbstractionElement` trait is implemented by all classes that represent elements in the AUTOSAR model.
pub trait AbstractionElement: Sized + Clone {
    /// the underlying element of the model
    spec fn spec_element(&self) -> Element;

    /// Get the underlying `Element` from the abstraction element
    fn element(&self) -> (r: &Element)
        ensures
            *r == self.spec_element(),
    ;

    /// Remove the element from the model
    fn remove(self, deep: bool) -> (r: Result<(), AutosarAbstractionError>)
        ensures
            r matches Err(e) ==> e is ModelError || e is InvalidParameter,
    {
        remove_element(self.element())
    }
}

/// The `IdentifiableAbstractionElement` trait is implemented by all classes that represent elements in the AUTOSAR model that have an item name.
pub trait IdentifiableAbstractionElement: AbstractionElement {
    /// Get the item name of the element
    fn name(&self) -> Option<String> {
        item_name(self.element())
    }

    /// Set the item name of the element
    fn set_name(&self, name: &str) -> (r: Result<(), AutosarAbstractionError>)
        ensures
            r matches Err(e) ==> e is ModelError || e is InvalidParameter,
    {
        set_item_name(self.element(), name)
    }
}

/// Check the element name of an element, given by its XML text.
pub fn has_element_name(element: &Element, name: &str) -> (r: bool)
    ensures
        r == (spec_element_name(*element) == name@),
{
    let actual = element_name(element);
    text_equals(&actual, name)
}

/// Remove an element from its parent.
///
/// The root element of a model has no parent and cannot be removed.
pub fn remove_element(element: &Element) -> (r: Result<(), AutosarAbstractionError>)
    ensures
        r matches Err(e) ==> e is ModelError || e is InvalidParameter,
{
    match parent(element)? {
        Some(p) => remove_sub_element(&p, element.clone()),
        None => Err(AutosarAbstractionError::InvalidParameter("the root element cannot be removed".to_owned())),
    }
}

/// Check if any element of the model refers to the given element.
pub fn is_used(element: &Element) -> bool {
    let model = match element_model(element) {
        Ok(model) => model,
        Err(_) => return false,
    };
    let path = match element_path(element) {
        Ok(path) => path,
        Err(_) => return false,
    };
    let referrers = references_to(&model, &path);
    let mut found = false;
    for i in 0..referrers.len() {
        if referrers[i].is_some() {
            found = true;
        }
    }
    found
}

/// For each element that refers to the given element, get the pair of its named parent and its parent.
pub fn get_reference_parents(element: &Element) -> (r: Result<Vec<(Element, Element)>, AutosarAbstractionError>)
    ensures
        r matches Err(e) ==> e is ModelError,
{
    let model = element_model(element)?;
    let path = element_path(element)?;
    let referrers = references_to(&model, &path);
    let mut result: Vec<(Element, Element)> = Vec::new();
    for i in 0..referrers.len() {
        if let Some(referrer) = &referrers[i] {
            if let (Some(named), Some(p)) = (named_parent(referrer)?, parent(referrer)?) {
                result.push((named, p));
            }
        }
    }
    Ok(result)
}

//#########################################################

/// The candidate names that [`make_unique_name`] tries: the initial name, then the initial name with a counter.
pub open spec fn is_unique_name_candidate(name: Seq<char>, initial_name: Seq<char>) -> bool {
    ||| name == initial_name
    ||| exists|k: nat| 1 <= k && #[trigger] spec_decimal(k) == name.skip(initial_name.len() + 1int)
            && name == initial_name + "_"@ + spec_decimal(k)
}

/// Find a name below `base_path` that is not yet used in the model.
///
/// The result is `initial_name` or `initial_name` followed by `_` and a counter.
pub fn make_unique_name(model: &AutosarModel, base_path: &str, initial_name: &str) -> (r: String)
    ensures
        is_unique_name_candidate(r@, initial_name@),
{
    let prefix = join_text(base_path, "/");
    let mut full_path = join_text(&prefix, initial_name);
    let mut name = initial_name.to_owned();
    let mut counter: u64 = 0;
    let name_prefix = join_text(initial_name, "_");
    while get_element_by_path(model, &full_path).is_some() && counter < u64::MAX
        invariant
            is_unique_name_candidate(name@, initial_name@),
            name_prefix@ == initial_name@ + "_"@,
        decreases u64::MAX - counter,
    {
        counter = counter + 1;
        let counter_text = decimal_text(counter);
        name = join_text(&name_prefix, &counter_text);
        full_path = join_text(&prefix, &name);
        proof {
            reveal_strlit("_");
            assert(name@ == name_prefix@ + counter_text@);
            assert(name_prefix@.len() == initial_name@.len() + 1);
            assert(name@.skip(initial_name@.len() + 1int) =~= spec_decimal(counter as nat));
        }
    }
    name
}

//#########################################################

/// The `ByteOrder` is used to define the order of bytes in a multi-byte value
#[derive(Debug, Clone, Copy, PartialEq, Eq)]
pub enum ByteOrder {
    /// Most significant byte at the lowest address = big endian
    MostSignificantByteFirst,
    /// Most significant byte at the highest address = little endian
    MostSignificantByteLast,
    /// The byte order is not defined / not relevant
    Opaque,
}

impl ByteOrder {
    /// the XML text of the enum item that represents the byte order in the model
    pub open spec fn spec_item_text(self) -> Seq<char> {
        match self {
            ByteOrder::MostSignificantByteFirst => "MOST-SIGNIFICANT-BYTE-FIRST"@,
            ByteOrder::MostSignificantByteLast => "MOST-SIGNIFICANT-BYTE-LAST"@,
            ByteOrder::Opaque => "OPAQUE"@,
        }
    }

    /// the byte order represented by an enum item text, if there is one
    pub open spec fn spec_from_item_text(text: Seq<char>) -> Option<Self> {
        if text == "MOST-SIGNIFICANT-BYTE-FIRST"@ {
            Some(ByteOrder::MostSignificantByteFirst)
        } else if text == "MOST-SIGNIFICANT-BYTE-LAST"@ {
            Some(ByteOrder::MostSignificantByteLast)
        } else if text == "OPAQUE"@ {
            Some(ByteOrder::Opaque)
        } else {
            None
        }
    }

    /// the XML text of the enum item that represents the byte order in the model
    pub fn item_text(&self) -> (r: &'static str)
        ensures
            r@ == self.spec_item_text(),
    {
        match self {
            ByteOrder::MostSignificantByteFirst => "MOST-SIGNIFICANT-BYTE-FIRST",
            ByteOrder::MostSignificantByteLast => "MOST-SIGNIFICANT-BYTE-LAST",
            ByteOrder::Opaque => "OPAQUE",
        }
    }

    /// get the byte order from the XML text of an enum item
    pub fn from_item_text(text: &str) -> (r: Result<Self, AutosarAbstractionError>)
        ensures
            match Self::spec_from_item_text(text@) {
                Some(b) => r == Ok::<Self, AutosarAbstractionError>(b),
                None => r matches Err(e) && is_value_conversion_error(e, text@, "ByteOrder"@),
            },
    {
        if text_equals(text, "MOST-SIGNIFICANT-BYTE-FIRST") {
            Ok(ByteOrder::MostSignificantByteFirst)
        } else if text_equals(text, "MOST-SIGNIFICANT-BYTE-LAST") {
            Ok(ByteOrder::MostSignificantByteLast)
        } else if text_equals(text, "OPAQUE") {
            Ok(ByteOrder::Opaque)
        } else {
            Err(AutosarAbstractionError::ValueConversionError { value: text.to_owned(), dest: "ByteOrder".to_owned() })
        }
    }
}

impl TryFrom<EnumItem> for ByteOrder {
    type Error = AutosarAbstractionError;

    fn try_from(value: EnumItem) -> (r: Result<Self, Self::Error>)
        ensures
            match Self::spec_from_item_text(spec_enum_item_text(value)) {
                Some(b) => r == Ok::<Self, AutosarAbstractionError>(b),
                None => r matches Err(e) && is_value_conversion_error(e, spec_enum_item_text(value), "ByteOrder"@),
            },
    {
        let text = enum_item_to_text(value);
        ByteOrder::from_item_text(&text)
    }
}

impl TryFromSpecImpl<EnumItem> for ByteOrder {
    open spec fn obeys_try_from_spec() -> bool {
        false
    }

    open spec fn try_from_spec(v: EnumItem) -> Result<Self, AutosarAbstractionError> {
        arbitrary()
    }
}

impl From<ByteOrder> for EnumItem {
    fn from(value: ByteOrder) -> (r: EnumItem)
        ensures
            spec_enum_item_text(r) == value.spec_item_text(),
    {
        byte_order_item(value)
    }
}

impl FromSpecImpl<ByteOrder> for EnumItem {
    open spec fn obeys_from_spec() -> bool {
        false
    }

    open spec fn from_spec(v: ByteOrder) -> EnumItem {
        arbitrary()
    }
}

/// The enum item of a byte order gives back the byte order.
pub proof fn lemma_byte_order_item_roundtrip(b: ByteOrder)
    ensures
        ByteOrder::spec_from_item_text(b.spec_item_text()) == Some(b),
{
    reveal_strlit("MOST-SIGNIFICANT-BYTE-FIRST");
    reveal_strlit("MOST-SIGNIFICANT-BYTE-LAST");
    reveal_strlit("OPAQUE");
    let t = b.spec_item_text();
    assert(t.len() != 27 ==> t != "MOST-SIGNIFICANT-BYTE-FIRST"@);
    assert(t[22] != 'F' ==> t != "MOST-SIGNIFICANT-BYTE-FIRST"@);
    assert(t.len() != 6 ==> t != "OPAQUE"@);
}

} // verus!
