//! The configuration of the CAN transport protocol: ECUs, addresses, channels, connections and
//! nodes of a `CanTpConfig`.
//!
//! The cycle time of the main function of a `CanTpEcu` is a floating point value; it is read
//! and written outside this library.

use vstd::prelude::*;
use crate::elements::is_model_or_name_error;
use autosar_data::Element;
use vstd::std_specs::convert::{FromSpecImpl, TryFromSpecImpl};
use crate::{
    AbstractionElement, ArPackage, AutosarAbstractionError, EcuInstance, IdentifiableAbstractionElement,
    has_element_name, is_conversion_error,
};
use crate::accessors::{
    add_list_reference, list_elements, list_reference_targets, set_bool_value, set_sub_element_target, set_u32_value,
    sub_element_bool, sub_element_enum_text, sub_element_target, sub_element_u32,
};
use crate::communication::{
    CanCluster, CanCommunicationConnector, CanTpAddressingFormat, CanTpChannelMode, IPdu, NPdu, is_ipdu_element_name,
};
use crate::elements::{
    create_named_sub_element, create_sub_element, get_or_create_sub_element, get_sub_element, item_name,
    set_character_data_enum, set_item_name, spec_element_name,
};

verus! {

/// Container for `CanTp` configuration
///
/// There should be one `CanTpConfig` for each CAN network in the system
#[derive(Debug, Clone, PartialEq, Eq, Hash)]
pub struct CanTpConfig(Element);

impl AbstractionElement for CanTpConfig {
    closed spec fn spec_element(&self) -> Element {
        self.0
    }

    fn element(&self) -> (r: &Element) {
        proof {
            assert(self.spec_element() == self.0);
        }
        &self.0
    }
}

impl CanTpConfig {
    /// wrap an element of the model whose element name is `CAN-TP-CONFIG`
    pub fn from_element(element: Element) -> (r: Result<Self, AutosarAbstractionError>)
        ensures
            r is Ok <==> spec_element_name(element) == "CAN-TP-CONFIG"@,
            r matches Ok(x) ==> x.spec_element() == element,
            r matches Err(e) ==> is_conversion_error(e, element, "CanTpConfig"@),
    {
        if has_element_name(&element, "CAN-TP-CONFIG") {
            Ok(CanTpConfig(element))
        } else {
            Err(AutosarAbstractionError::ConversionError { element, dest: "CanTpConfig".to_owned() })
        }
    }
}

impl TryFrom<Element> for CanTpConfig {
    type Error = AutosarAbstractionError;

    fn try_from(element: Element) -> (r: Result<Self, Self::Error>)
        ensures
            r is Ok <==> spec_element_name(element) == "CAN-TP-CONFIG"@,
            r matches Ok(x) ==> x.spec_element() == element,
            r matches Err(e) ==> is_conversion_error(e, element, "CanTpConfig"@),
    {
        CanTpConfig::from_element(element)
    }
}

impl TryFromSpecImpl<Element> for CanTpConfig {
    open spec fn obeys_try_from_spec() -> bool {
        false
    }

    open spec fn try_from_spec(v: Element) -> Result<Self, AutosarAbstractionError> {
        arbitrary()
    }
}

impl From<CanTpConfig> for Element {
    fn from(value: CanTpConfig) -> (r: Element)
        ensures
            r == value.spec_element(),
    {
        value.0
    }
}

impl FromSpecImpl<CanTpConfig> for Element {
    open spec fn obeys_from_spec() -> bool {
        false
    }

    open spec fn from_spec(v: CanTpConfig) -> Element {
        arbitrary()
    }
}

impl IdentifiableAbstractionElement for CanTpConfig {}

impl CanTpConfig {
    /// create a new `CanTpConfig` in the package, for the given cluster
    pub(crate) fn new(name: &str, package: &ArPackage, cluster: &CanCluster) -> (r: Result<Self, AutosarAbstractionError>)
        ensures
            r matches Ok(x) ==> spec_element_name(x.spec_element()) == "CAN-TP-CONFIG"@,
            r matches Err(e) ==> e is ModelError || e is InvalidParameter,
    {
        let elements = get_or_create_sub_element(package.element(), "ELEMENTS")?;
        let elem = create_named_sub_element(&elements, "CAN-TP-CONFIG", name)?;
        let tp_config = Self(elem);
        tp_config.set_cluster(cluster)?;
        Ok(tp_config)
    }

    /// set the `CanCluster` associated with this configuration
    pub fn set_cluster(&self, cluster: &CanCluster) -> (r: Result<(), AutosarAbstractionError>)
        ensures
            r matches Err(e) ==> is_model_or_name_error(e, "COMMUNICATION-CLUSTER-REF"@),
    {
        set_sub_element_target(self.element(), "COMMUNICATION-CLUSTER-REF", cluster.element())
    }

    /// get the `CanCluster` associated with this configuration
    pub fn cluster(&self) -> (r: Option<CanCluster>)
        ensures
            r matches Some(x) ==> spec_element_name(x.spec_element()) == "CAN-CLUSTER"@,
    {
        match CanCluster::from_element(sub_element_target(self.element(), "COMMUNICATION-CLUSTER-REF")?) {
            Ok(item) => Some(item),
            Err(_) => None,
        }
    }

    /// create a `CanTp` ECU in the configuration
    pub fn create_can_tp_ecu(&self, ecu_instance: &EcuInstance) -> (r: Result<CanTpEcu, AutosarAbstractionError>)
        ensures
            r matches Ok(x) ==> spec_element_name(x.spec_element()) == "CAN-TP-ECU"@,
            r matches Err(e) ==> e is ModelError || e is InvalidParameter,
    {
        let ecu_collection = get_or_create_sub_element(self.element(), "TP-ECUS")?;
        CanTpEcu::new(&ecu_collection, ecu_instance)
    }

    /// get all of the ECUs in the configuration
    pub fn can_tp_ecus(&self) -> (r: Vec<CanTpEcu>)
        ensures
            forall|i: int| 0 <= i < r.len() ==> spec_element_name(#[trigger] r@[i].spec_element()) == "CAN-TP-ECU"@,
    {
        let subs = list_elements(self.element(), "TP-ECUS");
        let mut result: Vec<CanTpEcu> = Vec::new();
        for i in 0..subs.len()
            invariant
                forall|j: int| 0 <= j < result.len() ==> spec_element_name(#[trigger] result@[j].spec_element()) == "CAN-TP-ECU"@,
        {
            if let Ok(item) = CanTpEcu::from_element(subs[i].clone()) {
                result.push(item);
            }
        }
        result
    }

    /// create a new `CanTpAddress` in the configuration
    pub fn create_can_tp_address(&self, name: &str, address: u32) -> (r: Result<CanTpAddress, AutosarAbstractionError>)
        ensures
            r matches Ok(x) ==> spec_element_name(x.spec_element()) == "CAN-TP-ADDRESS"@,
            r matches Err(e) ==> e is ModelError || e is InvalidParameter,
    {
        let addresses_container = get_or_create_sub_element(self.element(), "TP-ADDRESSS")?;
        CanTpAddress::new(name, &addresses_container, address)
    }

    /// get all of the Can Tp addresses in the configuration
    pub fn can_tp_addresses(&self) -> (r: Vec<CanTpAddress>)
        ensures
            forall|i: int| 0 <= i < r.len() ==> spec_element_name(#[trigger] r@[i].spec_element()) == "CAN-TP-ADDRESS"@,
    {
        let subs = list_elements(self.element(), "TP-ADDRESSS");
        let mut result: Vec<CanTpAddress> = Vec::new();
        for i in 0..subs.len()
            invariant
                forall|j: int| 0 <= j < result.len() ==> spec_element_name(#[trigger] result@[j].spec_element()) == "CAN-TP-ADDRESS"@,
        {
            if let Ok(item) = CanTpAddress::from_element(subs[i].clone()) {
                result.push(item);
            }
        }
        result
    }

    /// create a new `CanTpChannel` in the configuration
    pub fn create_can_tp_channel(&self, name: &str, channel_id: u32, mode: CanTpChannelMode) -> (r: Result<
        CanTpChannel,
        AutosarAbstractionError,
    >)
        ensures
            r matches Ok(x) ==> spec_element_name(x.spec_element()) == "CAN-TP-CHANNEL"@,
            r matches Err(e) ==> e is ModelError || e is InvalidParameter,
    {
        let channels_container = get_or_create_sub_element(self.element(), "TP-CHANNELS")?;
        CanTpChannel::new(name, &channels_container, channel_id, mode)
    }

    /// all `CanTpChannel`s in the configuration
    pub fn can_tp_channels(&self) -> (r: Vec<CanTpChannel>)
        ensures
            forall|i: int| 0 <= i < r.len() ==> spec_element_name(#[trigger] r@[i].spec_element()) == "CAN-TP-CHANNEL"@,
    {
        let subs = list_elements(self.element(), "TP-CHANNELS");
        let mut result: Vec<CanTpChannel> = Vec::new();
        for i in 0..subs.len()
            invariant
                forall|j: int| 0 <= j < result.len() ==> spec_element_name(#[trigger] result@[j].spec_element()) == "CAN-TP-CHANNEL"@,
        {
            if let Ok(item) = CanTpChannel::from_element(subs[i].clone()) {
                result.push(item);
            }
        }
        result
    }

    /// create a new `CanTpConnection` in the configuration
    pub fn create_can_tp_connection(
        &self,
        name: Option<&str>,
        addressing_format: CanTpAddressingFormat,
        can_tp_channel: &CanTpChannel,
        data_pdu: &NPdu,
        tp_sdu: &IPdu,
        padding_activation: bool,
    ) -> (r: Result<CanTpConnection, AutosarAbstractionError>)
        ensures
            r matches Ok(x) ==> spec_element_name(x.spec_element()) == "CAN-TP-CONNECTION"@,
            r matches Err(e) ==> e is ModelError || e is InvalidParameter,
    {
        let connections_container = get_or_create_sub_element(self.element(), "TP-CONNECTIONS")?;
        CanTpConnection::new(
            name,
            &connections_container,
            addressing_format,
            can_tp_channel,
            data_pdu,
            tp_sdu,
            padding_activation,
        )
    }

    /// all `CanTpConnection`s in the configuration
    pub fn can_tp_connections(&self) -> (r: Vec<CanTpConnection>)
        ensures
            forall|i: int| 0 <= i < r.len() ==> spec_element_name(#[trigger] r@[i].spec_element()) == "CAN-TP-CONNECTION"@,
    {
        let subs = list_elements(self.element(), "TP-CONNECTIONS");
        let mut result: Vec<CanTpConnection> = Vec::new();
        for i in 0..subs.len()
            invariant
                forall|j: int| 0 <= j < result.len() ==> spec_element_name(#[trigger] result@[j].spec_element()) == "CAN-TP-CONNECTION"@,
        {
            if let Ok(item) = CanTpConnection::from_element(subs[i].clone()) {
                result.push(item);
            }
        }
        result
    }

    /// create a new `CanTpNode` in the configuration
    pub fn create_can_tp_node(&self, name: &str) -> (r: Result<CanTpNode, AutosarAbstractionError>)
        ensures
            r matches Ok(x) ==> spec_element_name(x.spec_element()) == "CAN-TP-NODE"@,
            r matches Err(e) ==> e is ModelError || e is InvalidParameter,
    {
        let nodes_container = get_or_create_sub_element(self.element(), "TP-NODES")?;
        CanTpNode::new(name, &nodes_container)
    }

    /// get all of the `CanTpNode`s in the configuration
    pub fn can_tp_nodes(&self) -> (r: Vec<CanTpNode>)
        ensures
            forall|i: int| 0 <= i < r.len() ==> spec_element_name(#[trigger] r@[i].spec_element()) == "CAN-TP-NODE"@,
    {
        let subs = list_elements(self.element(), "TP-NODES");
        let mut result: Vec<CanTpNode> = Vec::new();
        for i in 0..subs.len()
            invariant
                forall|j: int| 0 <= j < result.len() ==> spec_element_name(#[trigger] result@[j].spec_element()) == "CAN-TP-NODE"@,
        {
            if let Ok(item) = CanTpNode::from_element(subs[i].clone()) {
                result.push(item);
            }
        }
        result
    }
}

//#########################################################

/// A `CanTpEcu` represents an ECU that is using the `CanTp` module
#[derive(Debug, Clone, PartialEq)]
pub struct CanTpEcu(Element);

impl AbstractionElement for CanTpEcu {
    closed spec fn spec_element(&self) -> Element {
        self.0
    }

    fn element(&self) -> (r: &Element) {
        proof {
            assert(self.spec_element() == self.0);
        }
        &self.0
    }
}

impl CanTpEcu {
    /// wrap an element of the model whose element name is `CAN-TP-ECU`
    pub fn from_element(element: Element) -> (r: Result<Self, AutosarAbstractionError>)
        ensures
            r is Ok <==> spec_element_name(element) == "CAN-TP-ECU"@,
            r matches Ok(x) ==> x.spec_element() == element,
            r matches Err(e) ==> is_conversion_error(e, element, "CanTpEcu"@),
    {
        if has_element_name(&element, "CAN-TP-ECU") {
            Ok(CanTpEcu(element))
        } else {
            Err(AutosarAbstractionError::ConversionError { element, dest: "CanTpEcu".to_owned() })
        }
    }
}

impl TryFrom<Element> for CanTpEcu {
    type Error = AutosarAbstractionError;

    fn try_from(element: Element) -> (r: Result<Self, Self::Error>)
        ensures
            r is Ok <==> spec_element_name(element) == "CAN-TP-ECU"@,
            r matches Ok(x) ==> x.spec_element() == element,
            r matches Err(e) ==> is_conversion_error(e, element, "CanTpEcu"@),
    {
        CanTpEcu::from_element(element)
    }
}

impl TryFromSpecImpl<Element> for CanTpEcu {
    open spec fn obeys_try_from_spec() -> bool {
        false
    }

    open spec fn try_from_spec(v: Element) -> Result<Self, AutosarAbstractionError> {
        arbitrary()
    }
}

impl From<CanTpEcu> for Element {
    fn from(value: CanTpEcu) -> (r: Element)
        ensures
            r == value.spec_element(),
    {
        value.0
    }
}

impl FromSpecImpl<CanTpEcu> for Element {
    open spec fn obeys_from_spec() -> bool {
        false
    }

    open spec fn from_spec(v: CanTpEcu) -> Element {
        arbitrary()
    }
}

impl CanTpEcu {
    /// create a new `CanTpEcu` below `parent`, for the given ECU instance
    pub(crate) fn new(parent: &Element, ecu_instance: &EcuInstance) -> (r: Result<Self, AutosarAbstractionError>)
        ensures
            r matches Ok(x) ==> spec_element_name(x.spec_element()) == "CAN-TP-ECU"@,
            r matches Err(e) ==> e is ModelError || e is InvalidParameter,
    {
        let elem = create_sub_element(parent, "CAN-TP-ECU")?;
        let tp_ecu = Self(elem);
        tp_ecu.set_ecu_instance(ecu_instance)?;
        Ok(tp_ecu)
    }

    /// set the ECU instance of the `CanTpEcu`
    pub fn set_ecu_instance(&self, ecu_instance: &EcuInstance) -> (r: Result<(), AutosarAbstractionError>)
        ensures
            r matches Err(e) ==> is_model_or_name_error(e, "ECU-INSTANCE-REF"@),
    {
        set_sub_element_target(self.element(), "ECU-INSTANCE-REF", ecu_instance.element())
    }

    /// get the ECU instance of the `CanTpEcu`
    pub fn ecu_instance(&self) -> (r: Option<EcuInstance>)
        ensures
            r matches Some(x) ==> spec_element_name(x.spec_element()) == "ECU-INSTANCE"@,
    {
        match EcuInstance::from_element(sub_element_target(self.element(), "ECU-INSTANCE-REF")?) {
            Ok(item) => Some(item),
            Err(_) => None,
        }
    }
}

//#########################################################

/// A `CanTpAddress` represents a logical address in the `CanTp` module
#[derive(Debug, Clone, PartialEq, Eq, Hash)]
pub struct CanTpAddress(Element);

impl AbstractionElement for CanTpAddress {
    closed spec fn spec_element(&self) -> Element {
        self.0
    }

    fn element(&self) -> (r: &Element) {
        proof {
            assert(self.spec_element() == self.0);
        }
        &self.0
    }
}

impl CanTpAddress {
    /// wrap an element of the model whose element name is `CAN-TP-ADDRESS`
    pub fn from_element(element: Element) -> (r: Result<Self, AutosarAbstractionError>)
        ensures
            r is Ok <==> spec_element_name(element) == "CAN-TP-ADDRESS"@,
            r matches Ok(x) ==> x.spec_element() == element,
            r matches Err(e) ==> is_conversion_error(e, element, "CanTpAddress"@),
    {
        if has_element_name(&element, "CAN-TP-ADDRESS") {
            Ok(CanTpAddress(element))
        } else {
            Err(AutosarAbstractionError::ConversionError { element, dest: "CanTpAddress".to_owned() })
        }
    }
}

impl TryFrom<Element> for CanTpAddress {
    type Error = AutosarAbstractionError;

    fn try_from(element: Element) -> (r: Result<Self, Self::Error>)
        ensures
            r is Ok <==> spec_element_name(element) == "CAN-TP-ADDRESS"@,
            r matches Ok(x) ==> x.spec_element() == element,
            r matches Err(e) ==> is_conversion_error(e, element, "CanTpAddress"@),
    {
        CanTpAddress::from_element(element)
    }
}

impl TryFromSpecImpl<Element> for CanTpAddress {
    open spec fn obeys_try_from_spec() -> bool {
        false
    }

    open spec fn try_from_spec(v: Element) -> Result<Self, AutosarAbstractionError> {
        arbitrary()
    }
}

impl From<CanTpAddress> for Element {
    fn from(value: CanTpAddress) -> (r: Element)
        ensures
            r == value.spec_element(),
    {
        value.0
    }
}

impl FromSpecImpl<CanTpAddress> for Element {
    open spec fn obeys_from_spec() -> bool {
        false
    }

    open spec fn from_spec(v: CanTpAddress) -> Element {
        arbitrary()
    }
}

impl IdentifiableAbstractionElement for CanTpAddress {}

impl CanTpAddress {
    /// create a new `CanTpAddress` below `parent`
    pub(crate) fn new(name: &str, parent: &Element, tp_address: u32) -> (r: Result<Self, AutosarAbstractionError>)
        ensures
            r matches Ok(x) ==> spec_element_name(x.spec_element()) == "CAN-TP-ADDRESS"@,
            r matches Err(e) ==> e is ModelError || e is InvalidParameter,
    {
        let elem = create_named_sub_element(parent, "CAN-TP-ADDRESS", name)?;
        let address = Self(elem);
        address.set_tp_address(tp_address)?;
        Ok(address)
    }

    /// set the address value of the `CanTpAddress`
    pub fn set_tp_address(&self, tp_address: u32) -> (r: Result<(), AutosarAbstractionError>)
        ensures
            r matches Err(e) ==> is_model_or_name_error(e, "TP-ADDRESS"@),
    {
        set_u32_value(self.element(), "TP-ADDRESS", tp_address)
    }

    /// get the address value of the `CanTpAddress`
    pub fn tp_address(&self) -> Option<u32> {
        sub_element_u32(self.element(), "TP-ADDRESS")
    }
}

//#########################################################

/// A `CanTpChannel` represents a channel in the `CanTp` module
#[derive(Debug, Clone, PartialEq, Eq, Hash)]
pub struct CanTpChannel(Element);

impl AbstractionElement for CanTpChannel {
    closed spec fn spec_element(&self) -> Element {
        self.0
    }

    fn element(&self) -> (r: &Element) {
        proof {
            assert(self.spec_element() == self.0);
        }
        &self.0
    }
}

impl CanTpChannel {
    /// wrap an element of the model whose element name is `CAN-TP-CHANNEL`
    pub fn from_element(element: Element) -> (r: Result<Self, AutosarAbstractionError>)
        ensures
            r is Ok <==> spec_element_name(element) == "CAN-TP-CHANNEL"@,
            r matches Ok(x) ==> x.spec_element() == element,
            r matches Err(e) ==> is_conversion_error(e, element, "CanTpChannel"@),
    {
        if has_element_name(&element, "CAN-TP-CHANNEL") {
            Ok(CanTpChannel(element))
        } else {
            Err(AutosarAbstractionError::ConversionError { element, dest: "CanTpChannel".to_owned() })
        }
    }
}

impl TryFrom<Element> for CanTpChannel {
    type Error = AutosarAbstractionError;

    fn try_from(element: Element) -> (r: Result<Self, Self::Error>)
        ensures
            r is Ok <==> spec_element_name(element) == "CAN-TP-CHANNEL"@,
            r matches Ok(x) ==> x.spec_element() == element,
            r matches Err(e) ==> is_conversion_error(e, element, "CanTpChannel"@),
    {
        CanTpChannel::from_element(element)
    }
}

impl TryFromSpecImpl<Element> for CanTpChannel {
    open spec fn obeys_try_from_spec() -> bool {
        false
    }

    open spec fn try_from_spec(v: Element) -> Result<Self, AutosarAbstractionError> {
        arbitrary()
    }
}

impl From<CanTpChannel> for Element {
    fn from(value: CanTpChannel) -> (r: Element)
        ensures
            r == value.spec_element(),
    {
        value.0
    }
}

impl FromSpecImpl<CanTpChannel> for Element {
    open spec fn obeys_from_spec() -> bool {
        false
    }

    open spec fn from_spec(v: CanTpChannel) -> Element {
        arbitrary()
    }
}

impl IdentifiableAbstractionElement for CanTpChannel {}

impl CanTpChannel {
    /// create a new `CanTpChannel` below `parent`
    pub(crate) fn new(name: &str, parent: &Element, channel_id: u32, mode: CanTpChannelMode) -> (r: Result<
        Self,
        AutosarAbstractionError,
    >)
        ensures
            r matches Ok(x) ==> spec_element_name(x.spec_element()) == "CAN-TP-CHANNEL"@,
            r matches Err(e) ==> e is ModelError || e is InvalidParameter,
    {
        let elem = create_named_sub_element(parent, "CAN-TP-CHANNEL", name)?;
        let channel = Self(elem);
        channel.set_channel_id(channel_id)?;
        channel.set_channel_mode(mode)?;
        Ok(channel)
    }

    /// set the channel id of the channel
    pub fn set_channel_id(&self, channel_id: u32) -> (r: Result<(), AutosarAbstractionError>)
        ensures
            r matches Err(e) ==> is_model_or_name_error(e, "CHANNEL-ID"@),
    {
        set_u32_value(self.element(), "CHANNEL-ID", channel_id)
    }

    /// get the channel id of the channel
    pub fn channel_id(&self) -> Option<u32> {
        sub_element_u32(self.element(), "CHANNEL-ID")
    }

    /// set the channel mode of the channel
    pub fn set_channel_mode(&self, mode: CanTpChannelMode) -> (r: Result<(), AutosarAbstractionError>)
        ensures
            r matches Err(e) ==> is_model_or_name_error(e, "CHANNEL-MODE"@) || is_model_or_name_error(e, mode.spec_item_text()),
    {
        let value_elem = get_or_create_sub_element(self.element(), "CHANNEL-MODE")?;
        set_character_data_enum(&value_elem, mode.item_text())
    }

    /// get the channel mode of the channel
    pub fn channel_mode(&self) -> Option<CanTpChannelMode> {
        let text = sub_element_enum_text(self.element(), "CHANNEL-MODE")?;
        match CanTpChannelMode::from_item_text(&text) {
            Ok(value) => Some(value),
            Err(_) => None,
        }
    }
}

//#########################################################

/// A connection identifies the sender and the receiver of this particular communication.
/// The `CanTp` module routes a Pdu through this connection.
#[derive(Debug, Clone, PartialEq, Eq, Hash)]
pub struct CanTpConnection(Element);

impl AbstractionElement for CanTpConnection {
    closed spec fn spec_element(&self) -> Element {
        self.0
    }

    fn element(&self) -> (r: &Element) {
        proof {
            assert(self.spec_element() == self.0);
        }
        &self.0
    }
}

impl CanTpConnection {
    /// wrap an element of the model whose element name is `CAN-TP-CONNECTION`
    pub fn from_element(element: Element) -> (r: Result<Self, AutosarAbstractionError>)
        ensures
            r is Ok <==> spec_element_name(element) == "CAN-TP-CONNECTION"@,
            r matches Ok(x) ==> x.spec_element() == element,
            r matches Err(e) ==> is_conversion_error(e, element, "CanTpConnection"@),
    {
        if has_element_name(&element, "CAN-TP-CONNECTION") {
            Ok(CanTpConnection(element))
        } else {
            Err(AutosarAbstractionError::ConversionError { element, dest: "CanTpConnection".to_owned() })
        }
    }
}

impl TryFrom<Element> for CanTpConnection {
    type Error = AutosarAbstractionError;

    fn try_from(element: Element) -> (r: Result<Self, Self::Error>)
        ensures
            r is Ok <==> spec_element_name(element) == "CAN-TP-CONNECTION"@,
            r matches Ok(x) ==> x.spec_element() == element,
            r matches Err(e) ==> is_conversion_error(e, element, "CanTpConnection"@),
    {
        CanTpConnection::from_element(element)
    }
}

impl TryFromSpecImpl<Element> for CanTpConnection {
    open spec fn obeys_try_from_spec() -> bool {
        false
    }

    open spec fn try_from_spec(v: Element) -> Result<Self, AutosarAbstractionError> {
        arbitrary()
    }
}

impl From<CanTpConnection> for Element {
    fn from(value: CanTpConnection) -> (r: Element)
        ensures
            r == value.spec_element(),
    {
        value.0
    }
}

impl FromSpecImpl<CanTpConnection> for Element {
    open spec fn obeys_from_spec() -> bool {
        false
    }

    open spec fn from_spec(v: CanTpConnection) -> Element {
        arbitrary()
    }
}

impl IdentifiableAbstractionElement for CanTpConnection {
    /// get the name of the connection
    ///
    /// In early versions of the Autosar standard, `CanTpConnection` was not identifiable.
    /// This was fixed later by adding the Ident sub-element. This method returns the name
    /// provided in the Ident element, if it exists.
    fn name(&self) -> Option<String> {
        match get_sub_element(self.element(), "IDENT") {
            Some(ident) => item_name(&ident),
            None => None,
        }
    }

    /// set the name of the connection: rename an existing Ident element or create a new one
    fn set_name(&self, name: &str) -> (r: Result<(), AutosarAbstractionError>) {
        match get_sub_element(self.element(), "IDENT") {
            Some(ident) => set_item_name(&ident, name),
            None => {
                create_named_sub_element(self.element(), "IDENT", name)?;
                Ok(())
            },
        }
    }
}

impl CanTpConnection {
    /// create a new `CanTpConnection` below `parent`
    pub(crate) fn new(
        name: Option<&str>,
        parent: &Element,
        addressing_format: CanTpAddressingFormat,
        can_tp_channel: &CanTpChannel,
        data_pdu: &NPdu,
        tp_sdu: &IPdu,
        padding_activation: bool,
    ) -> (r: Result<Self, AutosarAbstractionError>)
        ensures
            r matches Ok(x) ==> spec_element_name(x.spec_element()) == "CAN-TP-CONNECTION"@,
            r matches Err(e) ==> e is ModelError || e is InvalidParameter,
    {
        let elem = create_sub_element(parent, "CAN-TP-CONNECTION")?;
        let connection = Self(elem);
        if let Some(name) = name {
            connection.set_name(name)?;
        }
        connection.set_addressing_format(addressing_format)?;
        connection.set_channel(can_tp_channel)?;
        connection.set_data_pdu(data_pdu)?;
        connection.set_tp_sdu(tp_sdu)?;
        connection.set_padding_activation(padding_activation)?;
        Ok(connection)
    }

    /// set the `CanTpChannel` associated with this connection
    pub fn set_channel(&self, channel: &CanTpChannel) -> (r: Result<(), AutosarAbstractionError>)
        ensures
            r matches Err(e) ==> is_model_or_name_error(e, "CAN-TP-CHANNEL-REF"@),
    {
        set_sub_element_target(self.element(), "CAN-TP-CHANNEL-REF", channel.element())
    }

    /// get the `CanTpChannel` associated with this connection
    pub fn channel(&self) -> (r: Option<CanTpChannel>)
        ensures
            r matches Some(x) ==> spec_element_name(x.spec_element()) == "CAN-TP-CHANNEL"@,
    {
        match CanTpChannel::from_element(sub_element_target(self.element(), "CAN-TP-CHANNEL-REF")?) {
            Ok(item) => Some(item),
            Err(_) => None,
        }
    }

    /// set the `NPdu` associated with this connection
    pub fn set_data_pdu(&self, data_pdu: &NPdu) -> (r: Result<(), AutosarAbstractionError>)
        ensures
            r matches Err(e) ==> is_model_or_name_error(e, "DATA-PDU-REF"@),
    {
        set_sub_element_target(self.element(), "DATA-PDU-REF", data_pdu.element())
    }

    /// get the `NPdu` associated with this connection
    ///
    /// This is the Pdu that is sent over the CAN network
    pub fn data_pdu(&self) -> (r: Option<NPdu>)
        ensures
            r matches Some(x) ==> spec_element_name(x.spec_element()) == "N-PDU"@,
    {
        match NPdu::from_element(sub_element_target(self.element(), "DATA-PDU-REF")?) {
            Ok(item) => Some(item),
            Err(_) => None,
        }
    }

    /// set the `IPdu` associated with this connection
    pub fn set_tp_sdu(&self, tp_sdu: &IPdu) -> (r: Result<(), AutosarAbstractionError>)
        ensures
            r matches Err(e) ==> is_model_or_name_error(e, "TP-SDU-REF"@),
    {
        set_sub_element_target(self.element(), "TP-SDU-REF", tp_sdu.element())
    }

    /// get the `IPdu` associated with this connection
    ///
    /// This is the Pdu that is sent over the transport protocol
    pub fn tp_sdu(&self) -> (r: Option<IPdu>)
        ensures
            r matches Some(x) ==> is_ipdu_element_name(spec_element_name(x.spec_element())),
    {
        match IPdu::from_element(sub_element_target(self.element(), "TP-SDU-REF")?) {
            Ok(item) => Some(item),
            Err(_) => None,
        }
    }

    /// set the addressing format of the connection
    pub fn set_addressing_format(&self, addressing_format: CanTpAddressingFormat) -> (r: Result<(), AutosarAbstractionError>)
        ensures
            r matches Err(e) ==> is_model_or_name_error(e, "ADDRESSING-FORMAT"@) || is_model_or_name_error(e, addressing_format.spec_item_text()),
    {
        let value_elem = get_or_create_sub_element(self.element(), "ADDRESSING-FORMAT")?;
        set_character_data_enum(&value_elem, addressing_format.item_text())
    }

    /// get the addressing format of the connection
    pub fn addressing_format(&self) -> Option<CanTpAddressingFormat> {
        let text = sub_element_enum_text(self.element(), "ADDRESSING-FORMAT")?;
        match CanTpAddressingFormat::from_item_text(&text) {
            Ok(value) => Some(value),
            Err(_) => None,
        }
    }

    /// set the padding activation of the connection
    pub fn set_padding_activation(&self, padding_activation: bool) -> (r: Result<(), AutosarAbstractionError>)
        ensures
            r matches Err(e) ==> is_model_or_name_error(e, "PADDING-ACTIVATION"@),
    {
        set_bool_value(self.element(), "PADDING-ACTIVATION", padding_activation)
    }

    /// get the padding activation of the connection
    pub fn padding_activation(&self) -> Option<bool> {
        sub_element_bool(self.element(), "PADDING-ACTIVATION")
    }

    /// set the transmitter of the connection
    ///
    /// This is a `CanTpNode` representing an ECU that will send the data
    pub fn set_transmitter(&self, transmitter: &CanTpNode) -> (r: Result<(), AutosarAbstractionError>)
        ensures
            r matches Err(e) ==> is_model_or_name_error(e, "TRANSMITTER-REF"@),
    {
        set_sub_element_target(self.element(), "TRANSMITTER-REF", transmitter.element())
    }

    /// get the transmitter of the connection
    pub fn transmitter(&self) -> (r: Option<CanTpNode>)
        ensures
            r matches Some(x) ==> spec_element_name(x.spec_element()) == "CAN-TP-NODE"@,
    {
        match CanTpNode::from_element(sub_element_target(self.element(), "TRANSMITTER-REF")?) {
            Ok(item) => Some(item),
            Err(_) => None,
        }
    }

    /// add a receiver to the connection
    ///
    /// This is a `CanTpNode` representing an ECU that will receive the data
    pub fn add_receiver(&self, receiver: &CanTpNode) -> (r: Result<(), AutosarAbstractionError>)
        ensures
            r matches Err(e) ==> e is ModelError || e is InvalidParameter,
    {
        add_list_reference(self.element(), "RECEIVER-REFS", "RECEIVER-REF", receiver.element())
    }

    /// get all of the receivers of the connection
    pub fn receivers(&self) -> (r: Vec<CanTpNode>)
        ensures
            forall|i: int| 0 <= i < r.len() ==> spec_element_name(#[trigger] r@[i].spec_element()) == "CAN-TP-NODE"@,
    {
        let targets = list_reference_targets(self.element(), "RECEIVER-REFS");
        let mut result: Vec<CanTpNode> = Vec::new();
        for i in 0..targets.len()
            invariant
                forall|j: int| 0 <= j < result.len() ==> spec_element_name(#[trigger] result@[j].spec_element()) == "CAN-TP-NODE"@,
        {
            if let Ok(item) = CanTpNode::from_element(targets[i].clone()) {
                result.push(item);
            }
        }
        result
    }
}

//#########################################################

/// A `CanTpNode` provides the TP address and the connection to the topology description in a `CanTpConfig`
#[derive(Debug, Clone, PartialEq, Eq, Hash)]
pub struct CanTpNode(Element);

impl AbstractionElement for CanTpNode {
    closed spec fn spec_element(&self) -> Element {
        self.0
    }

    fn element(&self) -> (r: &Element) {
        proof {
            assert(self.spec_element() == self.0);
        }
        &self.0
    }
}

impl CanTpNode {
    /// wrap an element of the model whose element name is `CAN-TP-NODE`
    pub fn from_element(element: Element) -> (r: Result<Self, AutosarAbstractionError>)
        ensures
            r is Ok <==> spec_element_name(element) == "CAN-TP-NODE"@,
            r matches Ok(x) ==> x.spec_element() == element,
            r matches Err(e) ==> is_conversion_error(e, element, "CanTpNode"@),
    {
        if has_element_name(&element, "CAN-TP-NODE") {
            Ok(CanTpNode(element))
        } else {
            Err(AutosarAbstractionError::ConversionError { element, dest: "CanTpNode".to_owned() })
        }
    }
}

impl TryFrom<Element> for CanTpNode {
    type Error = AutosarAbstractionError;

    fn try_from(element: Element) -> (r: Result<Self, Self::Error>)
        ensures
            r is Ok <==> spec_element_name(element) == "CAN-TP-NODE"@,
            r matches Ok(x) ==> x.spec_element() == element,
            r matches Err(e) ==> is_conversion_error(e, element, "CanTpNode"@),
    {
        CanTpNode::from_element(element)
    }
}

impl TryFromSpecImpl<Element> for CanTpNode {
    open spec fn obeys_try_from_spec() -> bool {
        false
    }

    open spec fn try_from_spec(v: Element) -> Result<Self, AutosarAbstractionError> {
        arbitrary()
    }
}

impl From<CanTpNode> for Element {
    fn from(value: CanTpNode) -> (r: Element)
        ensures
            r == value.spec_element(),
    {
        value.0
    }
}

impl FromSpecImpl<CanTpNode> for Element {
    open spec fn obeys_from_spec() -> bool {
        false
    }

    open spec fn from_spec(v: CanTpNode) -> Element {
        arbitrary()
    }
}

impl IdentifiableAbstractionElement for CanTpNode {}

impl CanTpNode {
    /// create a new `CanTpNode` below `parent`
    pub(crate) fn new(name: &str, parent: &Element) -> (r: Result<Self, AutosarAbstractionError>)
        ensures
            r matches Ok(x) ==> spec_element_name(x.spec_element()) == "CAN-TP-NODE"@,
            r matches Err(e) ==> e is ModelError || e is InvalidParameter,
    {
        let elem = create_named_sub_element(parent, "CAN-TP-NODE", name)?;
        Ok(Self(elem))
    }

    /// set the `CanTpAddress` of this Node
    pub fn set_address(&self, address: &CanTpAddress) -> (r: Result<(), AutosarAbstractionError>)
        ensures
            r matches Err(e) ==> is_model_or_name_error(e, "TP-ADDRESS-REF"@),
    {
        set_sub_element_target(self.element(), "TP-ADDRESS-REF", address.element())
    }

    /// get the `CanTpAddress` of this Node
    pub fn address(&self) -> (r: Option<CanTpAddress>)
        ensures
            r matches Some(x) ==> spec_element_name(x.spec_element()) == "CAN-TP-ADDRESS"@,
    {
        match CanTpAddress::from_element(sub_element_target(self.element(), "TP-ADDRESS-REF")?) {
            Ok(item) => Some(item),
            Err(_) => None,
        }
    }

    /// set the reference to a `CanCommunicationConnector` of an ECU and a `CanPhysicalChannel`
    ///
    /// The connector connects the ECU to the physical channel, so by setting this reference, the
    /// ECU is also connected to the `CanTpNode`
    pub fn set_connector(&self, connector: &CanCommunicationConnector) -> (r: Result<(), AutosarAbstractionError>)
        ensures
            r matches Err(e) ==> is_model_or_name_error(e, "CONNECTOR-REF"@),
    {
        set_sub_element_target(self.element(), "CONNECTOR-REF", connector.element())
    }

    /// get the `CanCommunicationConnector` of this Node
    pub fn connector(&self) -> (r: Option<CanCommunicationConnector>)
        ensures
            r matches Some(x) ==> spec_element_name(x.spec_element()) == "CAN-COMMUNICATION-CONNECTOR"@,
    {
        match CanCommunicationConnector::from_element(sub_element_target(self.element(), "CONNECTOR-REF")?) {
            Ok(item) => Some(item),
            Err(_) => None,
        }
    }
}

} // verus!
