//! The configuration of the `FlexRay` ISO transport protocol: PDU pools, addresses, connections,
//! connection controls, ECUs and nodes of a `FlexrayTpConfig`.
//!
//! The cycle time of the main function of a `FlexrayTpEcu` is a floating point value; it is read
//! and written outside this library.

use vstd::prelude::*;
use crate::elements::is_model_or_name_error;
use autosar_data::Element;
use vstd::std_specs::convert::{FromSpecImpl, TryFromSpecImpl};
use crate::{
    AbstractionElement, ArPackage, AutosarAbstractionError, EcuInstance, IdentifiableAbstractionElement,
    has_element_name, is_conversion_error, is_invalid_parameter,
};
use crate::accessors::{
    add_list_reference, list_elements, list_reference_targets, set_bool_value, set_optional_bool,
    set_sub_element_target, set_u32_value, sub_element_bool, sub_element_target, sub_element_u32,
};
use crate::communication::{FlexrayCluster, FlexrayCommunicationConnector, IPdu, NPdu, TpAddress, is_ipdu_element_name};
use crate::elements::{
    create_named_sub_element, create_sub_element, get_or_create_sub_element, get_sub_element, item_name,
    remove_sub_element, remove_sub_element_kind, set_item_name, spec_element_name, sub_elements,
};

verus! {

/// `FlexrayTpConfig` defines exactly one `FlexRay` ISO TP Configuration
#[derive(Debug, Clone, PartialEq, Eq, Hash)]
pub struct FlexrayTpConfig(Element);

impl AbstractionElement for FlexrayTpConfig {
    closed spec fn spec_element(&self) -> Element {
        self.0
    }

    fn element(&self) -> (r: &Element) {
        proof {
            assert(self.spec_element() == self.0);
        }
        &self.0
    }
}

impl FlexrayTpConfig {
    /// wrap an element of the model whose element name is `FLEXRAY-TP-CONFIG`
    pub fn from_element(element: Element) -> (r: Result<Self, AutosarAbstractionError>)
        ensures
            r is Ok <==> spec_element_name(element) == "FLEXRAY-TP-CONFIG"@,
            r matches Ok(x) ==> x.spec_element() == element,
            r matches Err(e) ==> is_conversion_error(e, element, "FlexrayTpConfig"@),
    {
        if has_element_name(&element, "FLEXRAY-TP-CONFIG") {
            Ok(FlexrayTpConfig(element))
        } else {
            Err(AutosarAbstractionError::ConversionError { element, dest: "FlexrayTpConfig".to_owned() })
        }
    }
}

impl TryFrom<Element> for FlexrayTpConfig {
    type Error = AutosarAbstractionError;

    fn try_from(element: Element) -> (r: Result<Self, Self::Error>)
        ensures
            r is Ok <==> spec_element_name(element) == "FLEXRAY-TP-CONFIG"@,
            r matches Ok(x) ==> x.spec_element() == element,
            r matches Err(e) ==> is_conversion_error(e, element, "FlexrayTpConfig"@),
    {
        FlexrayTpConfig::from_element(element)
    }
}

impl TryFromSpecImpl<Element> for FlexrayTpConfig {
    open spec fn obeys_try_from_spec() -> bool {
        false
    }

    open spec fn try_from_spec(v: Element) -> Result<Self, AutosarAbstractionError> {
        arbitrary()
    }
}

impl From<FlexrayTpConfig> for Element {
    fn from(value: FlexrayTpConfig) -> (r: Element)
        ensures
            r == value.spec_element(),
    {
        value.0
    }
}

impl FromSpecImpl<FlexrayTpConfig> for Element {
    open spec fn obeys_from_spec() -> bool {
        false
    }

    open spec fn from_spec(v: FlexrayTpConfig) -> Element {
        arbitrary()
    }
}

impl IdentifiableAbstractionElement for FlexrayTpConfig {}

impl FlexrayTpConfig {
    /// create a new `FlexrayTpConfig` in the package, for the given cluster
    pub(crate) fn new(name: &str, package: &ArPackage, cluster: &FlexrayCluster) -> (r: Result<
        Self,
        AutosarAbstractionError,
    >)
        ensures
            r matches Ok(x) ==> spec_element_name(x.spec_element()) == "FLEXRAY-TP-CONFIG"@,
            r matches Err(e) ==> e is ModelError || e is InvalidParameter,
    {
        let elements = get_or_create_sub_element(package.element(), "ELEMENTS")?;
        let elem = create_named_sub_element(&elements, "FLEXRAY-TP-CONFIG", name)?;
        let tp_config = Self(elem);
        tp_config.set_cluster(cluster)?;
        Ok(tp_config)
    }

    /// set the `FlexrayCluster` of the `FlexrayTpConfig`
    pub fn set_cluster(&self, cluster: &FlexrayCluster) -> (r: Result<(), AutosarAbstractionError>)
        ensures
            r matches Err(e) ==> is_model_or_name_error(e, "COMMUNICATION-CLUSTER-REF"@),
    {
        set_sub_element_target(self.element(), "COMMUNICATION-CLUSTER-REF", cluster.element())
    }

    /// get the `FlexrayCluster` of the `FlexrayTpConfig`
    pub fn cluster(&self) -> (r: Option<FlexrayCluster>)
        ensures
            r matches Some(x) ==> spec_element_name(x.spec_element()) == "FLEXRAY-CLUSTER"@,
    {
        match FlexrayCluster::from_element(sub_element_target(self.element(), "COMMUNICATION-CLUSTER-REF")?) {
            Ok(item) => Some(item),
            Err(_) => None,
        }
    }

    /// create a new `FlexrayTpPduPool`
    pub fn create_flexray_tp_pdu_pool(&self, name: &str) -> (r: Result<FlexrayTpPduPool, AutosarAbstractionError>)
        ensures
            r matches Ok(x) ==> spec_element_name(x.spec_element()) == "FLEXRAY-TP-PDU-POOL"@,
            r matches Err(e) ==> e is ModelError || e is InvalidParameter,
    {
        let container = get_or_create_sub_element(self.element(), "PDU-POOLS")?;
        FlexrayTpPduPool::new(name, &container)
    }

    /// all `FlexrayTpPduPool`s of the configuration
    pub fn flexray_tp_pdu_pools(&self) -> (r: Vec<FlexrayTpPduPool>) {
        let subs = list_elements(self.element(), "PDU-POOLS");
        let mut result: Vec<FlexrayTpPduPool> = Vec::new();
        for i in 0..subs.len() {
            result.push(FlexrayTpPduPool(subs[i].clone()));
        }
        result
    }

    /// create a new `TpAddress`
    pub fn create_tp_address(&self, name: &str, address: u32) -> (r: Result<TpAddress, AutosarAbstractionError>)
        ensures
            r matches Ok(x) ==> spec_element_name(x.spec_element()) == "TP-ADDRESS"@,
            r matches Err(e) ==> e is ModelError || e is InvalidParameter,
    {
        let tp_addresses_elem = get_or_create_sub_element(self.element(), "TP-ADDRESSS")?;
        TpAddress::new(name, &tp_addresses_elem, address)
    }

    /// all `TpAddress`es of the configuration
    pub fn tp_addresses(&self) -> (r: Vec<TpAddress>)
        ensures
            forall|i: int| 0 <= i < r.len() ==> spec_element_name(#[trigger] r@[i].spec_element()) == "TP-ADDRESS"@,
    {
        let subs = list_elements(self.element(), "TP-ADDRESSS");
        let mut result: Vec<TpAddress> = Vec::new();
        for i in 0..subs.len()
            invariant
                forall|j: int| 0 <= j < result.len() ==> spec_element_name(#[trigger] result@[j].spec_element()) == "TP-ADDRESS"@,
        {
            if let Ok(item) = TpAddress::from_element(subs[i].clone()) {
                result.push(item);
            }
        }
        result
    }

    /// create a new `FlexrayTpConnection`
    pub fn create_flexray_tp_connection(
        &self,
        name: Option<&str>,
        transmitter: &FlexrayTpNode,
        direct_tp_sdu: &IPdu,
        connection_control: &FlexrayTpConnectionControl,
    ) -> (r: Result<FlexrayTpConnection, AutosarAbstractionError>)
        ensures
            r matches Ok(x) ==> spec_element_name(x.spec_element()) == "FLEXRAY-TP-CONNECTION"@,
            r matches Err(e) ==> e is ModelError || e is InvalidParameter,
    {
        let tp_connections_elem = get_or_create_sub_element(self.element(), "TP-CONNECTIONS")?;
        FlexrayTpConnection::new(name, &tp_connections_elem, transmitter, direct_tp_sdu, connection_control)
    }

    /// all `FlexrayTpConnection`s of the configuration
    pub fn flexray_tp_connections(&self) -> (r: Vec<FlexrayTpConnection>) {
        let subs = list_elements(self.element(), "TP-CONNECTIONS");
        let mut result: Vec<FlexrayTpConnection> = Vec::new();
        for i in 0..subs.len() {
            result.push(FlexrayTpConnection(subs[i].clone()));
        }
        result
    }

    /// create a new `FlexrayTpConnectionControl`
    pub fn create_flexray_tp_connection_control(&self, name: &str) -> (r: Result<FlexrayTpConnectionControl, AutosarAbstractionError>)
        ensures
            r matches Ok(x) ==> spec_element_name(x.spec_element()) == "FLEXRAY-TP-CONNECTION-CONTROL"@,
            r matches Err(e) ==> e is ModelError || e is InvalidParameter,
    {
        let container = get_or_create_sub_element(self.element(), "TP-CONNECTION-CONTROLS")?;
        FlexrayTpConnectionControl::new(name, &container)
    }

    /// all `FlexrayTpConnectionControl`s of the configuration
    pub fn flexray_tp_connection_controls(&self) -> (r: Vec<FlexrayTpConnectionControl>) {
        let subs = list_elements(self.element(), "TP-CONNECTION-CONTROLS");
        let mut result: Vec<FlexrayTpConnectionControl> = Vec::new();
        for i in 0..subs.len() {
            result.push(FlexrayTpConnectionControl(subs[i].clone()));
        }
        result
    }

    /// create a `FlexrayTpEcu` in the `FlexrayTpConfig`
    pub fn create_flexray_tp_ecu(&self, ecu_instance: &EcuInstance, full_duplex_enabled: bool) -> (r: Result<
        FlexrayTpEcu,
        AutosarAbstractionError,
    >)
        ensures
            r matches Ok(x) ==> spec_element_name(x.spec_element()) == "FLEXRAY-TP-ECU"@,
            r matches Err(e) ==> e is ModelError || e is InvalidParameter,
    {
        let ecu_collection = get_or_create_sub_element(self.element(), "TP-ECUS")?;
        FlexrayTpEcu::new(&ecu_collection, ecu_instance, full_duplex_enabled)
    }

    /// all `FlexrayTpEcu`s of the configuration
    pub fn flexray_tp_ecus(&self) -> (r: Vec<FlexrayTpEcu>)
        ensures
            forall|i: int| 0 <= i < r.len() ==> spec_element_name(#[trigger] r@[i].spec_element()) == "FLEXRAY-TP-ECU"@,
    {
        let subs = list_elements(self.element(), "TP-ECUS");
        let mut result: Vec<FlexrayTpEcu> = Vec::new();
        for i in 0..subs.len()
            invariant
                forall|j: int| 0 <= j < result.len() ==> spec_element_name(#[trigger] result@[j].spec_element()) == "FLEXRAY-TP-ECU"@,
        {
            if let Ok(item) = FlexrayTpEcu::from_element(subs[i].clone()) {
                result.push(item);
            }
        }
        result
    }

    /// create a new `FlexrayTpNode`
    pub fn create_flexray_tp_node(&self, name: &str) -> (r: Result<FlexrayTpNode, AutosarAbstractionError>)
        ensures
            r matches Ok(x) ==> spec_element_name(x.spec_element()) == "FLEXRAY-TP-NODE"@,
            r matches Err(e) ==> e is ModelError || e is InvalidParameter,
    {
        let container = get_or_create_sub_element(self.element(), "TP-NODES")?;
        FlexrayTpNode::new(name, &container)
    }

    /// all `FlexrayTpNode`s of the configuration
    pub fn flexray_tp_nodes(&self) -> (r: Vec<FlexrayTpNode>) {
        let subs = list_elements(self.element(), "TP-NODES");
        let mut result: Vec<FlexrayTpNode> = Vec::new();
        for i in 0..subs.len() {
            result.push(FlexrayTpNode(subs[i].clone()));
        }
        result
    }
}

//#########################################################

/// A `FlexrayTpPduPool` contains a set of `NPdus` that can be used for sending and receiving
#[derive(Debug, Clone, PartialEq, Eq, Hash)]
pub struct FlexrayTpPduPool(Element);

impl AbstractionElement for FlexrayTpPduPool {
    closed spec fn spec_element(&self) -> Element {
        self.0
    }

    fn element(&self) -> (r: &Element) {
        proof {
            assert(self.spec_element() == self.0);
        }
        &self.0
    }
}

impl FlexrayTpPduPool {
    /// wrap an element of the model whose element name is `FLEXRAY-TP-PDU-POOL`
    pub fn from_element(element: Element) -> (r: Result<Self, AutosarAbstractionError>)
        ensures
            r is Ok <==> spec_element_name(element) == "FLEXRAY-TP-PDU-POOL"@,
            r matches Ok(x) ==> x.spec_element() == element,
            r matches Err(e) ==> is_conversion_error(e, element, "FlexrayTpPduPool"@),
    {
        if has_element_name(&element, "FLEXRAY-TP-PDU-POOL") {
            Ok(FlexrayTpPduPool(element))
        } else {
            Err(AutosarAbstractionError::ConversionError { element, dest: "FlexrayTpPduPool".to_owned() })
        }
    }
}

impl TryFrom<Element> for FlexrayTpPduPool {
    type Error = AutosarAbstractionError;

    fn try_from(element: Element) -> (r: Result<Self, Self::Error>)
        ensures
            r is Ok <==> spec_element_name(element) == "FLEXRAY-TP-PDU-POOL"@,
            r matches Ok(x) ==> x.spec_element() == element,
            r matches Err(e) ==> is_conversion_error(e, element, "FlexrayTpPduPool"@),
    {
        FlexrayTpPduPool::from_element(element)
    }
}

impl TryFromSpecImpl<Element> for FlexrayTpPduPool {
    open spec fn obeys_try_from_spec() -> bool {
        false
    }

    open spec fn try_from_spec(v: Element) -> Result<Self, AutosarAbstractionError> {
        arbitrary()
    }
}

impl From<FlexrayTpPduPool> for Element {
    fn from(value: FlexrayTpPduPool) -> (r: Element)
        ensures
            r == value.spec_element(),
    {
        value.0
    }
}

impl FromSpecImpl<FlexrayTpPduPool> for Element {
    open spec fn obeys_from_spec() -> bool {
        false
    }

    open spec fn from_spec(v: FlexrayTpPduPool) -> Element {
        arbitrary()
    }
}

impl IdentifiableAbstractionElement for FlexrayTpPduPool {}

impl FlexrayTpPduPool {
    /// create a new `FlexrayTpPduPool` below `parent`
    pub(crate) fn new(name: &str, parent: &Element) -> (r: Result<Self, AutosarAbstractionError>)
        ensures
            r matches Ok(x) ==> spec_element_name(x.spec_element()) == "FLEXRAY-TP-PDU-POOL"@,
            r matches Err(e) ==> e is ModelError || e is InvalidParameter,
    {
        let elem = create_named_sub_element(parent, "FLEXRAY-TP-PDU-POOL", name)?;
        Ok(Self(elem))
    }

    /// add an `NPdu` to the `PduPool`
    pub fn add_n_pdu(&self, n_pdu: &NPdu) -> (r: Result<(), AutosarAbstractionError>)
        ensures
            r matches Err(e) ==> e is ModelError || e is InvalidParameter,
    {
        add_list_reference(self.element(), "N-PDU-REFS", "N-PDU-REF", n_pdu.element())
    }

    /// all referenced `NPdu`s
    pub fn n_pdus(&self) -> (r: Vec<NPdu>)
        ensures
            forall|i: int| 0 <= i < r.len() ==> spec_element_name(#[trigger] r@[i].spec_element()) == "N-PDU"@,
    {
        let targets = list_reference_targets(self.element(), "N-PDU-REFS");
        let mut result: Vec<NPdu> = Vec::new();
        for i in 0..targets.len()
            invariant
                forall|j: int| 0 <= j < result.len() ==> spec_element_name(#[trigger] result@[j].spec_element()) == "N-PDU"@,
        {
            if let Ok(item) = NPdu::from_element(targets[i].clone()) {
                result.push(item);
            }
        }
        result
    }
}

//#########################################################

/// A `FlexrayTpConnection` defines a connection between `FlexrayTpNodes`
#[derive(Debug, Clone, PartialEq, Eq, Hash)]
pub struct FlexrayTpConnection(Element);

impl AbstractionElement for FlexrayTpConnection {
    closed spec fn spec_element(&self) -> Element {
        self.0
    }

    fn element(&self) -> (r: &Element) {
        proof {
            assert(self.spec_element() == self.0);
        }
        &self.0
    }
}

impl FlexrayTpConnection {
    /// wrap an element of the model whose element name is `FLEXRAY-TP-CONNECTION`
    pub fn from_element(element: Element) -> (r: Result<Self, AutosarAbstractionError>)
        ensures
            r is Ok <==> spec_element_name(element) == "FLEXRAY-TP-CONNECTION"@,
            r matches Ok(x) ==> x.spec_element() == element,
            r matches Err(e) ==> is_conversion_error(e, element, "FlexrayTpConnection"@),
    {
        if has_element_name(&element, "FLEXRAY-TP-CONNECTION") {
            Ok(FlexrayTpConnection(element))
        } else {
            Err(AutosarAbstractionError::ConversionError { element, dest: "FlexrayTpConnection".to_owned() })
        }
    }
}

impl TryFrom<Element> for FlexrayTpConnection {
    type Error = AutosarAbstractionError;

    fn try_from(element: Element) -> (r: Result<Self, Self::Error>)
        ensures
            r is Ok <==> spec_element_name(element) == "FLEXRAY-TP-CONNECTION"@,
            r matches Ok(x) ==> x.spec_element() == element,
            r matches Err(e) ==> is_conversion_error(e, element, "FlexrayTpConnection"@),
    {
        FlexrayTpConnection::from_element(element)
    }
}

impl TryFromSpecImpl<Element> for FlexrayTpConnection {
    open spec fn obeys_try_from_spec() -> bool {
        false
    }

    open spec fn try_from_spec(v: Element) -> Result<Self, AutosarAbstractionError> {
        arbitrary()
    }
}

impl From<FlexrayTpConnection> for Element {
    fn from(value: FlexrayTpConnection) -> (r: Element)
        ensures
            r == value.spec_element(),
    {
        value.0
    }
}

impl FromSpecImpl<FlexrayTpConnection> for Element {
    open spec fn obeys_from_spec() -> bool {
        false
    }

    open spec fn from_spec(v: FlexrayTpConnection) -> Element {
        arbitrary()
    }
}

impl IdentifiableAbstractionElement for FlexrayTpConnection {
    /// get the name of the connection
    ///
    /// In early versions of the Autosar standard, TpConnections were not identifiable.
    /// This was fixed later by adding the Ident sub-element. This method returns the name
    /// provided in the Ident element, if it exists.
    fn name(&self) -> Option<String> {
        match get_sub_element(self.element(), "IDENT") {
            Some(ident) => item_name(&ident),
            None => None,
        }
    }

    /// set the name of the connection: rename an existing Ident element or create a new one
    fn set_name(&self, name: &str) -> (r: Result<(), AutosarAbstractionError>) {
        match get_sub_element(self.element(), "IDENT") {
            Some(ident) => set_item_name(&ident, name),
            None => {
                create_named_sub_element(self.element(), "IDENT", name)?;
                Ok(())
            },
        }
    }
}

impl FlexrayTpConnection {
    /// create a new `FlexrayTpConnection` below `parent`
    pub(crate) fn new(
        name: Option<&str>,
        parent: &Element,
        transmitter: &FlexrayTpNode,
        direct_tp_sdu: &IPdu,
        connection_control: &FlexrayTpConnectionControl,
    ) -> (r: Result<Self, AutosarAbstractionError>)
        ensures
            r matches Ok(x) ==> spec_element_name(x.spec_element()) == "FLEXRAY-TP-CONNECTION"@,
            r matches Err(e) ==> e is ModelError || e is InvalidParameter,
    {
        let elem = create_sub_element(parent, "FLEXRAY-TP-CONNECTION")?;
        if let Some(name) = name {
            create_named_sub_element(&elem, "IDENT", name)?;
        }
        let tp_connection = Self(elem);
        tp_connection.set_transmitter(transmitter)?;
        tp_connection.set_direct_tp_sdu(direct_tp_sdu)?;
        tp_connection.set_connection_control(connection_control)?;
        Ok(tp_connection)
    }

    /// set the transmitter of the connection
    pub fn set_transmitter(&self, transmitter: &FlexrayTpNode) -> (r: Result<(), AutosarAbstractionError>)
        ensures
            r matches Err(e) ==> is_model_or_name_error(e, "TRANSMITTER-REF"@),
    {
        set_sub_element_target(self.element(), "TRANSMITTER-REF", transmitter.element())
    }

    /// get the transmitter of the connection
    pub fn transmitter(&self) -> (r: Option<FlexrayTpNode>)
        ensures
            r matches Some(x) ==> spec_element_name(x.spec_element()) == "FLEXRAY-TP-NODE"@,
    {
        match FlexrayTpNode::from_element(sub_element_target(self.element(), "TRANSMITTER-REF")?) {
            Ok(item) => Some(item),
            Err(_) => None,
        }
    }

    /// set the direct TP SDU of the connection
    pub fn set_direct_tp_sdu(&self, direct_tp_sdu: &IPdu) -> (r: Result<(), AutosarAbstractionError>)
        ensures
            r matches Err(e) ==> is_model_or_name_error(e, "DIRECT-TP-SDU-REF"@),
    {
        set_sub_element_target(self.element(), "DIRECT-TP-SDU-REF", direct_tp_sdu.element())
    }

    /// get the direct TP SDU of the connection
    pub fn direct_tp_sdu(&self) -> (r: Option<IPdu>)
        ensures
            r matches Some(x) ==> is_ipdu_element_name(spec_element_name(x.spec_element())),
    {
        match IPdu::from_element(sub_element_target(self.element(), "DIRECT-TP-SDU-REF")?) {
            Ok(item) => Some(item),
            Err(_) => None,
        }
    }

    /// set the connection control of the connection
    pub fn set_connection_control(&self, connection_control: &FlexrayTpConnectionControl) -> (r: Result<(), AutosarAbstractionError>)
        ensures
            r matches Err(e) ==> is_model_or_name_error(e, "TP-CONNECTION-CONTROL-REF"@),
    {
        set_sub_element_target(self.element(), "TP-CONNECTION-CONTROL-REF", connection_control.element())
    }

    /// get the connection control of the connection
    pub fn connection_control(&self) -> (r: Option<FlexrayTpConnectionControl>)
        ensures
            r matches Some(x) ==> spec_element_name(x.spec_element()) == "FLEXRAY-TP-CONNECTION-CONTROL"@,
    {
        match FlexrayTpConnectionControl::from_element(sub_element_target(self.element(), "TP-CONNECTION-CONTROL-REF")?) {
            Ok(item) => Some(item),
            Err(_) => None,
        }
    }

    /// add a receiver to the connection
    pub fn add_receiver(&self, receiver: &FlexrayTpNode) -> (r: Result<(), AutosarAbstractionError>)
        ensures
            r matches Err(e) ==> e is ModelError || e is InvalidParameter,
    {
        add_list_reference(self.element(), "RECEIVER-REFS", "RECEIVER-REF", receiver.element())
    }

    /// all receivers of the connection
    pub fn receivers(&self) -> (r: Vec<FlexrayTpNode>)
        ensures
            forall|i: int| 0 <= i < r.len() ==> spec_element_name(#[trigger] r@[i].spec_element()) == "FLEXRAY-TP-NODE"@,
    {
        let targets = list_reference_targets(self.element(), "RECEIVER-REFS");
        let mut result: Vec<FlexrayTpNode> = Vec::new();
        for i in 0..targets.len()
            invariant
                forall|j: int| 0 <= j < result.len() ==> spec_element_name(#[trigger] result@[j].spec_element()) == "FLEXRAY-TP-NODE"@,
        {
            if let Ok(item) = FlexrayTpNode::from_element(targets[i].clone()) {
                result.push(item);
            }
        }
        result
    }

    /// set the reversed TP SDU of the connection
    ///
    /// This is used if the connection supports both sending and receiving
    pub fn set_reversed_tp_sdu(&self, reversed_tp_sdu: &IPdu) -> (r: Result<(), AutosarAbstractionError>)
        ensures
            r matches Err(e) ==> is_model_or_name_error(e, "REVERSED-TP-SDU-REF"@),
    {
        set_sub_element_target(self.element(), "REVERSED-TP-SDU-REF", reversed_tp_sdu.element())
    }

    /// get the reversed TP SDU of the connection
    pub fn reversed_tp_sdu(&self) -> (r: Option<IPdu>)
        ensures
            r matches Some(x) ==> is_ipdu_element_name(spec_element_name(x.spec_element())),
    {
        match IPdu::from_element(sub_element_target(self.element(), "REVERSED-TP-SDU-REF")?) {
            Ok(item) => Some(item),
            Err(_) => None,
        }
    }

    /// set the TX `FlexrayTpPduPool` of the connection
    pub fn set_tx_pdu_pool(&self, tx_pdu_pool: &FlexrayTpPduPool) -> (r: Result<(), AutosarAbstractionError>)
        ensures
            r matches Err(e) ==> is_model_or_name_error(e, "TX-PDU-POOL-REF"@),
    {
        set_sub_element_target(self.element(), "TX-PDU-POOL-REF", tx_pdu_pool.element())
    }

    /// get the TX `FlexrayTpPduPool` of the connection
    pub fn tx_pdu_pool(&self) -> (r: Option<FlexrayTpPduPool>)
        ensures
            r matches Some(x) ==> spec_element_name(x.spec_element()) == "FLEXRAY-TP-PDU-POOL"@,
    {
        match FlexrayTpPduPool::from_element(sub_element_target(self.element(), "TX-PDU-POOL-REF")?) {
            Ok(item) => Some(item),
            Err(_) => None,
        }
    }

    /// set the RX `FlexrayTpPduPool` of the connection
    pub fn set_rx_pdu_pool(&self, rx_pdu_pool: &FlexrayTpPduPool) -> (r: Result<(), AutosarAbstractionError>)
        ensures
            r matches Err(e) ==> is_model_or_name_error(e, "RX-PDU-POOL-REF"@),
    {
        set_sub_element_target(self.element(), "RX-PDU-POOL-REF", rx_pdu_pool.element())
    }

    /// get the RX `FlexrayTpPduPool` of the connection
    pub fn rx_pdu_pool(&self) -> (r: Option<FlexrayTpPduPool>)
        ensures
            r matches Some(x) ==> spec_element_name(x.spec_element()) == "FLEXRAY-TP-PDU-POOL"@,
    {
        match FlexrayTpPduPool::from_element(sub_element_target(self.element(), "RX-PDU-POOL-REF")?) {
            Ok(item) => Some(item),
            Err(_) => None,
        }
    }

    /// set the multicast `TpAddress` of the connection
    ///
    /// This element is optional; setting None removes the element
    pub fn set_multicast_address(&self, multicast_address: Option<&TpAddress>) -> (r: Result<(), AutosarAbstractionError>)
        ensures
            r matches Err(e) ==> is_model_or_name_error(e, "MULTICAST-REF"@),
    {
        match multicast_address {
            Some(multicast_address) => set_sub_element_target(self.element(), "MULTICAST-REF", multicast_address.element()),
            None => {
                let _ = remove_sub_element_kind(self.element(), "MULTICAST-REF");
                Ok(())
            },
        }
    }

    /// get the multicast `TpAddress` of the connection
    pub fn multicast_address(&self) -> (r: Option<TpAddress>)
        ensures
            r matches Some(x) ==> spec_element_name(x.spec_element()) == "TP-ADDRESS"@,
    {
        match TpAddress::from_element(sub_element_target(self.element(), "MULTICAST-REF")?) {
            Ok(item) => Some(item),
            Err(_) => None,
        }
    }
}

//#########################################################

/// A `FlexrayTpConnectionControl` defines the connection control parameters for a `FlexrayTpConnection`
#[derive(Debug, Clone, PartialEq, Eq, Hash)]
pub struct FlexrayTpConnectionControl(Element);

impl AbstractionElement for FlexrayTpConnectionControl {
    closed spec fn spec_element(&self) -> Element {
        self.0
    }

    fn element(&self) -> (r: &Element) {
        proof {
            assert(self.spec_element() == self.0);
        }
        &self.0
    }
}

impl FlexrayTpConnectionControl {
    /// wrap an element of the model whose element name is `FLEXRAY-TP-CONNECTION-CONTROL`
    pub fn from_element(element: Element) -> (r: Result<Self, AutosarAbstractionError>)
        ensures
            r is Ok <==> spec_element_name(element) == "FLEXRAY-TP-CONNECTION-CONTROL"@,
            r matches Ok(x) ==> x.spec_element() == element,
            r matches Err(e) ==> is_conversion_error(e, element, "FlexrayTpConnectionControl"@),
    {
        if has_element_name(&element, "FLEXRAY-TP-CONNECTION-CONTROL") {
            Ok(FlexrayTpConnectionControl(element))
        } else {
            Err(AutosarAbstractionError::ConversionError { element, dest: "FlexrayTpConnectionControl".to_owned() })
        }
    }
}

impl TryFrom<Element> for FlexrayTpConnectionControl {
    type Error = AutosarAbstractionError;

    fn try_from(element: Element) -> (r: Result<Self, Self::Error>)
        ensures
            r is Ok <==> spec_element_name(element) == "FLEXRAY-TP-CONNECTION-CONTROL"@,
            r matches Ok(x) ==> x.spec_element() == element,
            r matches Err(e) ==> is_conversion_error(e, element, "FlexrayTpConnectionControl"@),
    {
        FlexrayTpConnectionControl::from_element(element)
    }
}

impl TryFromSpecImpl<Element> for FlexrayTpConnectionControl {
    open spec fn obeys_try_from_spec() -> bool {
        false
    }

    open spec fn try_from_spec(v: Element) -> Result<Self, AutosarAbstractionError> {
        arbitrary()
    }
}

impl From<FlexrayTpConnectionControl> for Element {
    fn from(value: FlexrayTpConnectionControl) -> (r: Element)
        ensures
            r == value.spec_element(),
    {
        value.0
    }
}

impl FromSpecImpl<FlexrayTpConnectionControl> for Element {
    open spec fn obeys_from_spec() -> bool {
        false
    }

    open spec fn from_spec(v: FlexrayTpConnectionControl) -> Element {
        arbitrary()
    }
}

impl IdentifiableAbstractionElement for FlexrayTpConnectionControl {}

impl FlexrayTpConnectionControl {
    /// create a new `FlexrayTpConnectionControl` below `parent`
    pub(crate) fn new(name: &str, parent: &Element) -> (r: Result<Self, AutosarAbstractionError>)
        ensures
            r matches Ok(x) ==> spec_element_name(x.spec_element()) == "FLEXRAY-TP-CONNECTION-CONTROL"@,
            r matches Err(e) ==> e is ModelError || e is InvalidParameter,
    {
        let elem = create_named_sub_element(parent, "FLEXRAY-TP-CONNECTION-CONTROL", name)?;
        Ok(Self(elem))
    }

    /// set the maxFcWait value
    pub fn set_max_fc_wait(&self, max_fc_wait: u32) -> (r: Result<(), AutosarAbstractionError>)
        ensures
            r matches Err(e) ==> is_model_or_name_error(e, "MAX-FC-WAIT"@),
    {
        set_u32_value(self.element(), "MAX-FC-WAIT", max_fc_wait)
    }

    /// get the maxFcWait value
    pub fn max_fc_wait(&self) -> Option<u32> {
        sub_element_u32(self.element(), "MAX-FC-WAIT")
    }

    /// set the maxNumberOfNpduPerCycle value
    pub fn set_max_number_of_npdu_per_cycle(&self, max_number_of_npdu_per_cycle: u32) -> (r: Result<(), AutosarAbstractionError>)
        ensures
            r matches Err(e) ==> is_model_or_name_error(e, "MAX-NUMBER-OF-NPDU-PER-CYCLE"@),
    {
        set_u32_value(self.element(), "MAX-NUMBER-OF-NPDU-PER-CYCLE", max_number_of_npdu_per_cycle)
    }

    /// get the maxNumberOfNpduPerCycle value
    pub fn max_number_of_npdu_per_cycle(&self) -> Option<u32> {
        sub_element_u32(self.element(), "MAX-NUMBER-OF-NPDU-PER-CYCLE")
    }

    /// set the maxRetries value
    pub fn set_max_retries(&self, max_retries: u32) -> (r: Result<(), AutosarAbstractionError>)
        ensures
            r matches Err(e) ==> is_model_or_name_error(e, "MAX-RETRIES"@),
    {
        set_u32_value(self.element(), "MAX-RETRIES", max_retries)
    }

    /// get the maxRetries value
    pub fn max_retries(&self) -> Option<u32> {
        sub_element_u32(self.element(), "MAX-RETRIES")
    }

    /// set the separationCycleExponent value
    pub fn set_separation_cycle_exponent(&self, separation_cycle_exponent: u32) -> (r: Result<(), AutosarAbstractionError>)
        ensures
            r matches Err(e) ==> is_model_or_name_error(e, "SEPARATION-CYCLE-EXPONENT"@),
    {
        set_u32_value(self.element(), "SEPARATION-CYCLE-EXPONENT", separation_cycle_exponent)
    }

    /// get the separationCycleExponent value
    pub fn separation_cycle_exponent(&self) -> Option<u32> {
        sub_element_u32(self.element(), "SEPARATION-CYCLE-EXPONENT")
    }
}

//#########################################################

/// A `FlexrayTpEcu` represents an ECU within the `FlexrayTpConfig`
#[derive(Debug, Clone, PartialEq)]
pub struct FlexrayTpEcu(Element);

impl AbstractionElement for FlexrayTpEcu {
    closed spec fn spec_element(&self) -> Element {
        self.0
    }

    fn element(&self) -> (r: &Element) {
        proof {
            assert(self.spec_element() == self.0);
        }
        &self.0
    }
}

impl FlexrayTpEcu {
    /// wrap an element of the model whose element name is `FLEXRAY-TP-ECU`
    pub fn from_element(element: Element) -> (r: Result<Self, AutosarAbstractionError>)
        ensures
            r is Ok <==> spec_element_name(element) == "FLEXRAY-TP-ECU"@,
            r matches Ok(x) ==> x.spec_element() == element,
            r matches Err(e) ==> is_conversion_error(e, element, "FlexrayTpEcu"@),
    {
        if has_element_name(&element, "FLEXRAY-TP-ECU") {
            Ok(FlexrayTpEcu(element))
        } else {
            Err(AutosarAbstractionError::ConversionError { element, dest: "FlexrayTpEcu".to_owned() })
        }
    }
}

impl TryFrom<Element> for FlexrayTpEcu {
    type Error = AutosarAbstractionError;

    fn try_from(element: Element) -> (r: Result<Self, Self::Error>)
        ensures
            r is Ok <==> spec_element_name(element) == "FLEXRAY-TP-ECU"@,
            r matches Ok(x) ==> x.spec_element() == element,
            r matches Err(e) ==> is_conversion_error(e, element, "FlexrayTpEcu"@),
    {
        FlexrayTpEcu::from_element(element)
    }
}

impl TryFromSpecImpl<Element> for FlexrayTpEcu {
    open spec fn obeys_try_from_spec() -> bool {
        false
    }

    open spec fn try_from_spec(v: Element) -> Result<Self, AutosarAbstractionError> {
        arbitrary()
    }
}

impl From<FlexrayTpEcu> for Element {
    fn from(value: FlexrayTpEcu) -> (r: Element)
        ensures
            r == value.spec_element(),
    {
        value.0
    }
}

impl FromSpecImpl<FlexrayTpEcu> for Element {
    open spec fn obeys_from_spec() -> bool {
        false
    }

    open spec fn from_spec(v: FlexrayTpEcu) -> Element {
        arbitrary()
    }
}

impl FlexrayTpEcu {
    /// create a new `FlexrayTpEcu` below `parent`, for the given ECU instance
    pub(crate) fn new(parent: &Element, ecu_instance: &EcuInstance, full_duplex_enabled: bool) -> (r: Result<
        Self,
        AutosarAbstractionError,
    >)
        ensures
            r matches Ok(x) ==> spec_element_name(x.spec_element()) == "FLEXRAY-TP-ECU"@,
            r matches Err(e) ==> e is ModelError || e is InvalidParameter,
    {
        let elem = create_sub_element(parent, "FLEXRAY-TP-ECU")?;
        let tp_ecu = Self(elem);
        tp_ecu.set_ecu_instance(ecu_instance)?;
        tp_ecu.set_full_duplex_enabled(full_duplex_enabled)?;
        Ok(tp_ecu)
    }

    /// set the ECU instance of the `FlexrayTpEcu`
    pub fn set_ecu_instance(&self, ecu_instance: &EcuInstance) -> (r: Result<(), AutosarAbstractionError>)
        ensures
            r matches Err(e) ==> is_model_or_name_error(e, "ECU-INSTANCE-REF"@),
    {
        set_sub_element_target(self.element(), "ECU-INSTANCE-REF", ecu_instance.element())
    }

    /// get the ECU instance of the `FlexrayTpEcu`
    pub fn ecu_instance(&self) -> (r: Option<EcuInstance>)
        ensures
            r matches Some(x) ==> spec_element_name(x.spec_element()) == "ECU-INSTANCE"@,
    {
        match EcuInstance::from_element(sub_element_target(self.element(), "ECU-INSTANCE-REF")?) {
            Ok(item) => Some(item),
            Err(_) => None,
        }
    }

    /// set the full duplex enabled status of the `FlexrayTpEcu`
    pub fn set_full_duplex_enabled(&self, full_duplex_enabled: bool) -> (r: Result<(), AutosarAbstractionError>)
        ensures
            r matches Err(e) ==> is_model_or_name_error(e, "FULL-DUPLEX-ENABLED"@),
    {
        set_bool_value(self.element(), "FULL-DUPLEX-ENABLED", full_duplex_enabled)
    }

    /// get the full duplex enabled status of the `FlexrayTpEcu`
    pub fn full_duplex_enabled(&self) -> Option<bool> {
        sub_element_bool(self.element(), "FULL-DUPLEX-ENABLED")
    }

    /// set the cancellation status of the `FlexrayTpEcu`; `None` removes it
    pub fn set_cancellation(&self, cancellation: Option<bool>) -> (r: Result<(), AutosarAbstractionError>)
        ensures
            r matches Err(e) ==> is_model_or_name_error(e, "CANCELLATION"@),
    {
        set_optional_bool(self.element(), "CANCELLATION", cancellation)
    }

    /// get the cancellation status of the `FlexrayTpEcu`
    pub fn cancellation(&self) -> Option<bool> {
        sub_element_bool(self.element(), "CANCELLATION")
    }
}

//#########################################################

/// A `FlexrayTpNode` provides the TP address and the connection to the topology description in a `FlexrayTpConfig`
#[derive(Debug, Clone, PartialEq, Eq, Hash)]
pub struct FlexrayTpNode(Element);

impl AbstractionElement for FlexrayTpNode {
    closed spec fn spec_element(&self) -> Element {
        self.0
    }

    fn element(&self) -> (r: &Element) {
        proof {
            assert(self.spec_element() == self.0);
        }
        &self.0
    }
}

impl FlexrayTpNode {
    /// wrap an element of the model whose element name is `FLEXRAY-TP-NODE`
    pub fn from_element(element: Element) -> (r: Result<Self, AutosarAbstractionError>)
        ensures
            r is Ok <==> spec_element_name(element) == "FLEXRAY-TP-NODE"@,
            r matches Ok(x) ==> x.spec_element() == element,
            r matches Err(e) ==> is_conversion_error(e, element, "FlexrayTpNode"@),
    {
        if has_element_name(&element, "FLEXRAY-TP-NODE") {
            Ok(FlexrayTpNode(element))
        } else {
            Err(AutosarAbstractionError::ConversionError { element, dest: "FlexrayTpNode".to_owned() })
        }
    }
}

impl TryFrom<Element> for FlexrayTpNode {
    type Error = AutosarAbstractionError;

    fn try_from(element: Element) -> (r: Result<Self, Self::Error>)
        ensures
            r is Ok <==> spec_element_name(element) == "FLEXRAY-TP-NODE"@,
            r matches Ok(x) ==> x.spec_element() == element,
            r matches Err(e) ==> is_conversion_error(e, element, "FlexrayTpNode"@),
    {
        FlexrayTpNode::from_element(element)
    }
}

impl TryFromSpecImpl<Element> for FlexrayTpNode {
    open spec fn obeys_try_from_spec() -> bool {
        false
    }

    open spec fn try_from_spec(v: Element) -> Result<Self, AutosarAbstractionError> {
        arbitrary()
    }
}

impl From<FlexrayTpNode> for Element {
    fn from(value: FlexrayTpNode) -> (r: Element)
        ensures
            r == value.spec_element(),
    {
        value.0
    }
}

impl FromSpecImpl<FlexrayTpNode> for Element {
    open spec fn obeys_from_spec() -> bool {
        false
    }

    open spec fn from_spec(v: FlexrayTpNode) -> Element {
        arbitrary()
    }
}

impl IdentifiableAbstractionElement for FlexrayTpNode {}

impl FlexrayTpNode {
    /// create a new `FlexrayTpNode` below `parent`
    pub(crate) fn new(name: &str, parent: &Element) -> (r: Result<Self, AutosarAbstractionError>)
        ensures
            r matches Ok(x) ==> spec_element_name(x.spec_element()) == "FLEXRAY-TP-NODE"@,
            r matches Err(e) ==> e is ModelError || e is InvalidParameter,
    {
        let elem = create_named_sub_element(parent, "FLEXRAY-TP-NODE", name)?;
        Ok(Self(elem))
    }

    /// set or remove the `TpAddress` of the node
    ///
    /// A TP address is mandatory for unicast nodes, but optional for multicast nodes.
    /// Setting None removes the element
    pub fn set_tp_address(&self, tp_address: Option<&TpAddress>) -> (r: Result<(), AutosarAbstractionError>)
        ensures
            r matches Err(e) ==> is_model_or_name_error(e, "TP-ADDRESS-REF"@),
    {
        match tp_address {
            Some(tp_address) => set_sub_element_target(self.element(), "TP-ADDRESS-REF", tp_address.element()),
            None => match get_sub_element(self.element(), "TP-ADDRESS-REF") {
                Some(tp_address_elem) => remove_sub_element(self.element(), tp_address_elem),
                None => Ok(()),
            },
        }
    }

    /// get the `TpAddress` of the node
    pub fn tp_address(&self) -> (r: Option<TpAddress>)
        ensures
            r matches Some(x) ==> spec_element_name(x.spec_element()) == "TP-ADDRESS"@,
    {
        match TpAddress::from_element(sub_element_target(self.element(), "TP-ADDRESS-REF")?) {
            Ok(item) => Some(item),
            Err(_) => None,
        }
    }

    /// add a `FlexrayCommunicationConnector` to the node
    ///
    /// The node can be associated with up to 2 connectors; a third one is refused.
    /// In a system description this reference is mandatory.
    pub fn add_communication_connector(&self, connector: &FlexrayCommunicationConnector) -> (r: Result<
        (),
        AutosarAbstractionError,
    >)
        ensures
            r matches Err(e) ==> e is ModelError || e is InvalidParameter,
    {
        let connector_refs = get_or_create_sub_element(self.element(), "CONNECTOR-REFS")?;
        let existing = sub_elements(&connector_refs);
        check_connector_count(existing.len())?;
        let connector_ref = create_sub_element(&connector_refs, "CONNECTOR-REF")?;
        crate::elements::set_reference_target(&connector_ref, connector.element())
    }

    /// all `FlexrayCommunicationConnector`s of the node
    pub fn communication_connectors(&self) -> (r: Vec<FlexrayCommunicationConnector>)
        ensures
            forall|i: int| 0 <= i < r.len() ==> spec_element_name(#[trigger] r@[i].spec_element()) == "FLEXRAY-COMMUNICATION-CONNECTOR"@,
    {
        let targets = list_reference_targets(self.element(), "CONNECTOR-REFS");
        let mut result: Vec<FlexrayCommunicationConnector> = Vec::new();
        for i in 0..targets.len()
            invariant
                forall|j: int| 0 <= j < result.len() ==> spec_element_name(#[trigger] result@[j].spec_element()) == "FLEXRAY-COMMUNICATION-CONNECTOR"@,
        {
            if let Ok(item) = FlexrayCommunicationConnector::from_element(targets[i].clone()) {
                result.push(item);
            }
        }
        result
    }
}

/// the message with which a third connector of a `FlexrayTpNode` is refused
pub open spec fn too_many_connectors_message() -> Seq<char> {
    "A FlexrayTpNode can only have up to 2 connectors"@
}

/// Check that a `FlexrayTpNode` with `count` connectors can take one more: it may have at most 2.
pub fn check_connector_count(count: usize) -> (r: Result<(), AutosarAbstractionError>)
    ensures
        r is Ok <==> count < 2,
        r matches Err(e) ==> is_invalid_parameter(e, too_many_connectors_message()),
{
    if count >= 2 {
        Err(AutosarAbstractionError::InvalidParameter("A FlexrayTpNode can only have up to 2 connectors".to_owned()))
    } else {
        Ok(())
    }
}

} // verus!
