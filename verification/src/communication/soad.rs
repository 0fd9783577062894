//! The socket adaptor configuration in its older form: socket connection bundles, their
//! socket connections, the PDU identifiers of the connections and the routing groups that
//! link them to service instances.
//!
//! The timeout of a `SocketConnectionIpduIdentifier` is a floating point value; it is read and
//! written outside this library.

use vstd::prelude::*;
use crate::elements::is_model_or_name_error;
use autosar_data::{Element, EnumItem};
use vstd::std_specs::convert::{FromSpecImpl, TryFromSpecImpl};
use crate::{
    AbstractionElement, ArPackage, AutosarAbstractionError, IdentifiableAbstractionElement, has_element_name,
    is_conversion_error, is_invalid_parameter, is_value_conversion_error,
};
use crate::accessors::{
    add_list_reference, list_elements, list_reference_targets, set_sub_element_target,
    sub_element_bool, sub_element_enum_text, sub_element_target,
};
use crate::communication::{EthernetPhysicalChannel, SocketAddress, TpConfig, same_transport_protocol};
use crate::elements::{
    create_named_sub_element, create_sub_element, enum_item_to_text, event_group_control_type_item,
    get_or_create_sub_element, named_parent, parent, pdu_collection_trigger_item, remove_sub_element_kind,
    set_character_data_enum, set_character_data_text, spec_element_name, spec_enum_item_text,
};
use crate::text::{decimal_text, text_equals};
use crate::values::parse_u64;

verus! {

/// The control type of an event group: which data paths a routing group activates
#[derive(Debug, Clone, Copy, PartialEq, Eq, Hash, Structural)]
pub enum EventGroupControlType {
    /// Activate the data path for unicast events and triggered unicast events that are sent out after a client got subscribed
    ActivationAndTriggerUnicast,
    /// Activate the data path for multicast events of an `EventGroup`
    ActivationMulticast,
    /// Activate the data path for unicast events of an `EventGroup`
    ActivationUnicast,
    /// Activate the data path for triggered unicast events that are sent out after a client got subscribed
    TriggerUnicast,
}

impl EventGroupControlType {
    /// the XML text that represents the value in the model
    pub open spec fn spec_item_text(self) -> Seq<char> {
        match self {
            EventGroupControlType::ActivationAndTriggerUnicast => "ACTIVATION-AND-TRIGGER-UNICAST"@,
            EventGroupControlType::ActivationMulticast => "ACTIVATION-MULTICAST"@,
            EventGroupControlType::ActivationUnicast => "ACTIVATION-UNICAST"@,
            EventGroupControlType::TriggerUnicast => "TRIGGER-UNICAST"@,
        }
    }

    /// the value that an XML text represents, if there is one
    pub open spec fn spec_from_item_text(text: Seq<char>) -> Option<Self> {
        if text == "ACTIVATION-AND-TRIGGER-UNICAST"@ {
            Some(EventGroupControlType::ActivationAndTriggerUnicast)
        } else if text == "ACTIVATION-MULTICAST"@ {
            Some(EventGroupControlType::ActivationMulticast)
        } else if text == "ACTIVATION-UNICAST"@ {
            Some(EventGroupControlType::ActivationUnicast)
        } else if text == "TRIGGER-UNICAST"@ {
            Some(EventGroupControlType::TriggerUnicast)
        } else {
            None
        }
    }

    /// the XML text that represents the value in the model
    pub fn item_text(&self) -> (r: &'static str)
        ensures
            r@ == self.spec_item_text(),
    {
        match self {
            EventGroupControlType::ActivationAndTriggerUnicast => "ACTIVATION-AND-TRIGGER-UNICAST",
            EventGroupControlType::ActivationMulticast => "ACTIVATION-MULTICAST",
            EventGroupControlType::ActivationUnicast => "ACTIVATION-UNICAST",
            EventGroupControlType::TriggerUnicast => "TRIGGER-UNICAST",
        }
    }

    /// the value that an XML text represents
    pub fn from_item_text(text: &str) -> (r: Result<Self, AutosarAbstractionError>)
        ensures
            match Self::spec_from_item_text(text@) {
                Some(v) => r == Ok::<Self, AutosarAbstractionError>(v),
                None => r matches Err(e) && is_value_conversion_error(e, text@, "EventGroupControlType"@),
            },
    {
        if text_equals(text, "ACTIVATION-AND-TRIGGER-UNICAST") {
            Ok(EventGroupControlType::ActivationAndTriggerUnicast)
        } else if text_equals(text, "ACTIVATION-MULTICAST") {
            Ok(EventGroupControlType::ActivationMulticast)
        } else if text_equals(text, "ACTIVATION-UNICAST") {
            Ok(EventGroupControlType::ActivationUnicast)
        } else if text_equals(text, "TRIGGER-UNICAST") {
            Ok(EventGroupControlType::TriggerUnicast)
        } else {
            Err(AutosarAbstractionError::ValueConversionError { value: text.to_owned(), dest: "EventGroupControlType".to_owned() })
        }
    }
}

impl TryFrom<EnumItem> for EventGroupControlType {
    type Error = AutosarAbstractionError;

    fn try_from(value: EnumItem) -> (r: Result<Self, Self::Error>)
        ensures
            match Self::spec_from_item_text(spec_enum_item_text(value)) {
                Some(v) => r == Ok::<Self, AutosarAbstractionError>(v),
                None => r matches Err(e) && is_value_conversion_error(e, spec_enum_item_text(value), "EventGroupControlType"@),
            },
    {
        let text = enum_item_to_text(value);
        EventGroupControlType::from_item_text(&text)
    }
}

impl TryFromSpecImpl<EnumItem> for EventGroupControlType {
    open spec fn obeys_try_from_spec() -> bool {
        false
    }

    open spec fn try_from_spec(v: EnumItem) -> Result<Self, AutosarAbstractionError> {
        arbitrary()
    }
}

impl From<EventGroupControlType> for EnumItem {
    fn from(value: EventGroupControlType) -> (r: EnumItem)
        ensures
            spec_enum_item_text(r) == value.spec_item_text(),
    {
        event_group_control_type_item(value)
    }
}

impl FromSpecImpl<EventGroupControlType> for EnumItem {
    open spec fn obeys_from_spec() -> bool {
        false
    }

    open spec fn from_spec(v: EventGroupControlType) -> EnumItem {
        arbitrary()
    }
}

/// The XML text of a value of `EventGroupControlType` gives back the value.
pub proof fn lemma_event_group_control_type_roundtrip(v: EventGroupControlType)
    ensures
        EventGroupControlType::spec_from_item_text(v.spec_item_text()) == Some(v),
{
    reveal_strlit("ACTIVATION-AND-TRIGGER-UNICAST");
    reveal_strlit("ACTIVATION-MULTICAST");
    reveal_strlit("ACTIVATION-UNICAST");
    reveal_strlit("TRIGGER-UNICAST");
    match v {
        EventGroupControlType::ActivationAndTriggerUnicast => {
        },
        EventGroupControlType::ActivationMulticast => {
            assert("ACTIVATION-MULTICAST"@.len() != "ACTIVATION-AND-TRIGGER-UNICAST"@.len());
        },
        EventGroupControlType::ActivationUnicast => {
            assert("ACTIVATION-UNICAST"@.len() != "ACTIVATION-AND-TRIGGER-UNICAST"@.len());
            assert("ACTIVATION-UNICAST"@.len() != "ACTIVATION-MULTICAST"@.len());
        },
        EventGroupControlType::TriggerUnicast => {
            assert("TRIGGER-UNICAST"@.len() != "ACTIVATION-AND-TRIGGER-UNICAST"@.len());
            assert("TRIGGER-UNICAST"@.len() != "ACTIVATION-MULTICAST"@.len());
            assert("TRIGGER-UNICAST"@.len() != "ACTIVATION-UNICAST"@.len());
        },
    }
}

//#########################################################

/// Defines whether the sending of a PDU triggers the sending of the collected PDUs
#[derive(Debug, Clone, Copy, PartialEq, Eq, Hash, Structural)]
pub enum PduCollectionTrigger {
    /// Every PDU that is transmitted triggers the sending of the collected PDUs
    Always,
    /// The PDU is collected and sent when another PDU triggers the sending
    Never,
}

impl PduCollectionTrigger {
    /// the XML text that represents the value in the model
    pub open spec fn spec_item_text(self) -> Seq<char> {
        match self {
            PduCollectionTrigger::Always => "ALWAYS"@,
            PduCollectionTrigger::Never => "NEVER"@,
        }
    }

    /// the value that an XML text represents, if there is one
    pub open spec fn spec_from_item_text(text: Seq<char>) -> Option<Self> {
        if text == "ALWAYS"@ {
            Some(PduCollectionTrigger::Always)
        } else if text == "NEVER"@ {
            Some(PduCollectionTrigger::Never)
        } else {
            None
        }
    }

    /// the XML text that represents the value in the model
    pub fn item_text(&self) -> (r: &'static str)
        ensures
            r@ == self.spec_item_text(),
    {
        match self {
            PduCollectionTrigger::Always => "ALWAYS",
            PduCollectionTrigger::Never => "NEVER",
        }
    }

    /// the value that an XML text represents
    pub fn from_item_text(text: &str) -> (r: Result<Self, AutosarAbstractionError>)
        ensures
            match Self::spec_from_item_text(text@) {
                Some(v) => r == Ok::<Self, AutosarAbstractionError>(v),
                None => r matches Err(e) && is_value_conversion_error(e, text@, "PduCollectionTrigger"@),
            },
    {
        if text_equals(text, "ALWAYS") {
            Ok(PduCollectionTrigger::Always)
        } else if text_equals(text, "NEVER") {
            Ok(PduCollectionTrigger::Never)
        } else {
            Err(AutosarAbstractionError::ValueConversionError { value: text.to_owned(), dest: "PduCollectionTrigger".to_owned() })
        }
    }
}

impl TryFrom<EnumItem> for PduCollectionTrigger {
    type Error = AutosarAbstractionError;

    fn try_from(value: EnumItem) -> (r: Result<Self, Self::Error>)
        ensures
            match Self::spec_from_item_text(spec_enum_item_text(value)) {
                Some(v) => r == Ok::<Self, AutosarAbstractionError>(v),
                None => r matches Err(e) && is_value_conversion_error(e, spec_enum_item_text(value), "PduCollectionTrigger"@),
            },
    {
        let text = enum_item_to_text(value);
        PduCollectionTrigger::from_item_text(&text)
    }
}

impl TryFromSpecImpl<EnumItem> for PduCollectionTrigger {
    open spec fn obeys_try_from_spec() -> bool {
        false
    }

    open spec fn try_from_spec(v: EnumItem) -> Result<Self, AutosarAbstractionError> {
        arbitrary()
    }
}

impl From<PduCollectionTrigger> for EnumItem {
    fn from(value: PduCollectionTrigger) -> (r: EnumItem)
        ensures
            spec_enum_item_text(r) == value.spec_item_text(),
    {
        pdu_collection_trigger_item(value)
    }
}

impl FromSpecImpl<PduCollectionTrigger> for EnumItem {
    open spec fn obeys_from_spec() -> bool {
        false
    }

    open spec fn from_spec(v: PduCollectionTrigger) -> EnumItem {
        arbitrary()
    }
}

/// The XML text of a value of `PduCollectionTrigger` gives back the value.
pub proof fn lemma_pdu_collection_trigger_roundtrip(v: PduCollectionTrigger)
    ensures
        PduCollectionTrigger::spec_from_item_text(v.spec_item_text()) == Some(v),
{
    reveal_strlit("ALWAYS");
    reveal_strlit("NEVER");
    match v {
        PduCollectionTrigger::Always => {
        },
        PduCollectionTrigger::Never => {
            assert("NEVER"@.len() != "ALWAYS"@.len());
        },
    }
}

//#########################################################

/// A `PduTriggering`: the triggering of a PDU in a physical channel
#[derive(Debug, Clone, PartialEq, Eq, Hash)]
pub struct PduTriggering(Element);

impl AbstractionElement for PduTriggering {
    closed spec fn spec_element(&self) -> Element {
        self.0
    }

    fn element(&self) -> (r: &Element) {
        proof {
            assert(self.spec_element() == self.0);
        }
        &self.0
    }
}

impl PduTriggering {
    /// wrap an element of the model whose element name is `PDU-TRIGGERING`
    pub fn from_element(element: Element) -> (r: Result<Self, AutosarAbstractionError>)
        ensures
            r is Ok <==> spec_element_name(element) == "PDU-TRIGGERING"@,
            r matches Ok(x) ==> x.spec_element() == element,
            r matches Err(e) ==> is_conversion_error(e, element, "PduTriggering"@),
    {
        if has_element_name(&element, "PDU-TRIGGERING") {
            Ok(PduTriggering(element))
        } else {
            Err(AutosarAbstractionError::ConversionError { element, dest: "PduTriggering".to_owned() })
        }
    }
}

impl TryFrom<Element> for PduTriggering {
    type Error = AutosarAbstractionError;

    fn try_from(element: Element) -> (r: Result<Self, Self::Error>)
        ensures
            r is Ok <==> spec_element_name(element) == "PDU-TRIGGERING"@,
            r matches Ok(x) ==> x.spec_element() == element,
            r matches Err(e) ==> is_conversion_error(e, element, "PduTriggering"@),
    {
        PduTriggering::from_element(element)
    }
}

impl TryFromSpecImpl<Element> for PduTriggering {
    open spec fn obeys_try_from_spec() -> bool {
        false
    }

    open spec fn try_from_spec(v: Element) -> Result<Self, AutosarAbstractionError> {
        arbitrary()
    }
}

impl From<PduTriggering> for Element {
    fn from(value: PduTriggering) -> (r: Element)
        ensures
            r == value.spec_element(),
    {
        value.0
    }
}

impl FromSpecImpl<PduTriggering> for Element {
    open spec fn obeys_from_spec() -> bool {
        false
    }

    open spec fn from_spec(v: PduTriggering) -> Element {
        arbitrary()
    }
}

impl IdentifiableAbstractionElement for PduTriggering {}

//#########################################################

/// A `SoConIPduIdentifier`: the identifier of a PDU in a socket connection of the newer socket adaptor configuration
#[derive(Debug, Clone, PartialEq, Eq, Hash)]
pub struct SoConIPduIdentifier(Element);

impl AbstractionElement for SoConIPduIdentifier {
    closed spec fn spec_element(&self) -> Element {
        self.0
    }

    fn element(&self) -> (r: &Element) {
        proof {
            assert(self.spec_element() == self.0);
        }
        &self.0
    }
}

impl SoConIPduIdentifier {
    /// wrap an element of the model whose element name is `SO-CON-I-PDU-IDENTIFIER`
    pub fn from_element(element: Element) -> (r: Result<Self, AutosarAbstractionError>)
        ensures
            r is Ok <==> spec_element_name(element) == "SO-CON-I-PDU-IDENTIFIER"@,
            r matches Ok(x) ==> x.spec_element() == element,
            r matches Err(e) ==> is_conversion_error(e, element, "SoConIPduIdentifier"@),
    {
        if has_element_name(&element, "SO-CON-I-PDU-IDENTIFIER") {
            Ok(SoConIPduIdentifier(element))
        } else {
            Err(AutosarAbstractionError::ConversionError { element, dest: "SoConIPduIdentifier".to_owned() })
        }
    }
}

impl TryFrom<Element> for SoConIPduIdentifier {
    type Error = AutosarAbstractionError;

    fn try_from(element: Element) -> (r: Result<Self, Self::Error>)
        ensures
            r is Ok <==> spec_element_name(element) == "SO-CON-I-PDU-IDENTIFIER"@,
            r matches Ok(x) ==> x.spec_element() == element,
            r matches Err(e) ==> is_conversion_error(e, element, "SoConIPduIdentifier"@),
    {
        SoConIPduIdentifier::from_element(element)
    }
}

impl TryFromSpecImpl<Element> for SoConIPduIdentifier {
    open spec fn obeys_try_from_spec() -> bool {
        false
    }

    open spec fn try_from_spec(v: Element) -> Result<Self, AutosarAbstractionError> {
        arbitrary()
    }
}

impl From<SoConIPduIdentifier> for Element {
    fn from(value: SoConIPduIdentifier) -> (r: Element)
        ensures
            r == value.spec_element(),
    {
        value.0
    }
}

impl FromSpecImpl<SoConIPduIdentifier> for Element {
    open spec fn obeys_from_spec() -> bool {
        false
    }

    open spec fn from_spec(v: SoConIPduIdentifier) -> Element {
        arbitrary()
    }
}

//#########################################################

/// A `SocketConnectionBundle` describes a connection between a server port and multiple client ports.
/// It contains multiple bundled connections, each transporting one or more PDUs.
#[derive(Debug, Clone, PartialEq, Eq, Hash)]
pub struct SocketConnectionBundle(Element);

impl AbstractionElement for SocketConnectionBundle {
    closed spec fn spec_element(&self) -> Element {
        self.0
    }

    fn element(&self) -> (r: &Element) {
        proof {
            assert(self.spec_element() == self.0);
        }
        &self.0
    }
}

impl SocketConnectionBundle {
    /// wrap an element of the model whose element name is `SOCKET-CONNECTION-BUNDLE`
    pub fn from_element(element: Element) -> (r: Result<Self, AutosarAbstractionError>)
        ensures
            r is Ok <==> spec_element_name(element) == "SOCKET-CONNECTION-BUNDLE"@,
            r matches Ok(x) ==> x.spec_element() == element,
            r matches Err(e) ==> is_conversion_error(e, element, "SocketConnectionBundle"@),
    {
        if has_element_name(&element, "SOCKET-CONNECTION-BUNDLE") {
            Ok(SocketConnectionBundle(element))
        } else {
            Err(AutosarAbstractionError::ConversionError { element, dest: "SocketConnectionBundle".to_owned() })
        }
    }
}

impl TryFrom<Element> for SocketConnectionBundle {
    type Error = AutosarAbstractionError;

    fn try_from(element: Element) -> (r: Result<Self, Self::Error>)
        ensures
            r is Ok <==> spec_element_name(element) == "SOCKET-CONNECTION-BUNDLE"@,
            r matches Ok(x) ==> x.spec_element() == element,
            r matches Err(e) ==> is_conversion_error(e, element, "SocketConnectionBundle"@),
    {
        SocketConnectionBundle::from_element(element)
    }
}

impl TryFromSpecImpl<Element> for SocketConnectionBundle {
    open spec fn obeys_try_from_spec() -> bool {
        false
    }

    open spec fn try_from_spec(v: Element) -> Result<Self, AutosarAbstractionError> {
        arbitrary()
    }
}

impl From<SocketConnectionBundle> for Element {
    fn from(value: SocketConnectionBundle) -> (r: Element)
        ensures
            r == value.spec_element(),
    {
        value.0
    }
}

impl FromSpecImpl<SocketConnectionBundle> for Element {
    open spec fn obeys_from_spec() -> bool {
        false
    }

    open spec fn from_spec(v: SocketConnectionBundle) -> Element {
        arbitrary()
    }
}

impl IdentifiableAbstractionElement for SocketConnectionBundle {}

impl SocketConnectionBundle {
    /// create a new `SocketConnectionBundle` with the given server port below `connections_elem`
    pub(crate) fn new(name: &str, server_port: &SocketAddress, connections_elem: &Element) -> (r: Result<
        Self,
        AutosarAbstractionError,
    >)
        ensures
            r matches Ok(x) ==> spec_element_name(x.spec_element()) == "SOCKET-CONNECTION-BUNDLE"@,
            r matches Err(e) ==> e is ModelError || e is InvalidParameter,
    {
        let elem = create_named_sub_element(connections_elem, "SOCKET-CONNECTION-BUNDLE", name)?;
        let bundle = Self(elem);
        bundle.set_server_port(server_port)?;
        Ok(bundle)
    }

    /// get the physical channel containing this socket connection bundle
    pub fn physical_channel(&self) -> (r: Result<EthernetPhysicalChannel, AutosarAbstractionError>)
        ensures
            r matches Ok(x) ==> spec_element_name(x.spec_element()) == "ETHERNET-PHYSICAL-CHANNEL"@,
            r matches Err(e) ==> e is ModelError || e is ConversionError || e is InvalidParameter,
    {
        match named_parent(self.element())? {
            Some(channel) => EthernetPhysicalChannel::from_element(channel),
            None => Err(AutosarAbstractionError::InvalidParameter("the bundle is not part of a channel".to_owned())),
        }
    }

    /// set the server port of this socket connection bundle
    pub fn set_server_port(&self, server_port: &SocketAddress) -> (r: Result<(), AutosarAbstractionError>)
        ensures
            r matches Err(e) ==> is_model_or_name_error(e, "SERVER-PORT-REF"@),
    {
        set_sub_element_target(self.element(), "SERVER-PORT-REF", server_port.element())
    }

    /// get the server port of this socket connection bundle
    pub fn server_port(&self) -> (r: Option<SocketAddress>)
        ensures
            r matches Some(x) ==> spec_element_name(x.spec_element()) == "SOCKET-ADDRESS"@,
    {
        match SocketAddress::from_element(sub_element_target(self.element(), "SERVER-PORT-REF")?) {
            Ok(item) => Some(item),
            Err(_) => None,
        }
    }

    /// create a bundled `SocketConnection` between the server port and a client port
    ///
    /// Both socket addresses must use the same transport protocol (see [`check_bundled_connection`]).
    pub fn create_bundled_connection(&self, client_port: &SocketAddress) -> (r: Result<
        SocketConnection,
        AutosarAbstractionError,
    >)
        ensures
            r matches Ok(x) ==> spec_element_name(x.spec_element()) == "SOCKET-CONNECTION"@,
            r matches Err(e) ==> e is ModelError || e is InvalidParameter,
    {
        let server_port = self.server_port();
        let own_tp_config = match &server_port {
            Some(port) => port.tp_config(),
            None => None,
        };
        let remote_tp_config = client_port.tp_config();
        check_bundled_connection(server_port.is_some(), &own_tp_config, &remote_tp_config)?;
        let connections = get_or_create_sub_element(self.element(), "BUNDLED-CONNECTIONS")?;
        let conn = create_sub_element(&connections, "SOCKET-CONNECTION")?;
        SocketConnection::new(conn, client_port)
    }

    /// all bundled connections in this socket connection bundle
    pub fn bundled_connections(&self) -> (r: Vec<SocketConnection>)
        ensures
            forall|i: int| 0 <= i < r.len() ==> spec_element_name(#[trigger] r@[i].spec_element()) == "SOCKET-CONNECTION"@,
    {
        let subs = list_elements(self.element(), "BUNDLED-CONNECTIONS");
        let mut result: Vec<SocketConnection> = Vec::new();
        for i in 0..subs.len()
            invariant
                forall|j: int| 0 <= j < result.len() ==> spec_element_name(#[trigger] result@[j].spec_element()) == "SOCKET-CONNECTION"@,
        {
            if let Ok(item) = SocketConnection::from_element(subs[i].clone()) {
                result.push(item);
            }
        }
        result
    }
}

/// the message with which a bundle without a server port refuses a connection
pub open spec fn missing_server_port_message() -> Seq<char> {
    "SocketConnectionBundle has no server port"@
}

/// the message with which a connection between two transport protocols is refused
pub open spec fn transport_mismatch_message() -> Seq<char> {
    "Both SocketAddresses must use the same transport protocol"@
}

/// whether two optional transport configurations are of the same protocol: both TCP, both UDP
/// or both absent
pub open spec fn spec_same_optional_protocol(a: Option<TpConfig>, b: Option<TpConfig>) -> bool {
    match (a, b) {
        (Some(TpConfig::TcpTp { .. }), Some(TpConfig::TcpTp { .. })) => true,
        (Some(TpConfig::UdpTp { .. }), Some(TpConfig::UdpTp { .. })) => true,
        (None, None) => true,
        _ => false,
    }
}

/// Check that a bundle can connect its server port to a client port.
///
/// The bundle needs a server port, and the transport configurations of the server port and the
/// client port must be of the same protocol, or both be absent.
pub fn check_bundled_connection(has_server_port: bool, own: &Option<TpConfig>, remote: &Option<TpConfig>) -> (r: Result<
    (),
    AutosarAbstractionError,
>)
    ensures
        r is Ok <==> has_server_port && spec_same_optional_protocol(*own, *remote),
        !has_server_port ==> (r matches Err(e) && is_invalid_parameter(e, missing_server_port_message())),
        has_server_port && !spec_same_optional_protocol(*own, *remote) ==> (r matches Err(e) && is_invalid_parameter(
            e,
            transport_mismatch_message(),
        )),
{
    if !has_server_port {
        return Err(AutosarAbstractionError::InvalidParameter("SocketConnectionBundle has no server port".to_owned()));
    }
    let same = match (own, remote) {
        (Some(a), Some(b)) => same_transport_protocol(a, b),
        (None, None) => true,
        _ => false,
    };
    if same {
        Ok(())
    } else {
        Err(AutosarAbstractionError::InvalidParameter(
            "Both SocketAddresses must use the same transport protocol".to_owned(),
        ))
    }
}

//#########################################################

/// A socketConnection inside a `SocketConnectionBundle` describes a single connection to a specific client port.
#[derive(Debug, Clone, PartialEq, Eq, Hash)]
pub struct SocketConnection(Element);

impl AbstractionElement for SocketConnection {
    closed spec fn spec_element(&self) -> Element {
        self.0
    }

    fn element(&self) -> (r: &Element) {
        proof {
            assert(self.spec_element() == self.0);
        }
        &self.0
    }
}

impl SocketConnection {
    /// wrap an element of the model whose element name is `SOCKET-CONNECTION`
    pub fn from_element(element: Element) -> (r: Result<Self, AutosarAbstractionError>)
        ensures
            r is Ok <==> spec_element_name(element) == "SOCKET-CONNECTION"@,
            r matches Ok(x) ==> x.spec_element() == element,
            r matches Err(e) ==> is_conversion_error(e, element, "SocketConnection"@),
    {
        if has_element_name(&element, "SOCKET-CONNECTION") {
            Ok(SocketConnection(element))
        } else {
            Err(AutosarAbstractionError::ConversionError { element, dest: "SocketConnection".to_owned() })
        }
    }
}

impl TryFrom<Element> for SocketConnection {
    type Error = AutosarAbstractionError;

    fn try_from(element: Element) -> (r: Result<Self, Self::Error>)
        ensures
            r is Ok <==> spec_element_name(element) == "SOCKET-CONNECTION"@,
            r matches Ok(x) ==> x.spec_element() == element,
            r matches Err(e) ==> is_conversion_error(e, element, "SocketConnection"@),
    {
        SocketConnection::from_element(element)
    }
}

impl TryFromSpecImpl<Element> for SocketConnection {
    open spec fn obeys_try_from_spec() -> bool {
        false
    }

    open spec fn try_from_spec(v: Element) -> Result<Self, AutosarAbstractionError> {
        arbitrary()
    }
}

impl From<SocketConnection> for Element {
    fn from(value: SocketConnection) -> (r: Element)
        ensures
            r == value.spec_element(),
    {
        value.0
    }
}

impl FromSpecImpl<SocketConnection> for Element {
    open spec fn obeys_from_spec() -> bool {
        false
    }

    open spec fn from_spec(v: SocketConnection) -> Element {
        arbitrary()
    }
}

impl SocketConnection {
    /// the PDU header id of SD messages
    pub const SD_HEADER_ID: u32 = 0xFFFF_8100u32;

    /// wrap a new `SOCKET-CONNECTION` element and set its client port
    pub(crate) fn new(conn: Element, client_port: &SocketAddress) -> (r: Result<Self, AutosarAbstractionError>)
        requires
            spec_element_name(conn) == "SOCKET-CONNECTION"@,
        ensures
            r matches Ok(x) ==> spec_element_name(x.spec_element()) == "SOCKET-CONNECTION"@,
            r matches Err(e) ==> e is ModelError || e is InvalidParameter,
    {
        let connection = Self(conn);
        connection.set_client_port(client_port)?;
        Ok(connection)
    }

    /// get the socket connection bundle containing this socket connection
    pub fn socket_connection_bundle(&self) -> (r: Result<SocketConnectionBundle, AutosarAbstractionError>)
        ensures
            r matches Ok(x) ==> spec_element_name(x.spec_element()) == "SOCKET-CONNECTION-BUNDLE"@,
            r matches Err(e) ==> e is ModelError || e is ConversionError || e is InvalidParameter,
    {
        match named_parent(self.element())? {
            Some(bundle) => SocketConnectionBundle::from_element(bundle),
            None => Err(AutosarAbstractionError::InvalidParameter("the connection is not part of a bundle".to_owned())),
        }
    }

    /// set the client port of this socket connection
    pub fn set_client_port(&self, client_port: &SocketAddress) -> (r: Result<(), AutosarAbstractionError>)
        ensures
            r matches Err(e) ==> is_model_or_name_error(e, "CLIENT-PORT-REF"@),
    {
        set_sub_element_target(self.element(), "CLIENT-PORT-REF", client_port.element())
    }

    /// get the client port of this socket connection
    pub fn client_port(&self) -> (r: Option<SocketAddress>)
        ensures
            r matches Some(x) ==> spec_element_name(x.spec_element()) == "SOCKET-ADDRESS"@,
    {
        match SocketAddress::from_element(sub_element_target(self.element(), "CLIENT-PORT-REF")?) {
            Ok(item) => Some(item),
            Err(_) => None,
        }
    }

    /// all `SocketConnectionIpduIdentifier`s in this socket connection
    pub fn socket_connection_ipdu_identifiers(&self) -> (r: Vec<SocketConnectionIpduIdentifier>)
        ensures
            forall|i: int| 0 <= i < r.len() ==> spec_element_name(#[trigger] r@[i].spec_element()) == "SOCKET-CONNECTION-IPDU-IDENTIFIER"@,
    {
        let subs = list_elements(self.element(), "PDUS");
        let mut result: Vec<SocketConnectionIpduIdentifier> = Vec::new();
        for i in 0..subs.len()
            invariant
                forall|j: int| 0 <= j < result.len() ==> spec_element_name(#[trigger] result@[j].spec_element()) == "SOCKET-CONNECTION-IPDU-IDENTIFIER"@,
        {
            if let Ok(item) = SocketConnectionIpduIdentifier::from_element(subs[i].clone()) {
                result.push(item);
            }
        }
        result
    }

    /// all PDU triggerings in this socket connection
    pub fn pdu_triggerings(&self) -> (r: Vec<PduTriggering>)
        ensures
            forall|i: int| 0 <= i < r.len() ==> spec_element_name(#[trigger] r@[i].spec_element()) == "PDU-TRIGGERING"@,
    {
        let identifiers = list_elements(self.element(), "PDUS");
        let mut result: Vec<PduTriggering> = Vec::new();
        for i in 0..identifiers.len()
            invariant
                forall|j: int| 0 <= j < result.len() ==> spec_element_name(#[trigger] result@[j].spec_element()) == "PDU-TRIGGERING"@,
        {
            if let Some(target) = sub_element_target(&identifiers[i], "PDU-TRIGGERING-REF") {
                if let Ok(pdu_triggering) = PduTriggering::from_element(target) {
                    result.push(pdu_triggering);
                }
            }
        }
        result
    }

    /// set or remove the `client_ip_addr_from_connection_request` attribute for this socket connection
    ///
    /// `Some(true)` sets the attribute to "true", `Some(false)` to "false", and `None` removes it
    pub fn set_client_ip_addr_from_connection_request(&self, value: Option<bool>) -> (r: Result<(), AutosarAbstractionError>)
        ensures
            r matches Err(e) ==> is_model_or_name_error(e, "CLIENT-IP-ADDR-FROM-CONNECTION-REQUEST"@),
    {
        match value {
            Some(value) => {
                let value_elem = get_or_create_sub_element(self.element(), "CLIENT-IP-ADDR-FROM-CONNECTION-REQUEST")?;
                set_character_data_text(&value_elem, if value { "true" } else { "false" })
            },
            None => {
                let _ = remove_sub_element_kind(self.element(), "CLIENT-IP-ADDR-FROM-CONNECTION-REQUEST");
                Ok(())
            },
        }
    }

    /// get the value of the `client_ip_addr_from_connection_request` attribute for this socket connection
    pub fn client_ip_addr_from_connection_request(&self) -> Option<bool> {
        sub_element_bool(self.element(), "CLIENT-IP-ADDR-FROM-CONNECTION-REQUEST")
    }

    /// set or remove the `client_port_from_connection_request` attribute for this socket connection
    ///
    /// `Some(true)` sets the attribute to "true", `Some(false)` to "false", and `None` removes it
    pub fn set_client_port_from_connection_request(&self, value: Option<bool>) -> (r: Result<(), AutosarAbstractionError>)
        ensures
            r matches Err(e) ==> is_model_or_name_error(e, "CLIENT-PORT-FROM-CONNECTION-REQUEST"@),
    {
        match value {
            Some(value) => {
                let value_elem = get_or_create_sub_element(self.element(), "CLIENT-PORT-FROM-CONNECTION-REQUEST")?;
                set_character_data_text(&value_elem, if value { "true" } else { "false" })
            },
            None => {
                let _ = remove_sub_element_kind(self.element(), "CLIENT-PORT-FROM-CONNECTION-REQUEST");
                Ok(())
            },
        }
    }

    /// get the value of the `client_port_from_connection_request` attribute for this socket connection
    pub fn client_port_from_connection_request(&self) -> Option<bool> {
        sub_element_bool(self.element(), "CLIENT-PORT-FROM-CONNECTION-REQUEST")
    }

    /// set the `RuntimeIpAddressConfiguration` attribute for this socket connection
    ///
    /// If `state` is true, the attribute is set to "SD"; if it is false, the attribute is removed
    pub fn set_runtime_ip_address_configuration(&self, state: bool) -> (r: Result<(), AutosarAbstractionError>)
        ensures
            r matches Err(e) ==> is_model_or_name_error(e, "RUNTIME-IP-ADDRESS-CONFIGURATION"@) || is_model_or_name_error(e, "SD"@),
    {
        if state {
            let value_elem = get_or_create_sub_element(self.element(), "RUNTIME-IP-ADDRESS-CONFIGURATION")?;
            set_character_data_enum(&value_elem, "SD")
        } else {
            let _ = remove_sub_element_kind(self.element(), "RUNTIME-IP-ADDRESS-CONFIGURATION");
            Ok(())
        }
    }

    /// check if the value of the `RuntimeIpAddressConfiguration` attribute is "SD"
    pub fn runtime_ip_address_configuration(&self) -> bool {
        match sub_element_enum_text(self.element(), "RUNTIME-IP-ADDRESS-CONFIGURATION") {
            Some(text) => text_equals(&text, "SD"),
            None => false,
        }
    }

    /// set the `RuntimePortConfiguration` attribute for this socket connection
    ///
    /// If `state` is true, the attribute is set to "SD"; if it is false, the attribute is removed
    pub fn set_runtime_port_configuration(&self, state: bool) -> (r: Result<(), AutosarAbstractionError>)
        ensures
            r matches Err(e) ==> is_model_or_name_error(e, "RUNTIME-PORT-CONFIGURATION"@) || is_model_or_name_error(e, "SD"@),
    {
        if state {
            let value_elem = get_or_create_sub_element(self.element(), "RUNTIME-PORT-CONFIGURATION")?;
            set_character_data_enum(&value_elem, "SD")
        } else {
            let _ = remove_sub_element_kind(self.element(), "RUNTIME-PORT-CONFIGURATION");
            Ok(())
        }
    }

    /// check if the value of the `RuntimePortConfiguration` attribute is "SD"
    pub fn runtime_port_configuration(&self) -> bool {
        match sub_element_enum_text(self.element(), "RUNTIME-PORT-CONFIGURATION") {
            Some(text) => text_equals(&text, "SD"),
            None => false,
        }
    }
}

//#########################################################

/// A `SocketConnectionIpduIdentifier` is used to trigger a PDU in a `SocketConnection`.
///
/// In addition to the Pdu Triggering, it also contains associated settings like the
/// header id, timeout and collection trigger.
#[derive(Debug, Clone, PartialEq, Eq, Hash)]
pub struct SocketConnectionIpduIdentifier(Element);

impl AbstractionElement for SocketConnectionIpduIdentifier {
    closed spec fn spec_element(&self) -> Element {
        self.0
    }

    fn element(&self) -> (r: &Element) {
        proof {
            assert(self.spec_element() == self.0);
        }
        &self.0
    }
}

impl SocketConnectionIpduIdentifier {
    /// wrap an element of the model whose element name is `SOCKET-CONNECTION-IPDU-IDENTIFIER`
    pub fn from_element(element: Element) -> (r: Result<Self, AutosarAbstractionError>)
        ensures
            r is Ok <==> spec_element_name(element) == "SOCKET-CONNECTION-IPDU-IDENTIFIER"@,
            r matches Ok(x) ==> x.spec_element() == element,
            r matches Err(e) ==> is_conversion_error(e, element, "SocketConnectionIpduIdentifier"@),
    {
        if has_element_name(&element, "SOCKET-CONNECTION-IPDU-IDENTIFIER") {
            Ok(SocketConnectionIpduIdentifier(element))
        } else {
            Err(AutosarAbstractionError::ConversionError { element, dest: "SocketConnectionIpduIdentifier".to_owned() })
        }
    }
}

impl TryFrom<Element> for SocketConnectionIpduIdentifier {
    type Error = AutosarAbstractionError;

    fn try_from(element: Element) -> (r: Result<Self, Self::Error>)
        ensures
            r is Ok <==> spec_element_name(element) == "SOCKET-CONNECTION-IPDU-IDENTIFIER"@,
            r matches Ok(x) ==> x.spec_element() == element,
            r matches Err(e) ==> is_conversion_error(e, element, "SocketConnectionIpduIdentifier"@),
    {
        SocketConnectionIpduIdentifier::from_element(element)
    }
}

impl TryFromSpecImpl<Element> for SocketConnectionIpduIdentifier {
    open spec fn obeys_try_from_spec() -> bool {
        false
    }

    open spec fn try_from_spec(v: Element) -> Result<Self, AutosarAbstractionError> {
        arbitrary()
    }
}

impl From<SocketConnectionIpduIdentifier> for Element {
    fn from(value: SocketConnectionIpduIdentifier) -> (r: Element)
        ensures
            r == value.spec_element(),
    {
        value.0
    }
}

impl FromSpecImpl<SocketConnectionIpduIdentifier> for Element {
    open spec fn obeys_from_spec() -> bool {
        false
    }

    open spec fn from_spec(v: SocketConnectionIpduIdentifier) -> Element {
        arbitrary()
    }
}

impl SocketConnectionIpduIdentifier {
    /// get the `SocketConnection` containing this `SocketConnectionIpduIdentifier`
    pub fn socket_connection(&self) -> (r: Result<SocketConnection, AutosarAbstractionError>)
        ensures
            r matches Ok(x) ==> spec_element_name(x.spec_element()) == "SOCKET-CONNECTION"@,
            r matches Err(e) ==> e is ModelError || e is ConversionError || e is InvalidParameter,
    {
        // SOCKET-CONNECTION > PDUS > SOCKET-CONNECTION-IPDU-IDENTIFIER
        let pdus = match parent(self.element())? {
            Some(pdus) => pdus,
            None => return Err(AutosarAbstractionError::InvalidParameter("the identifier has no parent".to_owned())),
        };
        match parent(&pdus)? {
            Some(connection) => SocketConnection::from_element(connection),
            None => Err(AutosarAbstractionError::InvalidParameter("the identifier is not part of a connection".to_owned())),
        }
    }

    /// get the `PduTriggering` associated with this `SocketConnectionIpduIdentifier`
    pub fn pdu_triggering(&self) -> (r: Option<PduTriggering>)
        ensures
            r matches Some(x) ==> spec_element_name(x.spec_element()) == "PDU-TRIGGERING"@,
    {
        match PduTriggering::from_element(sub_element_target(self.element(), "PDU-TRIGGERING-REF")?) {
            Ok(item) => Some(item),
            Err(_) => None,
        }
    }

    /// set the header id for this `SocketConnectionIpduIdentifier`
    pub fn set_header_id(&self, header_id: u32) -> (r: Result<(), AutosarAbstractionError>)
        ensures
            r matches Err(e) ==> is_model_or_name_error(e, "HEADER-ID"@),
    {
        let value_elem = get_or_create_sub_element(self.element(), "HEADER-ID")?;
        set_character_data_text(&value_elem, &decimal_text(header_id as u64))
    }

    /// get the header id for this `SocketConnectionIpduIdentifier`
    pub fn header_id(&self) -> Option<u64> {
        parse_u64(&crate::values::sub_element_cdata(self.element(), "HEADER-ID")?)
    }

    /// set the collection trigger for this `SocketConnectionIpduIdentifier`; `None` removes it
    pub fn set_collection_trigger(&self, trigger: Option<PduCollectionTrigger>) -> (r: Result<(), AutosarAbstractionError>)
        ensures
            r matches Err(e) ==> is_model_or_name_error(e, "PDU-COLLECTION-TRIGGER"@) || (trigger matches Some(t) && is_model_or_name_error(e, t.spec_item_text())),
    {
        match trigger {
            Some(trigger) => {
                let value_elem = get_or_create_sub_element(self.element(), "PDU-COLLECTION-TRIGGER")?;
                set_character_data_enum(&value_elem, trigger.item_text())
            },
            None => {
                let _ = remove_sub_element_kind(self.element(), "PDU-COLLECTION-TRIGGER");
                Ok(())
            },
        }
    }

    /// get the collection trigger for this `SocketConnectionIpduIdentifier`
    pub fn collection_trigger(&self) -> Option<PduCollectionTrigger> {
        let text = sub_element_enum_text(self.element(), "PDU-COLLECTION-TRIGGER")?;
        match PduCollectionTrigger::from_item_text(&text) {
            Ok(value) => Some(value),
            Err(_) => None,
        }
    }

    /// add a reference to a `SoAdRoutingGroup` to this `SocketConnectionIpduIdentifier`
    pub fn add_routing_group(&self, routing_group: &SoAdRoutingGroup) -> (r: Result<(), AutosarAbstractionError>)
        ensures
            r matches Err(e) ==> e is ModelError || e is InvalidParameter,
    {
        add_list_reference(self.element(), "ROUTING-GROUP-REFS", "ROUTING-GROUP-REF", routing_group.element())
    }

    /// all `SoAdRoutingGroup`s referenced by this `SocketConnectionIpduIdentifier`
    pub fn routing_groups(&self) -> (r: Vec<SoAdRoutingGroup>)
        ensures
            forall|i: int| 0 <= i < r.len() ==> spec_element_name(#[trigger] r@[i].spec_element()) == "SO-AD-ROUTING-GROUP"@,
    {
        let targets = list_reference_targets(self.element(), "ROUTING-GROUP-REFS");
        let mut result: Vec<SoAdRoutingGroup> = Vec::new();
        for i in 0..targets.len()
            invariant
                forall|j: int| 0 <= j < result.len() ==> spec_element_name(#[trigger] result@[j].spec_element()) == "SO-AD-ROUTING-GROUP"@,
        {
            if let Ok(item) = SoAdRoutingGroup::from_element(targets[i].clone()) {
                result.push(item);
            }
        }
        result
    }
}

//#########################################################

/// A `SoAdRoutingGroup` is used to link `SomeIp` settings in Consumed/ProvidedServiceInstances
/// to the `SocketConnectionBundles` used for transmission.
/// `SoAdRoutingGroups` are part of the old way of configuring Ethernet communication in AUTOSAR.
#[derive(Debug, Clone, PartialEq, Eq, Hash)]
pub struct SoAdRoutingGroup(Element);

impl AbstractionElement for SoAdRoutingGroup {
    closed spec fn spec_element(&self) -> Element {
        self.0
    }

    fn element(&self) -> (r: &Element) {
        proof {
            assert(self.spec_element() == self.0);
        }
        &self.0
    }
}

impl SoAdRoutingGroup {
    /// wrap an element of the model whose element name is `SO-AD-ROUTING-GROUP`
    pub fn from_element(element: Element) -> (r: Result<Self, AutosarAbstractionError>)
        ensures
            r is Ok <==> spec_element_name(element) == "SO-AD-ROUTING-GROUP"@,
            r matches Ok(x) ==> x.spec_element() == element,
            r matches Err(e) ==> is_conversion_error(e, element, "SoAdRoutingGroup"@),
    {
        if has_element_name(&element, "SO-AD-ROUTING-GROUP") {
            Ok(SoAdRoutingGroup(element))
        } else {
            Err(AutosarAbstractionError::ConversionError { element, dest: "SoAdRoutingGroup".to_owned() })
        }
    }
}

impl TryFrom<Element> for SoAdRoutingGroup {
    type Error = AutosarAbstractionError;

    fn try_from(element: Element) -> (r: Result<Self, Self::Error>)
        ensures
            r is Ok <==> spec_element_name(element) == "SO-AD-ROUTING-GROUP"@,
            r matches Ok(x) ==> x.spec_element() == element,
            r matches Err(e) ==> is_conversion_error(e, element, "SoAdRoutingGroup"@),
    {
        SoAdRoutingGroup::from_element(element)
    }
}

impl TryFromSpecImpl<Element> for SoAdRoutingGroup {
    open spec fn obeys_try_from_spec() -> bool {
        false
    }

    open spec fn try_from_spec(v: Element) -> Result<Self, AutosarAbstractionError> {
        arbitrary()
    }
}

impl From<SoAdRoutingGroup> for Element {
    fn from(value: SoAdRoutingGroup) -> (r: Element)
        ensures
            r == value.spec_element(),
    {
        value.0
    }
}

impl FromSpecImpl<SoAdRoutingGroup> for Element {
    open spec fn obeys_from_spec() -> bool {
        false
    }

    open spec fn from_spec(v: SoAdRoutingGroup) -> Element {
        arbitrary()
    }
}

impl IdentifiableAbstractionElement for SoAdRoutingGroup {}

impl SoAdRoutingGroup {
    /// create a new `SoAdRoutingGroup` in the package
    pub(crate) fn new(name: &str, package: &ArPackage, control_type: Option<EventGroupControlType>) -> (r: Result<
        Self,
        AutosarAbstractionError,
    >)
        ensures
            r matches Ok(x) ==> spec_element_name(x.spec_element()) == "SO-AD-ROUTING-GROUP"@,
            r matches Err(e) ==> e is ModelError || e is InvalidParameter,
    {
        let elements = get_or_create_sub_element(package.element(), "ELEMENTS")?;
        let elem = create_named_sub_element(&elements, "SO-AD-ROUTING-GROUP", name)?;
        let routing_group = Self(elem);
        if let Some(control_type) = control_type {
            routing_group.set_control_type(control_type)?;
        }
        Ok(routing_group)
    }

    /// set the `EventGroupControlType` of this `SoAdRoutingGroup`
    pub fn set_control_type(&self, control_type: EventGroupControlType) -> (r: Result<(), AutosarAbstractionError>)
        ensures
            r matches Err(e) ==> is_model_or_name_error(e, "EVENT-GROUP-CONTROL-TYPE"@) || is_model_or_name_error(e, control_type.spec_item_text()),
    {
        let value_elem = get_or_create_sub_element(self.element(), "EVENT-GROUP-CONTROL-TYPE")?;
        set_character_data_enum(&value_elem, control_type.item_text())
    }

    /// get the `EventGroupControlType` of this `SoAdRoutingGroup`
    pub fn control_type(&self) -> Option<EventGroupControlType> {
        let text = sub_element_enum_text(self.element(), "EVENT-GROUP-CONTROL-TYPE")?;
        match EventGroupControlType::from_item_text(&text) {
            Ok(value) => Some(value),
            Err(_) => None,
        }
    }
}

} // verus!
