//! The SOME/IP transport protocol: the configuration, its channels and its connections.
//!
//! The timing values of a `SomeipTpChannel` are floating point values; they are read and written
//! outside this library.

use vstd::prelude::*;
use crate::elements::is_model_or_name_error;
use autosar_data::Element;
use vstd::std_specs::convert::{FromSpecImpl, TryFromSpecImpl};
use crate::{
    AbstractionElement, ArPackage, AutosarAbstractionError, IdentifiableAbstractionElement, has_element_name,
    is_conversion_error, is_invalid_parameter,
};
use crate::accessors::{list_elements, set_sub_element_target, sub_element_target};
use crate::communication::{Cluster, ISignalIPdu, PduTriggering, is_cluster_element_name};
use crate::elements::{
    create_named_sub_element, create_sub_element, element_name, get_or_create_sub_element, named_parent,
    remove_sub_element_kind, same_element, set_reference_target, spec_element_name,
};
use crate::text::text_equals;
use crate::values::sub_element_string;

verus! {

/// A `SomeipTpConfig` contains the configuration of individual `SomeIp` TP connections
#[derive(Debug, Clone, PartialEq, Eq, Hash)]
pub struct SomeipTpConfig(Element);

impl AbstractionElement for SomeipTpConfig {
    closed spec fn spec_element(&self) -> Element {
        self.0
    }

    fn element(&self) -> (r: &Element) {
        proof {
            assert(self.spec_element() == self.0);
        }
        &self.0
    }
}

impl SomeipTpConfig {
    /// wrap an element of the model whose element name is `SOMEIP-TP-CONFIG`
    pub fn from_element(element: Element) -> (r: Result<Self, AutosarAbstractionError>)
        ensures
            r is Ok <==> spec_element_name(element) == "SOMEIP-TP-CONFIG"@,
            r matches Ok(x) ==> x.spec_element() == element,
            r matches Err(e) ==> is_conversion_error(e, element, "SomeipTpConfig"@),
    {
        if has_element_name(&element, "SOMEIP-TP-CONFIG") {
            Ok(SomeipTpConfig(element))
        } else {
            Err(AutosarAbstractionError::ConversionError { element, dest: "SomeipTpConfig".to_owned() })
        }
    }
}

impl TryFrom<Element> for SomeipTpConfig {
    type Error = AutosarAbstractionError;

    fn try_from(element: Element) -> (r: Result<Self, Self::Error>)
        ensures
            r is Ok <==> spec_element_name(element) == "SOMEIP-TP-CONFIG"@,
            r matches Ok(x) ==> x.spec_element() == element,
            r matches Err(e) ==> is_conversion_error(e, element, "SomeipTpConfig"@),
    {
        SomeipTpConfig::from_element(element)
    }
}

impl TryFromSpecImpl<Element> for SomeipTpConfig {
    open spec fn obeys_try_from_spec() -> bool {
        false
    }

    open spec fn try_from_spec(v: Element) -> Result<Self, AutosarAbstractionError> {
        arbitrary()
    }
}

impl From<SomeipTpConfig> for Element {
    fn from(value: SomeipTpConfig) -> (r: Element)
        ensures
            r == value.spec_element(),
    {
        value.0
    }
}

impl FromSpecImpl<SomeipTpConfig> for Element {
    open spec fn obeys_from_spec() -> bool {
        false
    }

    open spec fn from_spec(v: SomeipTpConfig) -> Element {
        arbitrary()
    }
}

impl IdentifiableAbstractionElement for SomeipTpConfig {}

impl SomeipTpConfig {
    /// create a new `SomeipTpConfig` in the package, for the given cluster
    pub(crate) fn new(name: &str, package: &ArPackage, cluster: &Cluster) -> (r: Result<Self, AutosarAbstractionError>)
        ensures
            r matches Ok(x) ==> spec_element_name(x.spec_element()) == "SOMEIP-TP-CONFIG"@,
            r matches Err(e) ==> e is ModelError || e is InvalidParameter,
    {
        let elements = get_or_create_sub_element(package.element(), "ELEMENTS")?;
        let elem = create_named_sub_element(&elements, "SOMEIP-TP-CONFIG", name)?;
        let cluster_ref = create_sub_element(&elem, "COMMUNICATION-CLUSTER-REF")?;
        set_reference_target(&cluster_ref, cluster.element())?;
        Ok(Self(elem))
    }

    /// get the communication cluster of this `SomeipTpConfig`
    pub fn cluster(&self) -> (r: Option<Cluster>)
        ensures
            r matches Some(x) ==> is_cluster_element_name(spec_element_name(x.spec_element())),
    {
        match Cluster::from_element(sub_element_target(self.element(), "COMMUNICATION-CLUSTER-REF")?) {
            Ok(item) => Some(item),
            Err(_) => None,
        }
    }

    /// create a new `SomeipTpChannel` in this `SomeipTpConfig`
    pub fn create_someip_tp_channel(&self, name: &str) -> (r: Result<SomeipTpChannel, AutosarAbstractionError>)
        ensures
            r matches Ok(x) ==> spec_element_name(x.spec_element()) == "SOMEIP-TP-CHANNEL"@,
            r matches Err(e) ==> e is ModelError || e is InvalidParameter,
    {
        let container = get_or_create_sub_element(self.element(), "TP-CHANNELS")?;
        SomeipTpChannel::new(name, &container)
    }

    /// all `SomeipTpChannel`s in this `SomeipTpConfig`
    pub fn someip_tp_channels(&self) -> (r: Vec<SomeipTpChannel>)
        ensures
            forall|i: int| 0 <= i < r.len() ==> spec_element_name(#[trigger] r@[i].spec_element()) == "SOMEIP-TP-CHANNEL"@,
    {
        let subs = list_elements(self.element(), "TP-CHANNELS");
        let mut result: Vec<SomeipTpChannel> = Vec::new();
        for i in 0..subs.len()
            invariant
                forall|j: int| 0 <= j < result.len() ==> spec_element_name(#[trigger] result@[j].spec_element()) == "SOMEIP-TP-CHANNEL"@,
        {
            if let Ok(item) = SomeipTpChannel::from_element(subs[i].clone()) {
                result.push(item);
            }
        }
        result
    }

    /// all `SomeipTpConnection`s in this `SomeipTpConfig`
    pub fn someip_tp_connections(&self) -> (r: Vec<SomeipTpConnection>)
        ensures
            forall|i: int| 0 <= i < r.len() ==> spec_element_name(#[trigger] r@[i].spec_element()) == "SOMEIP-TP-CONNECTION"@,
    {
        let subs = list_elements(self.element(), "TP-CONNECTIONS");
        let mut result: Vec<SomeipTpConnection> = Vec::new();
        for i in 0..subs.len()
            invariant
                forall|j: int| 0 <= j < result.len() ==> spec_element_name(#[trigger] result@[j].spec_element()) == "SOMEIP-TP-CONNECTION"@,
        {
            if let Ok(item) = SomeipTpConnection::from_element(subs[i].clone()) {
                result.push(item);
            }
        }
        result
    }
}

//#########################################################

/// A `SomeipTpConnection` contains the configuration of a single `SomeIp` TP connection
#[derive(Debug, Clone, PartialEq, Eq, Hash)]
pub struct SomeipTpConnection(Element);

impl AbstractionElement for SomeipTpConnection {
    closed spec fn spec_element(&self) -> Element {
        self.0
    }

    fn element(&self) -> (r: &Element) {
        proof {
            assert(self.spec_element() == self.0);
        }
        &self.0
    }
}

impl SomeipTpConnection {
    /// wrap an element of the model whose element name is `SOMEIP-TP-CONNECTION`
    pub fn from_element(element: Element) -> (r: Result<Self, AutosarAbstractionError>)
        ensures
            r is Ok <==> spec_element_name(element) == "SOMEIP-TP-CONNECTION"@,
            r matches Ok(x) ==> x.spec_element() == element,
            r matches Err(e) ==> is_conversion_error(e, element, "SomeipTpConnection"@),
    {
        if has_element_name(&element, "SOMEIP-TP-CONNECTION") {
            Ok(SomeipTpConnection(element))
        } else {
            Err(AutosarAbstractionError::ConversionError { element, dest: "SomeipTpConnection".to_owned() })
        }
    }
}

impl TryFrom<Element> for SomeipTpConnection {
    type Error = AutosarAbstractionError;

    fn try_from(element: Element) -> (r: Result<Self, Self::Error>)
        ensures
            r is Ok <==> spec_element_name(element) == "SOMEIP-TP-CONNECTION"@,
            r matches Ok(x) ==> x.spec_element() == element,
            r matches Err(e) ==> is_conversion_error(e, element, "SomeipTpConnection"@),
    {
        SomeipTpConnection::from_element(element)
    }
}

impl TryFromSpecImpl<Element> for SomeipTpConnection {
    open spec fn obeys_try_from_spec() -> bool {
        false
    }

    open spec fn try_from_spec(v: Element) -> Result<Self, AutosarAbstractionError> {
        arbitrary()
    }
}

impl From<SomeipTpConnection> for Element {
    fn from(value: SomeipTpConnection) -> (r: Element)
        ensures
            r == value.spec_element(),
    {
        value.0
    }
}

impl FromSpecImpl<SomeipTpConnection> for Element {
    open spec fn obeys_from_spec() -> bool {
        false
    }

    open spec fn from_spec(v: SomeipTpConnection) -> Element {
        arbitrary()
    }
}

impl SomeipTpConnection {
    /// get the `SomeipTpConfig` that contains this `SomeipTpConnection`
    pub fn someip_tp_config(&self) -> (r: Result<SomeipTpConfig, AutosarAbstractionError>)
        ensures
            r matches Ok(x) ==> spec_element_name(x.spec_element()) == "SOMEIP-TP-CONFIG"@,
            r matches Err(e) ==> e is ModelError || e is ConversionError || e is InvalidParameter,
    {
        match named_parent(self.element())? {
            Some(parent) => SomeipTpConfig::from_element(parent),
            None => Err(AutosarAbstractionError::InvalidParameter("the connection is not part of a configuration".to_owned())),
        }
    }

    /// set the `PduTriggering` for the transport PDU of this `SomeipTpConnection`
    ///
    /// The transport PDU must be a `GeneralPurposeIPdu` of the category `SOMEIP_SEGMENTED_IPDU`
    /// (see [`check_transport_pdu_kind`]), and it must be triggered in a channel of the cluster of
    /// the `SomeipTpConfig` (see [`require_channel_cluster`] and [`check_same_cluster`]).
    pub fn set_transport_pdu_triggering(&self, transport_pdu_triggering: &PduTriggering) -> (r: Result<
        (),
        AutosarAbstractionError,
    >)
        ensures
            r matches Err(e) ==> e is ModelError || e is ConversionError || e is InvalidParameter,
    {
        let pdu = sub_element_target(transport_pdu_triggering.element(), "I-PDU-REF");
        let is_general_purpose_ipdu = match &pdu {
            Some(pdu) => has_element_name(pdu, "GENERAL-PURPOSE-I-PDU"),
            None => false,
        };
        let is_segmented = match &pdu {
            Some(pdu) => match sub_element_string(pdu, "CATEGORY") {
                Some(category) => text_equals(&category, "SOMEIP_SEGMENTED_IPDU"),
                None => false,
            },
            None => false,
        };
        check_transport_pdu_kind(is_general_purpose_ipdu, is_segmented)?;

        // the physical channel of the transport PDU is currently the only link to the cluster
        let channel = triggering_channel(transport_pdu_triggering)?;
        let channel_cluster = match named_parent(&channel)? {
            Some(parent) => match Cluster::from_element(parent) {
                Ok(cluster) => Some(cluster),
                Err(_) => None,
            },
            None => None,
        };
        let channel_cluster = require_channel_cluster(channel_cluster)?;
        let config_cluster = self.someip_tp_config()?.cluster();
        check_same_cluster(&channel_cluster, &config_cluster)?;

        let transport_ref = create_sub_element(self.element(), "TRANSPORT-PDU-REF")?;
        set_reference_target(&transport_ref, transport_pdu_triggering.element())
    }

    /// get the `PduTriggering` for the transport PDU of this `SomeipTpConnection`
    pub fn transport_pdu_triggering(&self) -> (r: Option<PduTriggering>)
        ensures
            r matches Some(x) ==> spec_element_name(x.spec_element()) == "PDU-TRIGGERING"@,
    {
        match PduTriggering::from_element(sub_element_target(self.element(), "TRANSPORT-PDU-REF")?) {
            Ok(item) => Some(item),
            Err(_) => None,
        }
    }

    /// get the `TpSdu` of this `SomeipTpConnection`: the `ISignalIPdu` that its PDU triggering triggers
    pub fn tp_sdu(&self) -> (r: Option<ISignalIPdu>)
        ensures
            r matches Some(x) ==> spec_element_name(x.spec_element()) == "I-SIGNAL-I-PDU"@,
    {
        let tp_sdu_triggering = match PduTriggering::from_element(sub_element_target(self.element(), "TP-SDU-REF")?) {
            Ok(pdu_triggering) => pdu_triggering,
            Err(_) => return None,
        };
        match ISignalIPdu::from_element(sub_element_target(tp_sdu_triggering.element(), "I-PDU-REF")?) {
            Ok(ipdu) => Some(ipdu),
            Err(_) => None,
        }
    }

    /// set the `TpChannel` of this `SomeipTpConnection`; `None` removes it
    pub fn set_tp_channel(&self, tp_channel: Option<SomeipTpChannel>) -> (r: Result<(), AutosarAbstractionError>)
        ensures
            r matches Err(e) ==> is_model_or_name_error(e, "TP-CHANNEL-REF"@),
    {
        match tp_channel {
            Some(tp_channel) => set_sub_element_target(self.element(), "TP-CHANNEL-REF", tp_channel.element()),
            None => {
                let _ = remove_sub_element_kind(self.element(), "TP-CHANNEL-REF");
                Ok(())
            },
        }
    }

    /// get the `TpChannel` of this `SomeipTpConnection`
    pub fn tp_channel(&self) -> (r: Option<SomeipTpChannel>)
        ensures
            r matches Some(x) ==> spec_element_name(x.spec_element()) == "SOMEIP-TP-CHANNEL"@,
    {
        match SomeipTpChannel::from_element(sub_element_target(self.element(), "TP-CHANNEL-REF")?) {
            Ok(item) => Some(item),
            Err(_) => None,
        }
    }
}

/// the element names of the kinds of physical channel
pub open spec fn is_physical_channel_element_name(name: Seq<char>) -> bool {
    ||| name == "CAN-PHYSICAL-CHANNEL"@
    ||| name == "ETHERNET-PHYSICAL-CHANNEL"@
    ||| name == "FLEXRAY-PHYSICAL-CHANNEL"@
    ||| name == "LIN-PHYSICAL-CHANNEL"@
}

/// the physical channel that contains a PDU triggering
fn triggering_channel(pdu_triggering: &PduTriggering) -> (r: Result<Element, AutosarAbstractionError>)
    ensures
        r matches Ok(channel) ==> is_physical_channel_element_name(spec_element_name(channel)),
        r matches Err(e) ==> e is ModelError || e is ConversionError || e is InvalidParameter,
{
    let channel = match named_parent(pdu_triggering.element())? {
        Some(channel) => channel,
        None => return Err(AutosarAbstractionError::InvalidParameter("invalid PduTriggering".to_owned())),
    };
    let name = element_name(&channel);
    if text_equals(&name, "CAN-PHYSICAL-CHANNEL") || text_equals(&name, "ETHERNET-PHYSICAL-CHANNEL") || text_equals(
        &name,
        "FLEXRAY-PHYSICAL-CHANNEL",
    ) || text_equals(&name, "LIN-PHYSICAL-CHANNEL") {
        Ok(channel)
    } else {
        Err(AutosarAbstractionError::ConversionError { element: channel, dest: "PhysicalChannel".to_owned() })
    }
}

/// the message with which a transport PDU that is no `GeneralPurposeIPdu` is refused
pub open spec fn not_general_purpose_message() -> Seq<char> {
    "Invalid transport PDU for the SomeIpTpConnection: it must be a GeneralPurposeIPdu"@
}

/// the message with which a transport PDU of another category is refused
pub open spec fn not_segmented_message() -> Seq<char> {
    "Invalid transport PDU for the SomeIpTpConnection: it must be a segmented IPDU"@
}

/// the message with which a transport PDU outside of any cluster is refused
pub open spec fn no_channel_cluster_message() -> Seq<char> {
    "Invalid physical channel or cluster of the transport PDU"@
}

/// the message with which a `SomeipTpConfig` without a cluster refuses a transport PDU
pub open spec fn no_config_cluster_message() -> Seq<char> {
    "Invalid SomeIpTpConfig: missing cluster reference"@
}

/// the message with which a transport PDU of another cluster is refused
pub open spec fn other_cluster_message() -> Seq<char> {
    "The transport PDU must be in the same cluster as the SomeIpTpConfig"@
}

/// Check the kind of a transport PDU: it must be a `GeneralPurposeIPdu`, and its category must be
/// `SOMEIP_SEGMENTED_IPDU`.
pub fn check_transport_pdu_kind(is_general_purpose_ipdu: bool, is_segmented: bool) -> (r: Result<
    (),
    AutosarAbstractionError,
>)
    ensures
        r is Ok <==> is_general_purpose_ipdu && is_segmented,
        !is_general_purpose_ipdu ==> (r matches Err(e) && is_invalid_parameter(e, not_general_purpose_message())),
        is_general_purpose_ipdu && !is_segmented ==> (r matches Err(e) && is_invalid_parameter(
            e,
            not_segmented_message(),
        )),
{
    if !is_general_purpose_ipdu {
        Err(AutosarAbstractionError::InvalidParameter(
            "Invalid transport PDU for the SomeIpTpConnection: it must be a GeneralPurposeIPdu".to_owned(),
        ))
    } else if !is_segmented {
        Err(AutosarAbstractionError::InvalidParameter(
            "Invalid transport PDU for the SomeIpTpConnection: it must be a segmented IPDU".to_owned(),
        ))
    } else {
        Ok(())
    }
}

/// The cluster of the channel of a transport PDU; a channel outside of any cluster is refused.
pub fn require_channel_cluster(channel_cluster: Option<Cluster>) -> (r: Result<Cluster, AutosarAbstractionError>)
    ensures
        channel_cluster matches Some(c) ==> r == Ok::<Cluster, AutosarAbstractionError>(c),
        channel_cluster is None ==> (r matches Err(e) && is_invalid_parameter(e, no_channel_cluster_message())),
{
    match channel_cluster {
        Some(cluster) => Ok(cluster),
        None => Err(AutosarAbstractionError::InvalidParameter("Invalid physical channel or cluster of the transport PDU".to_owned())),
    }
}

/// Check that the cluster of a transport PDU is the cluster of the `SomeipTpConfig`.
pub fn check_same_cluster(channel_cluster: &Cluster, config_cluster: &Option<Cluster>) -> (r: Result<
    (),
    AutosarAbstractionError,
>)
    ensures
        *config_cluster is None ==> (r matches Err(e) && is_invalid_parameter(e, no_config_cluster_message())),
        config_cluster matches Some(c) ==> ((r is Ok <==> c.spec_element() == channel_cluster.spec_element()) && (r matches Err(
            e,
        ) ==> is_invalid_parameter(e, other_cluster_message()))),
{
    match config_cluster {
        None => Err(AutosarAbstractionError::InvalidParameter("Invalid SomeIpTpConfig: missing cluster reference".to_owned())),
        Some(cluster) => if same_element(cluster.element(), channel_cluster.element()) {
            Ok(())
        } else {
            Err(AutosarAbstractionError::InvalidParameter(
                "The transport PDU must be in the same cluster as the SomeIpTpConfig".to_owned(),
            ))
        },
    }
}

//#########################################################

/// General settings for a `SomeIp` TP channel
///
/// version >= `AUTOSAR_00046`
#[derive(Debug, Clone, PartialEq, Eq, Hash)]
pub struct SomeipTpChannel(Element);

impl AbstractionElement for SomeipTpChannel {
    closed spec fn spec_element(&self) -> Element {
        self.0
    }

    fn element(&self) -> (r: &Element) {
        proof {
            assert(self.spec_element() == self.0);
        }
        &self.0
    }
}

impl SomeipTpChannel {
    /// wrap an element of the model whose element name is `SOMEIP-TP-CHANNEL`
    pub fn from_element(element: Element) -> (r: Result<Self, AutosarAbstractionError>)
        ensures
            r is Ok <==> spec_element_name(element) == "SOMEIP-TP-CHANNEL"@,
            r matches Ok(x) ==> x.spec_element() == element,
            r matches Err(e) ==> is_conversion_error(e, element, "SomeipTpChannel"@),
    {
        if has_element_name(&element, "SOMEIP-TP-CHANNEL") {
            Ok(SomeipTpChannel(element))
        } else {
            Err(AutosarAbstractionError::ConversionError { element, dest: "SomeipTpChannel".to_owned() })
        }
    }
}

impl TryFrom<Element> for SomeipTpChannel {
    type Error = AutosarAbstractionError;

    fn try_from(element: Element) -> (r: Result<Self, Self::Error>)
        ensures
            r is Ok <==> spec_element_name(element) == "SOMEIP-TP-CHANNEL"@,
            r matches Ok(x) ==> x.spec_element() == element,
            r matches Err(e) ==> is_conversion_error(e, element, "SomeipTpChannel"@),
    {
        SomeipTpChannel::from_element(element)
    }
}

impl TryFromSpecImpl<Element> for SomeipTpChannel {
    open spec fn obeys_try_from_spec() -> bool {
        false
    }

    open spec fn try_from_spec(v: Element) -> Result<Self, AutosarAbstractionError> {
        arbitrary()
    }
}

impl From<SomeipTpChannel> for Element {
    fn from(value: SomeipTpChannel) -> (r: Element)
        ensures
            r == value.spec_element(),
    {
        value.0
    }
}

impl FromSpecImpl<SomeipTpChannel> for Element {
    open spec fn obeys_from_spec() -> bool {
        false
    }

    open spec fn from_spec(v: SomeipTpChannel) -> Element {
        arbitrary()
    }
}

impl IdentifiableAbstractionElement for SomeipTpChannel {}

impl SomeipTpChannel {
    /// create a new `SomeipTpChannel` below `parent`
    pub(crate) fn new(name: &str, parent: &Element) -> (r: Result<Self, AutosarAbstractionError>)
        ensures
            r matches Ok(x) ==> spec_element_name(x.spec_element()) == "SOMEIP-TP-CHANNEL"@,
            r matches Err(e) ==> e is ModelError || e is InvalidParameter,
    {
        let elem = create_named_sub_element(parent, "SOMEIP-TP-CHANNEL", name)?;
        Ok(Self(elem))
    }
}

} // verus!
