//! Network endpoints: the address information of a connection on an ethernet channel.

use vstd::prelude::*;
use autosar_data::{Element, EnumItem};
use vstd::std_specs::convert::{FromSpecImpl, TryFromSpecImpl};
use crate::{
    AbstractionElement, AutosarAbstractionError, IdentifiableAbstractionElement, has_element_name,
    is_conversion_error, is_invalid_parameter,
};
use crate::communication::EthernetPhysicalChannel;
use crate::elements::{
    CharData, create_named_sub_element, create_sub_element, element_name, get_or_create_sub_element,
    get_sub_element, remove_sub_element, set_character_data_enum, set_character_data_text, spec_element_name,
    spec_enum_item_text, sub_elements, ipv4_address_source_item,
};
use crate::text::text_equals;
use crate::values::{sub_element_cdata, sub_element_string};

verus! {

/// A network endpoint contains address information for a connection
#[derive(Debug, Clone, PartialEq, Eq, Hash)]
pub struct NetworkEndpoint(Element);

impl AbstractionElement for NetworkEndpoint {
    closed spec fn spec_element(&self) -> Element {
        self.0
    }

    fn element(&self) -> (r: &Element) {
        proof {
            assert(self.spec_element() == self.0);
        }
        &self.0
    }
}

impl NetworkEndpoint {
    /// wrap an element of the model whose element name is `NETWORK-ENDPOINT`
    pub fn from_element(element: Element) -> (r: Result<Self, AutosarAbstractionError>)
        ensures
            r is Ok <==> spec_element_name(element) == "NETWORK-ENDPOINT"@,
            r matches Ok(x) ==> x.spec_element() == element,
            r matches Err(e) ==> is_conversion_error(e, element, "NetworkEndpoint"@),
    {
        if has_element_name(&element, "NETWORK-ENDPOINT") {
            Ok(NetworkEndpoint(element))
        } else {
            Err(AutosarAbstractionError::ConversionError { element, dest: "NetworkEndpoint".to_owned() })
        }
    }
}

impl TryFrom<Element> for NetworkEndpoint {
    type Error = AutosarAbstractionError;

    fn try_from(element: Element) -> (r: Result<Self, Self::Error>)
        ensures
            r is Ok <==> spec_element_name(element) == "NETWORK-ENDPOINT"@,
            r matches Ok(x) ==> x.spec_element() == element,
            r matches Err(e) ==> is_conversion_error(e, element, "NetworkEndpoint"@),
    {
        NetworkEndpoint::from_element(element)
    }
}

impl TryFromSpecImpl<Element> for NetworkEndpoint {
    open spec fn obeys_try_from_spec() -> bool {
        false
    }

    open spec fn try_from_spec(v: Element) -> Result<Self, AutosarAbstractionError> {
        arbitrary()
    }
}

impl From<NetworkEndpoint> for Element {
    fn from(value: NetworkEndpoint) -> (r: Element)
        ensures
            r == value.spec_element(),
    {
        value.0
    }
}

impl FromSpecImpl<NetworkEndpoint> for Element {
    open spec fn obeys_from_spec() -> bool {
        false
    }

    open spec fn from_spec(v: NetworkEndpoint) -> Element {
        arbitrary()
    }
}

impl IdentifiableAbstractionElement for NetworkEndpoint {}

/// the message of the error for an address whose IP version differs from the existing addresses
pub open spec fn mixed_versions_message() -> Seq<char> {
    "you cannot mix IPv4 and IPv6 inside one NetworkEndpoint"@
}

/// the message of the error for a second fixed address
pub open spec fn second_fixed_message() -> Seq<char> {
    "Only one NetworkEndpointAddress can be a fixed address"@
}

impl NetworkEndpoint {
    /// Create a new network endpoint in the channel, with a first address.
    ///
    /// If the address cannot be added, the new endpoint is removed again.
    pub fn new(name: &str, channel: &EthernetPhysicalChannel, address: NetworkEndpointAddress) -> (r: Result<
        Self,
        AutosarAbstractionError,
    >)
        ensures
            r matches Err(e) ==> e is ModelError || e is InvalidParameter,
    {
        let endpoints = get_or_create_sub_element(channel.element(), "NETWORK-ENDPOINTS")?;
        let el_network_endpoint = create_named_sub_element(&endpoints, "NETWORK-ENDPOINT", name)?;
        let network_endpoint = NetworkEndpoint(el_network_endpoint);
        match network_endpoint.add_network_endpoint_address(address) {
            Ok(()) => Ok(network_endpoint),
            Err(error) => {
                let _ = remove_sub_element(&endpoints, network_endpoint.0);
                Err(error)
            },
        }
    }

    /// add a network endpoint address to this `NetworkEndpoint`
    ///
    /// A `NetworkEndpoint` may have multiple sets of address information. The following restrictions apply:
    ///
    /// - all addresses must have the same type, i.e. all IPv4 or all IPv6
    /// - only one of them may be a `Fixed` address, all others must be dynamic (DHCP, automatic link local, etc.)
    ///
    /// The check of these restrictions against the existing addresses is
    /// [`check_network_endpoint_address`].
    pub fn add_network_endpoint_address(&self, address: NetworkEndpointAddress) -> (r: Result<(), AutosarAbstractionError>)
        ensures
            r matches Err(e) ==> e is ModelError || e is InvalidParameter,
    {
        let existing = self.addresses();
        check_network_endpoint_address(&existing, &address)?;
        let addresses = get_or_create_sub_element(self.element(), "NETWORK-ENDPOINT-ADDRESSES")?;
        write_network_endpoint_address(&addresses, address)
    }

    /// all addresses in the `NetworkEndpoint`
    pub fn addresses(&self) -> Vec<NetworkEndpointAddress> {
        let mut result: Vec<NetworkEndpointAddress> = Vec::new();
        if let Some(addresses) = get_sub_element(self.element(), "NETWORK-ENDPOINT-ADDRESSES") {
            let subs = sub_elements(&addresses);
            for i in 0..subs.len() {
                if let Ok(address) = NetworkEndpointAddress::from_element(subs[i].clone()) {
                    result.push(address);
                }
            }
        }
        result
    }
}

/// Check a new address against the existing addresses of a network endpoint.
///
/// The new address must have the IP version of all existing addresses, and at most
/// one address of all may be a fixed address.
pub fn check_network_endpoint_address(existing: &Vec<NetworkEndpointAddress>, address: &NetworkEndpointAddress) -> (r:
    Result<(), AutosarAbstractionError>)
    ensures
        spec_mixes_versions(existing@, *address) ==> (r matches Err(e) && is_invalid_parameter(
            e,
            mixed_versions_message(),
        )),
        !spec_mixes_versions(existing@, *address) && spec_fixed_total(existing@, *address) > 1 ==> (r matches Err(e)
            && is_invalid_parameter(e, second_fixed_message())),
        r is Ok <==> !spec_mixes_versions(existing@, *address) && spec_fixed_total(existing@, *address) <= 1,
{
    let mut fixedcount: usize = if is_fixed_address(address) { 1 } else { 0 };
    let is_v4 = is_ipv4_address(address);
    for i in 0..existing.len()
        invariant
            is_v4 == address.spec_is_ipv4(),
            forall|j: int| 0 <= j < i ==> (#[trigger] existing@[j]).spec_is_ipv4() == address.spec_is_ipv4(),
            fixedcount as int == capped_count(
                (if address.spec_is_fixed() { 1int } else { 0int }) + spec_fixed_count(existing@.take(i as int)),
            ),
    {
        proof {
            assert(existing@.take(i + 1int).drop_last() =~= existing@.take(i as int));
        }
        if is_ipv4_address(&existing[i]) != is_v4 {
            proof {
                assert(existing@[i as int].spec_is_ipv4() != address.spec_is_ipv4());
            }
            return Err(
                AutosarAbstractionError::InvalidParameter(
                    "you cannot mix IPv4 and IPv6 inside one NetworkEndpoint".to_owned(),
                ),
            );
        }
        if is_fixed_address(&existing[i]) && fixedcount < 2 {
            fixedcount = fixedcount + 1;
        }
    }
    proof {
        assert(existing@.take(existing@.len() as int) =~= existing@);
    }
    if fixedcount > 1 {
        return Err(
            AutosarAbstractionError::InvalidParameter("Only one NetworkEndpointAddress can be a fixed address".to_owned()),
        );
    }
    Ok(())
}

/// the addresses of a network endpoint are valid: all have one IP version, and at most one is fixed
pub open spec fn spec_addresses_valid(s: Seq<NetworkEndpointAddress>) -> bool {
    &&& forall|i: int, j: int|
        0 <= i < s.len() && 0 <= j < s.len() ==> (#[trigger] s[i]).spec_is_ipv4() == (#[trigger] s[j]).spec_is_ipv4()
    &&& spec_fixed_count(s) <= 1
}

/// the number of fixed addresses grows by one exactly for a fixed address that is appended
pub proof fn lemma_fixed_count_push(s: Seq<NetworkEndpointAddress>, a: NetworkEndpointAddress)
    ensures
        spec_fixed_count(s.push(a)) == spec_fixed_count(s) + if a.spec_is_fixed() { 1nat } else { 0nat },
{
    assert(s.push(a).drop_last() =~= s);
}

/// Adding an address to valid addresses keeps them valid exactly when
/// [`check_network_endpoint_address`] accepts it: the check of `add_network_endpoint_address`
/// refuses precisely the addresses that would break the rules of a network endpoint.
pub proof fn lemma_check_keeps_addresses_valid(existing: Seq<NetworkEndpointAddress>, address: NetworkEndpointAddress)
    requires
        spec_addresses_valid(existing),
    ensures
        (!spec_mixes_versions(existing, address) && spec_fixed_total(existing, address) <= 1) <==> spec_addresses_valid(
            existing.push(address),
        ),
{
    let s = existing.push(address);
    lemma_fixed_count_push(existing, address);
    if !spec_mixes_versions(existing, address) && spec_fixed_total(existing, address) <= 1 {
        assert forall|i: int, j: int| 0 <= i < s.len() && 0 <= j < s.len() implies (#[trigger] s[i]).spec_is_ipv4()
            == (#[trigger] s[j]).spec_is_ipv4() by {
            if i < existing.len() {
                assert(s[i] == existing[i]);
                assert(existing[i].spec_is_ipv4() == address.spec_is_ipv4());
            }
            if j < existing.len() {
                assert(s[j] == existing[j]);
                assert(existing[j].spec_is_ipv4() == address.spec_is_ipv4());
            }
        }
    }
    if spec_mixes_versions(existing, address) {
        let i = choose|i: int| 0 <= i < existing.len() && (#[trigger] existing[i]).spec_is_ipv4() != address.spec_is_ipv4();
        assert(s[i] == existing[i]);
        assert(s[existing.len() as int] == address);
        assert(s[i].spec_is_ipv4() != s[existing.len() as int].spec_is_ipv4());
    }
}

/// a count, capped at two: enough to tell zero, one and more than one apart
pub open spec fn capped_count(n: int) -> int {
    if n > 2 { 2 } else { n }
}

/// some existing address has another IP version than the new one
pub open spec fn spec_mixes_versions(existing: Seq<NetworkEndpointAddress>, address: NetworkEndpointAddress) -> bool {
    exists|i: int| 0 <= i < existing.len() && (#[trigger] existing[i]).spec_is_ipv4() != address.spec_is_ipv4()
}

/// the number of fixed addresses in a sequence
pub open spec fn spec_fixed_count(s: Seq<NetworkEndpointAddress>) -> nat
    decreases s.len(),
{
    if s.len() == 0 {
        0
    } else {
        spec_fixed_count(s.drop_last()) + if s.last().spec_is_fixed() { 1nat } else { 0nat }
    }
}

/// the number of fixed addresses among the existing ones and the new one
pub open spec fn spec_fixed_total(existing: Seq<NetworkEndpointAddress>, address: NetworkEndpointAddress) -> int {
    spec_fixed_count(existing) + if address.spec_is_fixed() { 1int } else { 0int }
}

fn is_fixed_address(address: &NetworkEndpointAddress) -> (r: bool)
    ensures
        r == address.spec_is_fixed(),
{
    match address {
        NetworkEndpointAddress::IPv4 { address_source, .. } => match address_source {
            Some(IPv4AddressSource::Fixed) => true,
            _ => false,
        },
        NetworkEndpointAddress::IPv6 { address_source, .. } => match address_source {
            Some(IPv6AddressSource::Fixed) => true,
            _ => false,
        },
    }
}

fn is_ipv4_address(address: &NetworkEndpointAddress) -> (r: bool)
    ensures
        r == address.spec_is_ipv4(),
{
    match address {
        NetworkEndpointAddress::IPv4 { .. } => true,
        NetworkEndpointAddress::IPv6 { .. } => false,
    }
}

/// create the configuration element of an address in the NETWORK-ENDPOINT-ADDRESSES element
fn write_network_endpoint_address(addresses: &Element, address: NetworkEndpointAddress) -> (r: Result<
    (),
    AutosarAbstractionError,
>)
    ensures
        r matches Err(e) ==> e is ModelError || e is InvalidParameter,
{
    match address {
        NetworkEndpointAddress::IPv4 { address, address_source, default_gateway, network_mask } => {
            let cfg = create_sub_element(addresses, "IPV-4-CONFIGURATION")?;
            if let Some(addr) = address {
                set_character_data_text(&create_sub_element(&cfg, "IPV-4-ADDRESS")?, addr.as_str())?;
            }
            if let Some(addr_src) = address_source {
                set_character_data_enum(&create_sub_element(&cfg, "IPV-4-ADDRESS-SOURCE")?, addr_src.item_text())?;
            }
            if let Some(defgw) = default_gateway {
                set_character_data_text(&create_sub_element(&cfg, "DEFAULT-GATEWAY")?, defgw.as_str())?;
            }
            if let Some(netmask) = network_mask {
                set_character_data_text(&create_sub_element(&cfg, "NETWORK-MASK")?, netmask.as_str())?;
            }
        },
        NetworkEndpointAddress::IPv6 { address, address_source, default_router } => {
            let cfg = create_sub_element(addresses, "IPV-6-CONFIGURATION")?;
            if let Some(addr) = address {
                set_character_data_text(&create_sub_element(&cfg, "IPV-6-ADDRESS")?, addr.as_str())?;
            }
            if let Some(addr_src) = address_source {
                set_character_data_enum(&create_sub_element(&cfg, "IPV-6-ADDRESS-SOURCE")?, addr_src.item_text())?;
            }
            if let Some(dr) = default_router {
                set_character_data_text(&create_sub_element(&cfg, "DEFAULT-ROUTER")?, dr.as_str())?;
            }
        },
    }
    Ok(())
}

//##################################################################

/// address information for a network endpoint
#[derive(Debug, Clone, PartialEq, Eq)]
pub enum NetworkEndpointAddress {
    /// IPv4 addressing information
    IPv4 {
        /// IPv4 address in the form "a.b.c.d". This is used if the address source is FIXED
        address: Option<String>,
        /// defines how the address is obtained
        address_source: Option<IPv4AddressSource>,
        /// ip address of the default gateway
        default_gateway: Option<String>,
        /// Network mask in the form "a.b.c.d"
        network_mask: Option<String>,
    },
    /// IPv6 addressing information
    IPv6 {
        /// IPv6 address, without abbreviation
        address: Option<String>,
        /// defines how the address is obtained
        address_source: Option<IPv6AddressSource>,
        /// IP address of the default router
        default_router: Option<String>,
    },
}

impl NetworkEndpointAddress {
    /// the address is an IPv4 address
    pub open spec fn spec_is_ipv4(self) -> bool {
        self is IPv4
    }

    /// the address is obtained as a fixed address
    pub open spec fn spec_is_fixed(self) -> bool {
        match self {
            NetworkEndpointAddress::IPv4 { address_source, .. } => address_source == Some(IPv4AddressSource::Fixed),
            NetworkEndpointAddress::IPv6 { address_source, .. } => address_source == Some(IPv6AddressSource::Fixed),
        }
    }

    /// read the address information from an IPV-4-CONFIGURATION or IPV-6-CONFIGURATION element
    pub fn from_element(element: Element) -> (r: Result<Self, AutosarAbstractionError>)
        ensures
            r matches Ok(a) ==> (a is IPv4 <==> spec_element_name(element) == "IPV-4-CONFIGURATION"@),
            r matches Ok(a) ==> (a is IPv6 <==> spec_element_name(element) == "IPV-6-CONFIGURATION"@),
            r is Ok <==> spec_element_name(element) == "IPV-4-CONFIGURATION"@ || spec_element_name(element)
                == "IPV-6-CONFIGURATION"@,
            r matches Err(e) ==> is_conversion_error(e, element, "NetwworkEndpointAddress"@),
    {
        proof {
            reveal_strlit("IPV-4-CONFIGURATION");
            reveal_strlit("IPV-6-CONFIGURATION");
            assert("IPV-4-CONFIGURATION"@[4] != "IPV-6-CONFIGURATION"@[4]);
        }
        let name = element_name(&element);
        if text_equals(&name, "IPV-4-CONFIGURATION") {
            let address = sub_element_string(&element, "IPV-4-ADDRESS");
            let address_source = match sub_element_cdata(&element, "IPV-4-ADDRESS-SOURCE") {
                Some(cdata) => IPv4AddressSource::from_cdata(&cdata),
                None => None,
            };
            let default_gateway = sub_element_string(&element, "DEFAULT-GATEWAY");
            let network_mask = sub_element_string(&element, "NETWORK-MASK");
            Ok(NetworkEndpointAddress::IPv4 { address, address_source, default_gateway, network_mask })
        } else if text_equals(&name, "IPV-6-CONFIGURATION") {
            let address = sub_element_string(&element, "IPV-6-ADDRESS");
            let address_source = match sub_element_cdata(&element, "IPV-6-ADDRESS-SOURCE") {
                Some(cdata) => IPv6AddressSource::from_cdata(&cdata),
                None => None,
            };
            let default_router = sub_element_string(&element, "DEFAULT-ROUTER");
            Ok(NetworkEndpointAddress::IPv6 { address, address_source, default_router })
        } else {
            Err(
                AutosarAbstractionError::ConversionError { element, dest: "NetwworkEndpointAddress".to_owned() },
            )
        }
    }
}

impl TryFrom<Element> for NetworkEndpointAddress {
    type Error = AutosarAbstractionError;

    fn try_from(element: Element) -> (r: Result<Self, Self::Error>)
        ensures
            r matches Ok(a) ==> (a is IPv4 <==> spec_element_name(element) == "IPV-4-CONFIGURATION"@),
            r matches Ok(a) ==> (a is IPv6 <==> spec_element_name(element) == "IPV-6-CONFIGURATION"@),
            r is Ok <==> spec_element_name(element) == "IPV-4-CONFIGURATION"@ || spec_element_name(element)
                == "IPV-6-CONFIGURATION"@,
            r matches Err(e) ==> is_conversion_error(e, element, "NetwworkEndpointAddress"@),
    {
        NetworkEndpointAddress::from_element(element)
    }
}

impl TryFromSpecImpl<Element> for NetworkEndpointAddress {
    open spec fn obeys_try_from_spec() -> bool {
        false
    }

    open spec fn try_from_spec(v: Element) -> Result<Self, AutosarAbstractionError> {
        arbitrary()
    }
}

//##################################################################

/// `IPv4AddressSource` defines how the address of an IPv4 `NetworkEndpoint` is obtained
#[derive(Debug, Clone, Copy, PartialEq, Eq, Structural)]
pub enum IPv4AddressSource {
    /// use `AutoIp` (aka APIPA) to assign a link-local address
    AutoIp,
    /// use `AutoIp` with `DoIp` settings to assign a link-local address
    AutoIpDoIp,
    /// dynamic assignment using DHCP
    DHCPv4,
    /// static IP address configuration - the address must be specified in `NetworkEndpointAddress`
    Fixed,
}

impl IPv4AddressSource {
    /// the XML text of the enum item that represents the address source in the model
    pub open spec fn spec_item_text(self) -> Seq<char> {
        match self {
            IPv4AddressSource::AutoIp => "AUTO-IP"@,
            IPv4AddressSource::AutoIpDoIp => "AUTO-IP--DOIP"@,
            IPv4AddressSource::DHCPv4 => "DHCPV-4"@,
            IPv4AddressSource::Fixed => "FIXED"@,
        }
    }

    /// the address source that an enum item text represents, if there is one
    pub open spec fn spec_from_item_text(text: Seq<char>) -> Option<Self> {
        if text == "AUTO-IP"@ {
            Some(IPv4AddressSource::AutoIp)
        } else if text == "AUTO-IP--DOIP"@ {
            Some(IPv4AddressSource::AutoIpDoIp)
        } else if text == "DHCPV-4"@ {
            Some(IPv4AddressSource::DHCPv4)
        } else if text == "FIXED"@ {
            Some(IPv4AddressSource::Fixed)
        } else {
            None
        }
    }

    /// the XML text of the enum item that represents the address source in the model
    pub fn item_text(&self) -> (r: &'static str)
        ensures
            r@ == self.spec_item_text(),
    {
        match self {
            IPv4AddressSource::AutoIp => "AUTO-IP",
            IPv4AddressSource::AutoIpDoIp => "AUTO-IP--DOIP",
            IPv4AddressSource::DHCPv4 => "DHCPV-4",
            IPv4AddressSource::Fixed => "FIXED",
        }
    }

    /// the address source held by the character content of an element, if there is one
    pub fn from_cdata(cdata: &CharData) -> (r: Option<Self>)
        ensures
            r == (match *cdata {
                CharData::Enum(t) => Self::spec_from_item_text(t@),
                _ => None,
            }),
    {
        match cdata {
            CharData::Enum(t) => {
                if text_equals(t.as_str(), "AUTO-IP") {
                    Some(IPv4AddressSource::AutoIp)
                } else if text_equals(t.as_str(), "AUTO-IP--DOIP") {
                    Some(IPv4AddressSource::AutoIpDoIp)
                } else if text_equals(t.as_str(), "DHCPV-4") {
                    Some(IPv4AddressSource::DHCPv4)
                } else if text_equals(t.as_str(), "FIXED") {
                    Some(IPv4AddressSource::Fixed)
                } else {
                    None
                }
            },
            _ => None,
        }
    }
}

impl From<IPv4AddressSource> for EnumItem {
    fn from(value: IPv4AddressSource) -> (r: EnumItem)
        ensures
            spec_enum_item_text(r) == value.spec_item_text(),
    {
        ipv4_address_source_item(value)
    }
}

impl FromSpecImpl<IPv4AddressSource> for EnumItem {
    open spec fn obeys_from_spec() -> bool {
        false
    }

    open spec fn from_spec(v: IPv4AddressSource) -> EnumItem {
        arbitrary()
    }
}

/// The enum item text of an IPv4 address source gives back the address source.
pub proof fn lemma_ipv4_address_source_roundtrip(s: IPv4AddressSource)
    ensures
        IPv4AddressSource::spec_from_item_text(s.spec_item_text()) == Some(s),
{
    reveal_strlit("AUTO-IP");
    reveal_strlit("AUTO-IP--DOIP");
    reveal_strlit("DHCPV-4");
    reveal_strlit("FIXED");
    let t = s.spec_item_text();
    assert(t.len() != 7 ==> t != "AUTO-IP"@);
    assert(t.len() != 13 ==> t != "AUTO-IP--DOIP"@);
    assert(t.len() != 7 ==> t != "DHCPV-4"@);
    assert(t[0] != 'A' ==> t != "AUTO-IP"@);
}

/// `IPv6AddressSource` defines how the address of an IPv6 `NetworkEndpoint` is obtained
#[derive(Debug, Clone, Copy, PartialEq, Eq, Structural)]
pub enum IPv6AddressSource {
    /// dynamic assignment using DHCP
    DHCPv6,
    /// static IP address configuration - the address must be specified in `NetworkEndpointAddress`
    Fixed,
    /// automatic link local address assignment
    LinkLocal,
    /// automatic link local address assignment using doip parameters
    LinkLocalDoIp,
    /// IPv6 stateless autoconfiguration
    RouterAdvertisement,
}

impl IPv6AddressSource {
    /// the XML text of the enum item that represents the address source in the model
    pub open spec fn spec_item_text(self) -> Seq<char> {
        match self {
            IPv6AddressSource::DHCPv6 => "DHCPV-6"@,
            IPv6AddressSource::Fixed => "FIXED"@,
            IPv6AddressSource::LinkLocal => "LINK-LOCAL"@,
            IPv6AddressSource::LinkLocalDoIp => "LINK-LOCAL--DOIP"@,
            IPv6AddressSource::RouterAdvertisement => "ROUTER-ADVERTISEMENT"@,
        }
    }

    /// the address source that an enum item text represents, if there is one
    pub open spec fn spec_from_item_text(text: Seq<char>) -> Option<Self> {
        if text == "DHCPV-6"@ {
            Some(IPv6AddressSource::DHCPv6)
        } else if text == "FIXED"@ {
            Some(IPv6AddressSource::Fixed)
        } else if text == "LINK-LOCAL"@ {
            Some(IPv6AddressSource::LinkLocal)
        } else if text == "LINK-LOCAL--DOIP"@ {
            Some(IPv6AddressSource::LinkLocalDoIp)
        } else if text == "ROUTER-ADVERTISEMENT"@ {
            Some(IPv6AddressSource::RouterAdvertisement)
        } else {
            None
        }
    }

    /// the XML text of the enum item that represents the address source in the model
    pub fn item_text(&self) -> (r: &'static str)
        ensures
            r@ == self.spec_item_text(),
    {
        match self {
            IPv6AddressSource::DHCPv6 => "DHCPV-6",
            IPv6AddressSource::Fixed => "FIXED",
            IPv6AddressSource::LinkLocal => "LINK-LOCAL",
            IPv6AddressSource::LinkLocalDoIp => "LINK-LOCAL--DOIP",
            IPv6AddressSource::RouterAdvertisement => "ROUTER-ADVERTISEMENT",
        }
    }

    /// the address source held by the character content of an element, if there is one
    pub fn from_cdata(cdata: &CharData) -> (r: Option<Self>)
        ensures
            r == (match *cdata {
                CharData::Enum(t) => Self::spec_from_item_text(t@),
                _ => None,
            }),
    {
        match cdata {
            CharData::Enum(t) => {
                if text_equals(t.as_str(), "DHCPV-6") {
                    Some(IPv6AddressSource::DHCPv6)
                } else if text_equals(t.as_str(), "FIXED") {
                    Some(IPv6AddressSource::Fixed)
                } else if text_equals(t.as_str(), "LINK-LOCAL") {
                    Some(IPv6AddressSource::LinkLocal)
                } else if text_equals(t.as_str(), "LINK-LOCAL--DOIP") {
                    Some(IPv6AddressSource::LinkLocalDoIp)
                } else if text_equals(t.as_str(), "ROUTER-ADVERTISEMENT") {
                    Some(IPv6AddressSource::RouterAdvertisement)
                } else {
                    None
                }
            },
            _ => None,
        }
    }
}

/// The enum item text of an IPv6 address source gives back the address source.
pub proof fn lemma_ipv6_address_source_roundtrip(s: IPv6AddressSource)
    ensures
        IPv6AddressSource::spec_from_item_text(s.spec_item_text()) == Some(s),
{
    reveal_strlit("DHCPV-6");
    reveal_strlit("FIXED");
    reveal_strlit("LINK-LOCAL");
    reveal_strlit("LINK-LOCAL--DOIP");
    reveal_strlit("ROUTER-ADVERTISEMENT");
    let t = s.spec_item_text();
    assert(t.len() != 7 ==> t != "DHCPV-6"@);
    assert(t.len() != 5 ==> t != "FIXED"@);
    assert(t.len() != 10 ==> t != "LINK-LOCAL"@);
    assert(t.len() != 16 ==> t != "LINK-LOCAL--DOIP"@);
}

} // verus!
