//! The container inventory: what the runtime reports of each container, and
//! the network records that are made of it.

use vstd::prelude::*;
use strip_prefix_suffix_sane::StripPrefixSuffixSane;
use crate::address::Ipv4Address;
use crate::address::Ipv6Address;
use crate::strip_prefix_sane::without_prefix;

verus! {

/// How the container runtime is reached.
#[derive(Debug, Clone)]
pub struct DockerClientConfig {
    pub socket_path: String,
    pub timeout_seconds: u64,
}

impl Default for DockerClientConfig {
    /// The local socket of the runtime, and two minutes for each request.
    fn default() -> (config: Self)
        ensures
            config.socket_path@ == "/var/run/docker.sock"@,
            config.timeout_seconds == 120,
    {
        DockerClientConfig {
            socket_path: "/var/run/docker.sock".to_owned(),
            timeout_seconds: 120,
        }
    }
}

/// The characters of each text of a list.
pub open spec fn texts(names: Seq<String>) -> Seq<Seq<char>> {
    Seq::new(names.len(), |i: int| names[i]@)
}

/// One container's names and addresses.
#[derive(Debug, Clone)]
pub struct NetworkInfo {
    pub names: Vec<String>,
    pub ipv4_addresses: Vec<Ipv4Address>,
    pub ipv6_addresses: Vec<Ipv6Address>,
}

/// A network record as a mathematical value.
pub struct NetworkInfoModel {
    pub names: Seq<Seq<char>>,
    pub ipv4_addresses: Seq<Ipv4Address>,
    pub ipv6_addresses: Seq<Ipv6Address>,
}

impl NetworkInfoModel {
    /// Whether the record holds an address, as every record of an inventory does.
    pub open spec fn has_address(self) -> bool {
        self.ipv4_addresses.len() > 0 || self.ipv6_addresses.len() > 0
    }
}

impl View for NetworkInfo {
    type V = NetworkInfoModel;

    open spec fn view(&self) -> NetworkInfoModel {
        NetworkInfoModel {
            names: texts(self.names@),
            ipv4_addresses: self.ipv4_addresses@,
            ipv6_addresses: self.ipv6_addresses@,
        }
    }
}

/// The records of a list as mathematical values.
pub open spec fn records(infos: Seq<NetworkInfo>) -> Seq<NetworkInfoModel> {
    Seq::new(infos.len(), |i: int| infos[i]@)
}

/// Why an inventory could not be had.
#[derive(Debug, Clone, Copy, PartialEq, Eq, Structural)]
pub enum RefreshError {
    /// The runtime did not answer, or answered with an error.
    Upstream,
    /// The runtime took longer than the refresh timeout allows.
    Timeout,
}

impl RefreshError {
    /// The failure in words.
    pub fn message(&self) -> (text: String)
        ensures
            text@ == match *self {
                RefreshError::Upstream => "Failed to list containers"@,
                RefreshError::Timeout => "Docker API refresh timeout"@,
            },
    {
        match self {
            RefreshError::Upstream => "Failed to list containers".to_owned(),
            RefreshError::Timeout => "Docker API refresh timeout".to_owned(),
        }
    }
}

/// What a request for the inventory brought, as a mathematical value.
pub open spec fn fetched_inventory(fetched: Result<Vec<NetworkInfo>, RefreshError>) -> Result<
    Seq<NetworkInfoModel>,
    RefreshError,
> {
    match fetched {
        Ok(infos) => Ok(records(infos@)),
        Err(error) => Err(error),
    }
}

/// A source of the current container inventory.
pub trait NetworkInfoProvider {
    /// Whether the provider, as it is, may answer a request for the inventory
    /// with `fetched`. Each provider says for itself what it may answer; one
    /// that does not say may answer anything.
    open spec fn may_list(&self, fetched: Result<Seq<NetworkInfoModel>, RefreshError>) -> bool {
        true
    }

    /// The records of the containers that run now, or the reason why there
    /// are none to be had.
    fn list_containers_network_info(&self) -> (fetched: Result<Vec<NetworkInfo>, RefreshError>)
        ensures
            self.may_list(fetched_inventory(fetched)),
    ;
}

/// One container's attachment to one network.
#[derive(Debug, Clone, Copy)]
pub struct EndpointSummary {
    pub ip_address: Option<Ipv4Address>,
    pub global_ipv6_address: Option<Ipv6Address>,
}

/// What the runtime reports of one container.
#[derive(Debug, Clone)]
pub struct ContainerSummary {
    pub names: Option<Vec<String>>,
    pub networks: Option<Vec<EndpointSummary>>,
}

/// A container report as a mathematical value.
pub struct ContainerSummaryModel {
    pub names: Option<Seq<Seq<char>>>,
    pub networks: Option<Seq<EndpointSummary>>,
}

impl View for ContainerSummary {
    type V = ContainerSummaryModel;

    open spec fn view(&self) -> ContainerSummaryModel {
        ContainerSummaryModel {
            names: match self.names {
                Some(names) => Some(texts(names@)),
                None => None,
            },
            networks: match self.networks {
                Some(networks) => Some(networks@),
                None => None,
            },
        }
    }
}

/// The container reports of a list as mathematical values.
pub open spec fn summaries(containers: Seq<ContainerSummary>) -> Seq<ContainerSummaryModel> {
    Seq::new(containers.len(), |i: int| containers[i]@)
}

/// The separator that the runtime puts before a container's name.
pub open spec fn path_separator() -> Seq<char> {
    seq!['/']
}

/// The names of a container as they are looked up: each without the leading
/// separator, and otherwise as reported.
pub open spec fn names_of(container: ContainerSummaryModel) -> Seq<Seq<char>> {
    match container.names {
        Some(names) => Seq::new(names.len(), |i: int| without_prefix(names[i], path_separator())),
        None => Seq::empty(),
    }
}

/// The IPv4 addresses of the endpoints that have one, in the endpoints' order.
pub open spec fn ipv4_of(endpoints: Seq<EndpointSummary>) -> Seq<Ipv4Address>
    decreases endpoints.len(),
{
    if endpoints.len() == 0 {
        Seq::empty()
    } else {
        let before = ipv4_of(endpoints.drop_last());
        match endpoints.last().ip_address {
            Some(address) => before.push(address),
            None => before,
        }
    }
}

/// The IPv6 addresses of the endpoints that have one, in the endpoints' order.
pub open spec fn ipv6_of(endpoints: Seq<EndpointSummary>) -> Seq<Ipv6Address>
    decreases endpoints.len(),
{
    if endpoints.len() == 0 {
        Seq::empty()
    } else {
        let before = ipv6_of(endpoints.drop_last());
        match endpoints.last().global_ipv6_address {
            Some(address) => before.push(address),
            None => before,
        }
    }
}

/// The endpoints of a container, none where the runtime reports no networks.
pub open spec fn endpoints_of(container: ContainerSummaryModel) -> Seq<EndpointSummary> {
    match container.networks {
        Some(networks) => networks,
        None => Seq::empty(),
    }
}

/// The network record of one container.
pub open spec fn network_info_of(container: ContainerSummaryModel) -> NetworkInfoModel {
    NetworkInfoModel {
        names: names_of(container),
        ipv4_addresses: ipv4_of(endpoints_of(container)),
        ipv6_addresses: ipv6_of(endpoints_of(container)),
    }
}

/// The inventory made of the runtime's reports: one record for each container
/// that has an address, in the reports' order.
pub open spec fn inventory_of(containers: Seq<ContainerSummaryModel>) -> Seq<NetworkInfoModel>
    decreases containers.len(),
{
    if containers.len() == 0 {
        Seq::empty()
    } else {
        let before = inventory_of(containers.drop_last());
        let info = network_info_of(containers.last());
        if info.has_address() {
            before.push(info)
        } else {
            before
        }
    }
}

/// `strip_prefix_sane` of the crate strip-prefix-suffix-sane, on a `str`.
/// Believed of it: where the text starts with the prefix the result is what
/// follows the prefix, and else the whole text.
#[verifier::external_body]
fn strip_prefix_sane<'a>(s: &'a str, prefix: &str) -> (rest: &'a str)
    ensures
        rest@ == without_prefix(s@, prefix@),
{
    StripPrefixSuffixSane::strip_prefix_sane(s, prefix)
}

/// The names under which a container is looked up.
pub fn get_names(container: &ContainerSummary) -> (names: Vec<String>)
    ensures
        texts(names@) == names_of(container@),
        names.len() == names_of(container@).len(),
{
    let mut result: Vec<String> = Vec::new();
    match &container.names {
        Some(names) => {
            proof {
                reveal_strlit("/");
            }
            let mut i: usize = 0;
            while i < names.len()
                invariant
                    0 <= i <= names.len(),
                    container.names == Some(*names),
                    "/"@ == path_separator(),
                    result.len() == i,
                    forall|k: int| 0 <= k < i ==> (#[trigger] result@[k])@ == without_prefix(names@[k]@, path_separator()),
                decreases names.len() - i,
            {
                let name = strip_prefix_sane(names[i].as_str(), "/");
                result.push(name.to_owned());
                i += 1;
            }
        },
        None => {},
    }
    result
}

/// The addresses of a container: those of its endpoints, IPv4 and IPv6 apart.
pub fn get_ip_addresses(container: &ContainerSummary) -> (addresses: (Vec<Ipv4Address>, Vec<Ipv6Address>))
    ensures
        addresses.0@ == ipv4_of(endpoints_of(container@)),
        addresses.1@ == ipv6_of(endpoints_of(container@)),
{
    let mut ipv4_addresses: Vec<Ipv4Address> = Vec::new();
    let mut ipv6_addresses: Vec<Ipv6Address> = Vec::new();
    match &container.networks {
        Some(networks) => {
            let mut i: usize = 0;
            while i < networks.len()
                invariant
                    0 <= i <= networks.len(),
                    ipv4_addresses@ == ipv4_of(networks@.take(i as int)),
                    ipv6_addresses@ == ipv6_of(networks@.take(i as int)),
                decreases networks.len() - i,
            {
                assert(networks@.take(i + 1).drop_last() =~= networks@.take(i as int));
                let endpoint = &networks[i];
                if let Some(ipv4) = endpoint.ip_address {
                    ipv4_addresses.push(ipv4);
                }
                if let Some(ipv6) = endpoint.global_ipv6_address {
                    ipv6_addresses.push(ipv6);
                }
                i += 1;
            }
            assert(networks@.take(i as int) =~= networks@);
        },
        None => {},
    }
    (ipv4_addresses, ipv6_addresses)
}

/// The inventory made of the runtime's reports: containers without an address
/// are left out.
pub fn collect_network_info(containers: &Vec<ContainerSummary>) -> (result: Vec<NetworkInfo>)
    ensures
        records(result@) == inventory_of(summaries(containers@)),
        forall|k: int| 0 <= k < result.len() ==> (#[trigger] result[k])@.has_address(),
{
    let ghost reports = summaries(containers@);
    let mut result: Vec<NetworkInfo> = Vec::new();
    let mut i: usize = 0;
    while i < containers.len()
        invariant
            0 <= i <= containers.len(),
            reports == summaries(containers@),
            records(result@) == inventory_of(reports.take(i as int)),
            forall|k: int| 0 <= k < result.len() ==> (#[trigger] result[k])@.has_address(),
        decreases containers.len() - i,
    {
        assert(reports.take(i + 1).drop_last() =~= reports.take(i as int));
        let container = &containers[i];
        let names = get_names(container);
        let (ipv4_addresses, ipv6_addresses) = get_ip_addresses(container);
        if ipv4_addresses.len() > 0 || ipv6_addresses.len() > 0 {
            let info = NetworkInfo { names, ipv4_addresses, ipv6_addresses };
            result.push(info);
        }
        i += 1;
    }
    assert(reports.take(i as int) =~= reports);
    result
}

} // verus!
