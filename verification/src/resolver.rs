//! The caching resolver: a snapshot of the container inventory, the rules
//! that say when it is refreshed, and the resolvers built on it.

use vstd::prelude::*;
use vstd::hash_map::StringHashMap;
use std::sync::Arc;
use crate::address::Ipv4Address;
use crate::address::Ipv6Address;
use crate::docker_client::NetworkInfo;
use crate::docker_client::NetworkInfoModel;
use crate::docker_client::fetched_inventory;
use crate::docker_client::records;
use crate::docker_client::texts;
use crate::docker_client::NetworkInfoProvider;
use crate::docker_client::RefreshError;
use crate::clock::Clock;
use crate::clock::Moment;
use crate::clock::TimeSpan;
use crate::clock::elapsed;
use crate::clock::later_of;
use crate::clock::NANOS_PER_SEC;
use crate::text::is_normalized;
use crate::text::normalize;
use crate::text::normalize_name;

verus! {

/// The addresses that a name resolves to.
#[derive(Debug, Clone, PartialEq)]
pub struct DnsResponse {
    pub ipv4_addresses: Vec<Ipv4Address>,
    pub ipv6_addresses: Vec<Ipv6Address>,
}

/// A response as a mathematical value.
pub struct DnsResponseModel {
    pub ipv4_addresses: Seq<Ipv4Address>,
    pub ipv6_addresses: Seq<Ipv6Address>,
}

impl DnsResponseModel {
    /// Whether the response holds an address.
    pub open spec fn has_address(self) -> bool {
        self.ipv4_addresses.len() > 0 || self.ipv6_addresses.len() > 0
    }
}

impl View for DnsResponse {
    type V = DnsResponseModel;

    open spec fn view(&self) -> DnsResponseModel {
        DnsResponseModel {
            ipv4_addresses: self.ipv4_addresses@,
            ipv6_addresses: self.ipv6_addresses@,
        }
    }
}

impl DnsResponse {
    /// The response with the given addresses.
    pub fn new(ipv4_addresses: Vec<Ipv4Address>, ipv6_addresses: Vec<Ipv6Address>) -> (response: Self)
        ensures
            response.ipv4_addresses == ipv4_addresses,
            response.ipv6_addresses == ipv6_addresses,
    {
        DnsResponse { ipv4_addresses, ipv6_addresses }
    }
}

/// What a lookup returned, as a mathematical value.
pub open spec fn answer_of(found: Option<Arc<DnsResponse>>) -> Option<DnsResponseModel> {
    match found {
        Some(response) => Some(response@),
        None => None,
    }
}

/// The response that a record stands for.
pub open spec fn response_of(info: NetworkInfoModel) -> DnsResponseModel {
    DnsResponseModel {
        ipv4_addresses: info.ipv4_addresses,
        ipv6_addresses: info.ipv6_addresses,
    }
}

/// The mapping with each of the names, normalized, pointing to the response.
/// Where two names have one normal form, the later one is the one inserted last.
pub open spec fn with_names(
    mapping: Map<Seq<char>, DnsResponseModel>,
    names: Seq<Seq<char>>,
    response: DnsResponseModel,
) -> Map<Seq<char>, DnsResponseModel>
    decreases names.len(),
{
    if names.len() == 0 {
        mapping
    } else {
        with_names(mapping, names.drop_last(), response).insert(normalize(names.last()), response)
    }
}

/// The mapping with one more record: each of its names points to its
/// response. A record without an address adds nothing.
pub open spec fn with_record(
    mapping: Map<Seq<char>, DnsResponseModel>,
    info: NetworkInfoModel,
) -> Map<Seq<char>, DnsResponseModel> {
    if info.has_address() {
        with_names(mapping, info.names, response_of(info))
    } else {
        mapping
    }
}

/// The mapping that an inventory gives: its records taken in order, so that
/// of two records with one name the later one wins.
pub open spec fn mapping_of(inventory: Seq<NetworkInfoModel>) -> Map<Seq<char>, DnsResponseModel>
    decreases inventory.len(),
{
    if inventory.len() == 0 {
        Map::empty()
    } else {
        with_record(mapping_of(inventory.drop_last()), inventory.last())
    }
}

/// Whether every key is in normal form and every response holds an address.
pub open spec fn mapping_wf(mapping: Map<Seq<char>, DnsResponseModel>) -> bool {
    forall|key: Seq<char>| #[trigger]
        mapping.contains_key(key) ==> is_normalized(key) && mapping[key].has_address()
}

/// The responses of a map of shared responses, as mathematical values.
pub open spec fn model_of(entries: Map<Seq<char>, Arc<DnsResponse>>) -> Map<Seq<char>, DnsResponseModel> {
    entries.map_values(|response: Arc<DnsResponse>| response@)
}

/// `Arc::clone` of the standard library. Believed of it: the new pointer
/// points to the same value.
#[verifier::external_body]
fn share(response: &Arc<DnsResponse>) -> (shared: Arc<DnsResponse>)
    ensures
        shared == *response,
{
    Arc::clone(response)
}

/// A snapshot of the inventory: from each name to the response of its
/// container. The names of one container share one response.
pub struct Mappings {
    entries: StringHashMap<Arc<DnsResponse>>,
}

impl View for Mappings {
    type V = Map<Seq<char>, DnsResponseModel>;

    closed spec fn view(&self) -> Map<Seq<char>, DnsResponseModel> {
        model_of(self.entries@)
    }
}

impl Mappings {
    #[verifier::type_invariant]
    spec fn inv(&self) -> bool {
        mapping_wf(self@)
    }

    /// The snapshot without a name.
    pub fn new() -> (mappings: Self)
        ensures
            mappings@ == Map::<Seq<char>, DnsResponseModel>::empty(),
    {
        let entries: StringHashMap<Arc<DnsResponse>> = StringHashMap::new();
        Mappings { entries }
    }

    /// The response of a name, looked up as it is written.
    pub fn get(&self, key: &str) -> (found: Option<Arc<DnsResponse>>)
        ensures
            answer_of(found) == lookup(self@, key@),
            found matches Some(response) ==> response@.has_address() && is_normalized(key@),
    {
        proof {
            use_type_invariant(self);
        }
        match self.entries.get(key) {
            Some(response) => Some(share(response)),
            None => None,
        }
    }

    /// The snapshot of an inventory.
    pub fn build(infos: Vec<NetworkInfo>) -> (mappings: Self)
        ensures
            mappings@ == mapping_of(records(infos@)),
    {
        let ghost inventory = records(infos@);
        let mut entries: StringHashMap<Arc<DnsResponse>> = StringHashMap::new();
        for info in iter: infos.into_iter()
            invariant
                iter.seq() == infos@,
                inventory == records(infos@),
                model_of(entries@) == mapping_of(inventory.take(iter.index() as int)),
                mapping_wf(model_of(entries@)),
        {
            let ghost i = iter.index() as int;
            let ghost before = model_of(entries@);
            assert(inventory.take(i + 1).drop_last() =~= inventory.take(i));
            let NetworkInfo { names, ipv4_addresses, ipv6_addresses } = info;
            if ipv4_addresses.len() > 0 || ipv6_addresses.len() > 0 {
                let response = Arc::new(DnsResponse::new(ipv4_addresses, ipv6_addresses));
                let mut j: usize = 0;
                while j < names.len()
                    invariant
                        0 <= j <= names.len(),
                        info@.names == texts(names@),
                        response@ == response_of(info@),
                        response@.has_address(),
                        model_of(entries@) == with_names(before, info@.names.take(j as int), response@),
                        mapping_wf(model_of(entries@)),
                    decreases names.len() - j,
                {
                    assert(info@.names.take(j + 1).drop_last() =~= info@.names.take(j as int));
                    let key = normalize_name(names[j].as_str());
                    let ghost earlier = entries@;
                    let shared = share(&response);
                    entries.insert(key, shared);
                    assert(model_of(entries@) =~= model_of(earlier).insert(key@, response@));
                    j += 1;
                }
                assert(info@.names.take(j as int) =~= info@.names);
            }
        }
        assert(inventory.take(infos@.len() as int) =~= inventory);
        Mappings { entries }
    }
}


/// When the cache is refreshed: three lengths of time.
#[derive(Debug, Clone, Copy)]
pub struct DockerResolverConfig {
    /// The age of the cache beyond which every lookup refreshes it.
    pub hit_timeout: TimeSpan,
    /// The age of the cache beyond which a lookup of a missing name refreshes it.
    pub miss_timeout: TimeSpan,
    /// The time that one fetch of the inventory may take.
    pub refresh_timeout: TimeSpan,
}

impl Default for DockerResolverConfig {
    /// A hit timeout of a minute, and five seconds for the other two.
    fn default() -> (config: Self)
        ensures
            config.hit_timeout.nanos == 60 * NANOS_PER_SEC,
            config.miss_timeout.nanos == 5 * NANOS_PER_SEC,
            config.refresh_timeout.nanos == 5 * NANOS_PER_SEC,
    {
        DockerResolverConfig {
            hit_timeout: TimeSpan::from_secs(60),
            miss_timeout: TimeSpan::from_secs(5),
            refresh_timeout: TimeSpan::from_secs(5),
        }
    }
}

impl DockerResolverConfig {
    /// Whether a missing name is looked up again no later than a present one.
    pub open spec fn valid(self) -> bool {
        self.miss_timeout.nanos <= self.hit_timeout.nanos
    }

    /// Whether the configuration is valid.
    pub fn is_valid(&self) -> (valid: bool)
        ensures
            valid == self.valid(),
    {
        self.miss_timeout.nanos <= self.hit_timeout.nanos
    }
}

/// The cache as a mathematical value.
pub struct CacheModel {
    pub mappings: Map<Seq<char>, DnsResponseModel>,
    pub last_refresh: Option<Moment>,
}

/// The cache before its first refresh.
pub open spec fn empty_cache() -> CacheModel {
    CacheModel { mappings: Map::empty(), last_refresh: None }
}

/// Whether the last refresh is longer ago than `limit`. A cache that was never
/// refreshed is older than any limit.
pub open spec fn older_than(last_refresh: Option<Moment>, now: Moment, limit: TimeSpan) -> bool {
    match last_refresh {
        Some(at) => elapsed(at, now) > limit.nanos,
        None => true,
    }
}

/// What a mapping holds for a key.
pub open spec fn lookup(mapping: Map<Seq<char>, DnsResponseModel>, key: Seq<char>) -> Option<
    DnsResponseModel,
> {
    if mapping.contains_key(key) {
        Some(mapping[key])
    } else {
        None
    }
}

/// What the cache holds for a key.
pub open spec fn lookup_in(cache: CacheModel, key: Seq<char>) -> Option<DnsResponseModel> {
    lookup(cache.mappings, key)
}

/// Whether a lookup of `key` at `now` asks for a refresh: the cache is past
/// the hit timeout, or the key is missing and the cache is past the miss
/// timeout.
pub open spec fn wants_refresh(
    config: DockerResolverConfig,
    cache: CacheModel,
    key: Seq<char>,
    now: Moment,
) -> bool {
    older_than(cache.last_refresh, now, config.hit_timeout) || (!cache.mappings.contains_key(key)
        && older_than(cache.last_refresh, now, config.miss_timeout))
}

/// Whether a refresh that was asked for fetches the inventory: not where
/// another refresh came less than the miss timeout ago.
pub open spec fn fetch_due(config: DockerResolverConfig, last_refresh: Option<Moment>, now: Moment) -> bool {
    match last_refresh {
        Some(at) => elapsed(at, now) >= config.miss_timeout.nanos,
        None => true,
    }
}

/// The moment of a refresh at `now`: never earlier than the refresh before it.
pub open spec fn advanced(last_refresh: Option<Moment>, now: Moment) -> Moment {
    match last_refresh {
        Some(at) => later_of(now, at),
        None => now,
    }
}

/// The cache after a refresh at `now` that brought `mappings`.
pub open spec fn replaced(
    cache: CacheModel,
    mappings: Map<Seq<char>, DnsResponseModel>,
    now: Moment,
) -> CacheModel {
    CacheModel { mappings, last_refresh: Some(advanced(cache.last_refresh, now)) }
}

/// The cache after a refresh at `now` that fetched `inventory`.
pub open spec fn refreshed(cache: CacheModel, inventory: Seq<NetworkInfoModel>, now: Moment) -> CacheModel {
    replaced(cache, mapping_of(inventory), now)
}

/// What a lookup does next.
pub enum ResolveStep {
    /// The cache answers: the response of the name, or none.
    Answer(Option<Arc<DnsResponse>>),
    /// The cache is to be refreshed before it answers.
    Refresh,
}

/// The snapshot in use and the moment it was taken.
pub struct CachedNetworkData {
    mappings: Mappings,
    last_refresh: Option<Moment>,
}

impl View for CachedNetworkData {
    type V = CacheModel;

    closed spec fn view(&self) -> CacheModel {
        CacheModel { mappings: self.mappings@, last_refresh: self.last_refresh }
    }
}

impl CachedNetworkData {
    /// The cache before its first refresh: no name, and no moment of a
    /// refresh.
    pub fn new() -> (cache: Self)
        ensures
            cache@ == empty_cache(),
    {
        CachedNetworkData { mappings: Mappings::new(), last_refresh: None }
    }

    /// The moment of the last refresh, none before the first.
    pub fn last_refresh(&self) -> (last_refresh: Option<Moment>)
        ensures
            last_refresh == self@.last_refresh,
    {
        self.last_refresh
    }

    /// Whether at `now` the last refresh is longer ago than `duration`.
    pub fn is_older_than(&self, duration: TimeSpan, now: Moment) -> (older: bool)
        ensures
            older == older_than(self@.last_refresh, now, duration),
    {
        match self.last_refresh {
            None => true,
            Some(at) => now.since(at).nanos > duration.nanos,
        }
    }

    /// The response of a key, looked up as it is written.
    pub fn get(&self, key: &str) -> (found: Option<Arc<DnsResponse>>)
        ensures
            answer_of(found) == lookup_in(self@, key@),
            found matches Some(response) ==> response@.has_address() && is_normalized(key@),
    {
        self.mappings.get(key)
    }

    /// What the cache holds for a key, and whether the cache is past the hit
    /// timeout and past the miss timeout.
    pub fn read(&self, config: &DockerResolverConfig, key: &str, now: Moment) -> (state: (
        Option<Arc<DnsResponse>>,
        bool,
        bool,
    ))
        ensures
            answer_of(state.0) == lookup_in(self@, key@),
            state.0 matches Some(response) ==> response@.has_address(),
            state.1 == older_than(self@.last_refresh, now, config.hit_timeout),
            state.2 == older_than(self@.last_refresh, now, config.miss_timeout),
    {
        let result = self.get(key);
        let hit_timeout_exceeded = self.is_older_than(config.hit_timeout, now);
        let miss_timeout_exceeded = self.is_older_than(config.miss_timeout, now);
        (result, hit_timeout_exceeded, miss_timeout_exceeded)
    }

    /// What a lookup of `key` at `now` does next: it is answered from the
    /// cache, or the cache is refreshed first.
    pub fn plan(&self, config: &DockerResolverConfig, key: &str, now: Moment) -> (step: ResolveStep)
        ensures
            wants_refresh(*config, self@, key@, now) ==> step is Refresh,
            !wants_refresh(*config, self@, key@, now) ==> (step matches ResolveStep::Answer(found)
                && answer_of(found) == lookup_in(self@, key@)),
            step matches ResolveStep::Answer(Some(response)) ==> response@.has_address(),
    {
        let (cached, hit_timeout_exceeded, miss_timeout_exceeded) = self.read(config, key, now);
        match cached {
            Some(response) => {
                if hit_timeout_exceeded {
                    ResolveStep::Refresh
                } else {
                    ResolveStep::Answer(Some(response))
                }
            },
            None => {
                if hit_timeout_exceeded || miss_timeout_exceeded {
                    ResolveStep::Refresh
                } else {
                    ResolveStep::Answer(None)
                }
            },
        }
    }

    /// Whether a refresh that begins at `now` fetches the inventory.
    pub fn refresh_due(&self, config: &DockerResolverConfig, now: Moment) -> (due: bool)
        ensures
            due == fetch_due(*config, self@.last_refresh, now),
    {
        match self.last_refresh {
            Some(at) => !(now.since(at).nanos < config.miss_timeout.nanos),
            None => true,
        }
    }

    /// Puts a new snapshot in the place of the old one. The moment of the
    /// last refresh becomes `now`, unless it was later than that already.
    pub fn replace(&mut self, mappings: Mappings, now: Moment)
        ensures
            final(self)@ == replaced(old(self)@, mappings@, now),
            final(self)@.mappings == mappings@,
            final(self)@.last_refresh is Some,
            final(self)@.last_refresh->0.nanos >= now.nanos,
            old(self)@.last_refresh matches Some(before) ==> final(self)@.last_refresh->0.nanos
                >= before.nanos,
    {
        let at = match self.last_refresh {
            Some(last) => now.latest(last),
            None => now,
        };
        self.mappings = mappings;
        self.last_refresh = Some(at);
    }

    /// Ends a refresh: a snapshot that was fetched replaces the old one, and a
    /// failure leaves the cache as it was.
    pub fn complete_refresh(&mut self, outcome: Result<Mappings, RefreshError>, now: Moment) -> (result:
        Result<(), RefreshError>)
        ensures
            match outcome {
                Ok(mappings) => result is Ok && final(self)@ == replaced(old(self)@, mappings@, now),
                Err(error) => result == Err::<(), RefreshError>(error) && final(self)@ == old(self)@,
            },
    {
        match outcome {
            Ok(mappings) => {
                self.replace(mappings, now);
                Ok(())
            },
            Err(error) => Err(error),
        }
    }
}

/// The fetch as it counts: one that took longer than the limit has failed,
/// whatever it brought.
pub fn within_timeout(
    outcome: Result<Vec<NetworkInfo>, RefreshError>,
    took: TimeSpan,
    limit: TimeSpan,
) -> (bounded: Result<Vec<NetworkInfo>, RefreshError>)
    ensures
        took.nanos > limit.nanos ==> bounded == Err::<Vec<NetworkInfo>, RefreshError>(
            RefreshError::Timeout,
        ),
        took.nanos <= limit.nanos ==> bounded == outcome,
{
    if took.nanos > limit.nanos {
        Err(RefreshError::Timeout)
    } else {
        outcome
    }
}

/// Something that resolves a name to addresses.
pub trait DnsResolver {
    /// Whether a lookup of `domain` by the resolver as it is may find `found`
    /// and leave the resolver as `after`.
    spec fn may_resolve(&self, domain: Seq<char>, after: &Self, found: Option<DnsResponseModel>) -> bool;

    /// The addresses of a name, none where the name is not known.
    fn resolve(&mut self, domain: &str) -> (found: Option<Arc<DnsResponse>>)
        ensures
            old(self).may_resolve(domain@, final(self), answer_of(found)),
    ;
}

/// A resolver over a fixed table from names to IPv4 addresses.
pub struct StaticResolver {
    mappings: StringHashMap<Ipv4Address>,
}

impl View for StaticResolver {
    type V = Map<Seq<char>, Ipv4Address>;

    closed spec fn view(&self) -> Map<Seq<char>, Ipv4Address> {
        self.mappings@
    }
}

/// The response that holds one IPv4 address and nothing else.
pub open spec fn single_ipv4(ip: Ipv4Address) -> DnsResponseModel {
    DnsResponseModel { ipv4_addresses: seq![ip], ipv6_addresses: Seq::empty() }
}

/// What a table answers for a name: the one address of the name as it is
/// written, or nothing.
pub open spec fn static_answer(table: Map<Seq<char>, Ipv4Address>, domain: Seq<char>) -> Option<
    DnsResponseModel,
> {
    if table.contains_key(domain) {
        Some(single_ipv4(table[domain]))
    } else {
        None
    }
}

impl StaticResolver {
    /// The resolver with an empty table.
    pub fn new() -> (resolver: Self)
        ensures
            resolver@ == Map::<Seq<char>, Ipv4Address>::empty(),
    {
        StaticResolver { mappings: StringHashMap::new() }
    }

    /// Lets the name, as it is written, resolve to the address. An address
    /// that the name had before is replaced.
    pub fn add_mapping(&mut self, domain: &str, ip: Ipv4Address)
        ensures
            final(self)@ == old(self)@.insert(domain@, ip),
    {
        self.mappings.insert(domain.to_owned(), ip);
    }

    /// The response of a name, looked up as it is written.
    pub fn lookup(&self, domain: &str) -> (found: Option<Arc<DnsResponse>>)
        ensures
            answer_of(found) == static_answer(self@, domain@),
    {
        match self.mappings.get(domain) {
            Some(ip) => {
                let mut ipv4_addresses: Vec<Ipv4Address> = Vec::new();
                ipv4_addresses.push(*ip);
                let response = DnsResponse::new(ipv4_addresses, Vec::new());
                Some(Arc::new(response))
            },
            None => None,
        }
    }
}

impl Default for StaticResolver {
    fn default() -> (resolver: Self)
        ensures
            resolver@ == Map::<Seq<char>, Ipv4Address>::empty(),
    {
        StaticResolver::new()
    }
}

impl DnsResolver for StaticResolver {
    /// The table answers for the name as it is written, and stays as it is.
    open spec fn may_resolve(&self, domain: Seq<char>, after: &Self, found: Option<DnsResponseModel>) -> bool {
        after@ == self@ && found == static_answer(self@, domain)
    }

    /// The one address of the name, as the table holds it.
    fn resolve(&mut self, domain: &str) -> (found: Option<Arc<DnsResponse>>) {
        self.lookup(domain)
    }
}

/// A resolver over the inventory of a provider, which it caches.
pub struct DockerResolver<P: NetworkInfoProvider> {
    provider: P,
    config: DockerResolverConfig,
    cache: CachedNetworkData,
    clock: Clock,
}

impl<P: NetworkInfoProvider> DockerResolver<P> {
    /// The cache as a mathematical value.
    pub closed spec fn cache(&self) -> CacheModel {
        self.cache@
    }

    /// The configuration that the resolver was made with.
    pub closed spec fn config(&self) -> DockerResolverConfig {
        self.config
    }

    /// A resolver over `provider` with an empty cache.
    pub fn new(provider: P, config: DockerResolverConfig) -> (resolver: Self)
        ensures
            resolver.cache() == empty_cache(),
            resolver.config() == config,
            resolver.provider_state() == provider,
    {
        DockerResolver { provider, config, cache: CachedNetworkData::new(), clock: Clock::start() }
    }

    /// A resolver over `provider` with the default timeouts.
    pub fn new_with_defaults(provider: P) -> (resolver: Self)
        ensures
            resolver.cache() == empty_cache(),
            resolver.config().hit_timeout.nanos == 60 * NANOS_PER_SEC,
            resolver.config().miss_timeout.nanos == 5 * NANOS_PER_SEC,
            resolver.config().refresh_timeout.nanos == 5 * NANOS_PER_SEC,
    {
        DockerResolver::new(provider, DockerResolverConfig::default())
    }

    /// The provider that the resolver asks.
    pub closed spec fn provider_state(&self) -> P {
        self.provider
    }

    /// The provider that the resolver asks.
    pub fn provider(&self) -> (provider: &P)
        ensures
            *provider == self.provider_state(),
    {
        &self.provider
    }

    /// The moment of the last refresh, none before the first.
    pub fn last_refresh(&self) -> (last_refresh: Option<Moment>)
        ensures
            last_refresh == self.cache().last_refresh,
    {
        self.cache.last_refresh()
    }

    /// Asks the provider for the inventory and makes a snapshot of it. An
    /// answer that took longer than the refresh timeout counts as a failure;
    /// the call itself is waited for, however long it takes.
    fn fetch_and_build_mappings(&self) -> (outcome: Result<Mappings, RefreshError>)
        ensures
            exists|fetched: Result<Seq<NetworkInfoModel>, RefreshError>, took: TimeSpan|
                self.provider_state().may_list(fetched) && snapshot_model(outcome)
                    == #[trigger] fetch_outcome(fetched, took, self.config().refresh_timeout),
    {
        let started = self.clock.now();
        let fetched = self.provider.list_containers_network_info();
        let took = self.clock.now().since(started);
        let ghost brought = fetched_inventory(fetched);
        let outcome = snapshot_of_fetch(fetched, took, self.config.refresh_timeout);
        assert(snapshot_model(outcome) == fetch_outcome(brought, took, self.config().refresh_timeout));
        outcome
    }

    /// Refreshes the cache at `now`, unless another refresh came less than the
    /// miss timeout before. Where the refresh is due the provider is asked:
    /// the mapping of the inventory that it brought within the refresh timeout
    /// replaces the old one, and a failure or an answer that came too late
    /// leaves the cache as it was.
    pub fn refresh_cache(&mut self, now: Moment) -> (result: Result<(), RefreshError>)
        ensures
            final(self).config() == old(self).config(),
            final(self).provider_state() == old(self).provider_state(),
            !fetch_due(old(self).config(), old(self).cache().last_refresh, now) ==> result is Ok
                && final(self).cache() == old(self).cache(),
            fetch_due(old(self).config(), old(self).cache().last_refresh, now) ==> exists|
                fetched: Result<Seq<NetworkInfoModel>, RefreshError>,
                took: TimeSpan,
            |
                old(self).provider_state().may_list(fetched) && refresh_ends(
                    old(self).cache(),
                    #[trigger] fetch_outcome(fetched, took, old(self).config().refresh_timeout),
                    now,
                    final(self).cache(),
                    result,
                ),
            result is Err ==> final(self).cache() == old(self).cache(),
    {
        if !self.cache.refresh_due(&self.config, now) {
            return Ok(());
        }
        let outcome = self.fetch_and_build_mappings();
        let ghost snapshot = snapshot_model(outcome);
        let result = self.cache.complete_refresh(outcome, now);
        proof {
            let (fetched, took) = choose|
                fetched: Result<Seq<NetworkInfoModel>, RefreshError>,
                took: TimeSpan,
            |
                old(self).provider_state().may_list(fetched) && snapshot == #[trigger] fetch_outcome(
                    fetched,
                    took,
                    old(self).config().refresh_timeout,
                );
            assert(refresh_ends(
                old(self).cache(),
                fetch_outcome(fetched, took, old(self).config().refresh_timeout),
                now,
                self.cache(),
                result,
            ));
        }
        result
    }

    /// Refreshes the cache and looks the key up in what the cache then holds.
    fn get_refreshed_cache_entry(&mut self, key: &str, now: Moment) -> (found: Option<Arc<DnsResponse>>)
        ensures
            final(self).config() == old(self).config(),
            final(self).provider_state() == old(self).provider_state(),
            answer_of(found) == lookup_in(final(self).cache(), key@),
            found matches Some(response) ==> response@.has_address(),
            !fetch_due(old(self).config(), old(self).cache().last_refresh, now) ==> final(self).cache()
                == old(self).cache(),
            fetch_due(old(self).config(), old(self).cache().last_refresh, now) ==> exists|
                fetched: Result<Seq<NetworkInfoModel>, RefreshError>,
                took: TimeSpan,
            |
                old(self).provider_state().may_list(fetched) && final(self).cache() == after_refresh(
                    old(self).cache(),
                    #[trigger] fetch_outcome(fetched, took, old(self).config().refresh_timeout),
                    now,
                ),
    {
        let _ = self.refresh_cache(now);
        self.cache.get(key)
    }

    /// Resolves a name at the moment `now`. The name is looked up in its
    /// normal form. Where the cache is fresh enough for the name it answers as
    /// it is. Else it is refreshed first, where a refresh is due: the
    /// provider is asked, the mapping of the inventory that it brought within
    /// the refresh timeout replaces the old one, and the answer is what the
    /// cache then holds, whether or not the refresh succeeded.
    pub fn resolve_at(&mut self, domain: &str, now: Moment) -> (found: Option<Arc<DnsResponse>>)
        ensures
            old(self).may_resolve(domain@, final(self), answer_of(found)),
            final(self).config() == old(self).config(),
            final(self).provider_state() == old(self).provider_state(),
            answer_of(found) == lookup_in(final(self).cache(), normalize(domain@)),
            found matches Some(response) ==> response@.has_address(),
            !wants_refresh(old(self).config(), old(self).cache(), normalize(domain@), now) ==> final(self).cache() == old(self).cache(),
            !fetch_due(old(self).config(), old(self).cache().last_refresh, now) ==> final(self).cache()
                == old(self).cache(),
            wants_refresh(old(self).config(), old(self).cache(), normalize(domain@), now) && fetch_due(
                old(self).config(),
                old(self).cache().last_refresh,
                now,
            ) ==> exists|fetched: Result<Seq<NetworkInfoModel>, RefreshError>, took: TimeSpan|
                old(self).provider_state().may_list(fetched) && final(self).cache() == after_refresh(
                    old(self).cache(),
                    #[trigger] fetch_outcome(fetched, took, old(self).config().refresh_timeout),
                    now,
                ),
    {
        let key = normalize_name(domain);
        match self.cache.plan(&self.config, key.as_str(), now) {
            ResolveStep::Answer(found) => found,
            ResolveStep::Refresh => {
                let found = self.get_refreshed_cache_entry(key.as_str(), now);
                proof {
                    if fetch_due(old(self).config(), old(self).cache().last_refresh, now) {
                        let (fetched, took) = choose|
                            fetched: Result<Seq<NetworkInfoModel>, RefreshError>,
                            took: TimeSpan,
                        |
                            old(self).provider_state().may_list(fetched) && self.cache()
                                == after_refresh(
                                old(self).cache(),
                                #[trigger] fetch_outcome(
                                    fetched,
                                    took,
                                    old(self).config().refresh_timeout,
                                ),
                                now,
                            );
                        assert(refreshed_by(old(self), fetched, took, now, self.cache()));
                    }
                }
                found
            },
        }
    }
}

impl<P: NetworkInfoProvider> DnsResolver for DockerResolver<P> {
    /// The answer is what the cache holds for the normal form of the name
    /// once the lookup is done, and the cache is then as it was, or as a
    /// refresh leaves it that asked the provider.
    open spec fn may_resolve(&self, domain: Seq<char>, after: &Self, found: Option<DnsResponseModel>) -> bool {
        &&& after.config() == self.config()
        &&& after.provider_state() == self.provider_state()
        &&& found == lookup_in(after.cache(), normalize(domain))
        &&& found matches Some(response) ==> response.has_address()
        &&& after.cache() == self.cache() || exists|
            fetched: Result<Seq<NetworkInfoModel>, RefreshError>,
            took: TimeSpan,
            at: Moment,
        | #[trigger] refreshed_by(self, fetched, took, at, after.cache())
    }

    /// Resolves a name at the moment that the resolver's clock shows.
    fn resolve(&mut self, domain: &str) -> (found: Option<Arc<DnsResponse>>) {
        let now = self.clock.now();
        self.resolve_at(domain, now)
    }
}

/// Whether `after` is the cache that a refresh of the resolver's cache at `at`
/// leaves, where the provider answered with `fetched` and took `took` to do
/// so.
pub open spec fn refreshed_by<P: NetworkInfoProvider>(
    resolver: &DockerResolver<P>,
    fetched: Result<Seq<NetworkInfoModel>, RefreshError>,
    took: TimeSpan,
    at: Moment,
    after: CacheModel,
) -> bool {
    resolver.provider_state().may_list(fetched) && after == after_refresh(
        resolver.cache(),
        fetch_outcome(fetched, took, resolver.config().refresh_timeout),
        at,
    )
}

/// A snapshot or the reason why there is none, as a mathematical value.
pub open spec fn snapshot_model(outcome: Result<Mappings, RefreshError>) -> Result<
    Map<Seq<char>, DnsResponseModel>,
    RefreshError,
> {
    match outcome {
        Ok(mappings) => Ok(mappings@),
        Err(error) => Err(error),
    }
}

/// The cache after a refresh at `now` that ended with `outcome`: a mapping
/// replaces the old one, and a failure leaves the cache as it was.
pub open spec fn after_refresh(
    cache: CacheModel,
    outcome: Result<Map<Seq<char>, DnsResponseModel>, RefreshError>,
    now: Moment,
) -> CacheModel {
    match outcome {
        Ok(mapping) => replaced(cache, mapping, now),
        Err(_) => cache,
    }
}

/// Whether a refresh at `now` that ended with `outcome` leaves the cache
/// `after` and reports `result`: success with the new mapping in place, or
/// the failure with the cache as it was.
pub open spec fn refresh_ends(
    cache: CacheModel,
    outcome: Result<Map<Seq<char>, DnsResponseModel>, RefreshError>,
    now: Moment,
    after: CacheModel,
    result: Result<(), RefreshError>,
) -> bool {
    after == after_refresh(cache, outcome, now) && match outcome {
        Ok(_) => result is Ok,
        Err(error) => result == Err::<(), RefreshError>(error),
    }
}

/// The outcome of a fetch that took `took` where `limit` allows: a timeout
/// where it took longer, whatever it brought; else the mapping of the
/// inventory that it brought, or the error that it ended with.
pub open spec fn fetch_outcome(
    fetched: Result<Seq<NetworkInfoModel>, RefreshError>,
    took: TimeSpan,
    limit: TimeSpan,
) -> Result<Map<Seq<char>, DnsResponseModel>, RefreshError> {
    if took.nanos > limit.nanos {
        Err(RefreshError::Timeout)
    } else {
        match fetched {
            Ok(inventory) => Ok(mapping_of(inventory)),
            Err(error) => Err(error),
        }
    }
}

/// What a refresh gets from a fetch: the snapshot of the inventory where the
/// fetch succeeded within the limit, and else the reason why there is none.
pub fn snapshot_of_fetch(
    fetched: Result<Vec<NetworkInfo>, RefreshError>,
    took: TimeSpan,
    limit: TimeSpan,
) -> (outcome: Result<Mappings, RefreshError>)
    ensures
        snapshot_model(outcome) == fetch_outcome(fetched_inventory(fetched), took, limit),
        outcome is Ok <==> fetched is Ok && took.nanos <= limit.nanos,
{
    match within_timeout(fetched, took, limit) {
        Ok(infos) => Ok(Mappings::build(infos)),
        Err(error) => Err(error),
    }
}

} // verus!
