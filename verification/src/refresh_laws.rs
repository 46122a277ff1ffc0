//! What holds of the cache over many lookups: which response a name has after
//! a refresh, and how often the inventory is fetched.

use vstd::prelude::*;
use crate::clock::Moment;
use crate::clock::elapsed;
use crate::clock::TimeSpan;
use crate::docker_client::NetworkInfoModel;
use crate::docker_client::RefreshError;
use crate::resolver::advanced;
use crate::resolver::after_refresh;
use crate::resolver::empty_cache;
use crate::resolver::fetch_due;
use crate::resolver::fetch_outcome;
use crate::resolver::lookup;
use crate::resolver::lookup_in;
use crate::resolver::mapping_of;
use crate::resolver::mapping_wf;
use crate::resolver::refreshed;
use crate::resolver::replaced;
use crate::resolver::response_of;
use crate::resolver::wants_refresh;
use crate::resolver::with_names;
use crate::resolver::CacheModel;
use crate::resolver::DnsResponseModel;
use crate::resolver::DockerResolverConfig;
use crate::text::lemma_normalize_is_normalized;
use crate::text::normalize;

verus! {

/// Whether a record of the inventory holds a name whose normal form is `key`.
pub open spec fn names_key(info: NetworkInfoModel, key: Seq<char>) -> bool {
    info.has_address() && exists|j: int|
        0 <= j < info.names.len() && normalize(#[trigger] info.names[j]) == key
}

/// After the names of a record are added, each of them points to the record's
/// response, and every other key is as it was.
pub proof fn lemma_with_names(
    mapping: Map<Seq<char>, DnsResponseModel>,
    names: Seq<Seq<char>>,
    response: DnsResponseModel,
    key: Seq<char>,
)
    ensures
        (exists|j: int| 0 <= j < names.len() && normalize(#[trigger] names[j]) == key) ==> lookup(
            with_names(mapping, names, response),
            key,
        ) == Some(response),
        !(exists|j: int| 0 <= j < names.len() && normalize(#[trigger] names[j]) == key) ==> lookup(
            with_names(mapping, names, response),
            key,
        ) == lookup(mapping, key),
    decreases names.len(),
{
    if names.len() > 0 {
        let earlier = names.drop_last();
        lemma_with_names(mapping, earlier, response, key);
        if normalize(names.last()) != key {
            if exists|j: int| 0 <= j < names.len() && normalize(#[trigger] names[j]) == key {
                let j = choose|j: int| 0 <= j < names.len() && normalize(#[trigger] names[j]) == key;
                assert(normalize(earlier[j]) == key);
            } else {
                assert forall|j: int| 0 <= j < earlier.len() implies normalize(#[trigger] earlier[j])
                    != key by {
                    assert(earlier[j] == names[j]);
                }
            }
        }
    }
}

/// A key is in the mapping of an inventory exactly when a record of the
/// inventory holds a name with that normal form.
pub proof fn lemma_mapping_keys(inventory: Seq<NetworkInfoModel>, key: Seq<char>)
    ensures
        mapping_of(inventory).contains_key(key) <==> exists|i: int|
            0 <= i < inventory.len() && names_key(#[trigger] inventory[i], key),
    decreases inventory.len(),
{
    if inventory.len() > 0 {
        let earlier = inventory.drop_last();
        let last = inventory.last();
        lemma_mapping_keys(earlier, key);
        lemma_with_names(mapping_of(earlier), last.names, response_of(last), key);
        if mapping_of(inventory).contains_key(key) && !names_key(last, key) {
            let i = choose|i: int| 0 <= i < earlier.len() && names_key(#[trigger] earlier[i], key);
            assert(names_key(inventory[i], key));
        }
        if exists|i: int| 0 <= i < inventory.len() && names_key(#[trigger] inventory[i], key) {
            let i = choose|i: int| 0 <= i < inventory.len() && names_key(#[trigger] inventory[i], key);
            if i < earlier.len() {
                assert(names_key(earlier[i], key));
            }
        }
    }
}

/// The mapping of an inventory gives a key the response of the last record
/// that holds a name with that normal form.
pub proof fn lemma_mapping_last_wins(inventory: Seq<NetworkInfoModel>, key: Seq<char>, i: int)
    requires
        0 <= i < inventory.len(),
        names_key(inventory[i], key),
        forall|k: int| i < k < inventory.len() ==> !names_key(#[trigger] inventory[k], key),
    ensures
        lookup(mapping_of(inventory), key) == Some(response_of(inventory[i])),
    decreases inventory.len(),
{
    let earlier = inventory.drop_last();
    let last = inventory.last();
    lemma_with_names(mapping_of(earlier), last.names, response_of(last), key);
    if i < inventory.len() - 1 {
        assert forall|k: int| i < k < earlier.len() implies !names_key(#[trigger] earlier[k], key) by {
            assert(earlier[k] == inventory[k]);
        }
        lemma_mapping_last_wins(earlier, key, i);
    }
}

/// In the mapping of an inventory every key is in normal form and every
/// response holds an address.
pub proof fn lemma_mapping_wf(inventory: Seq<NetworkInfoModel>)
    ensures
        mapping_wf(mapping_of(inventory)),
    decreases inventory.len(),
{
    if inventory.len() > 0 {
        let earlier = inventory.drop_last();
        let last = inventory.last();
        lemma_mapping_wf(earlier);
        if last.has_address() {
            lemma_with_names_wf(mapping_of(earlier), last.names, response_of(last));
        }
    }
}

/// Adding the names of a record that holds an address keeps a mapping well
/// formed.
pub proof fn lemma_with_names_wf(
    mapping: Map<Seq<char>, DnsResponseModel>,
    names: Seq<Seq<char>>,
    response: DnsResponseModel,
)
    requires
        mapping_wf(mapping),
        response.has_address(),
    ensures
        mapping_wf(with_names(mapping, names, response)),
    decreases names.len(),
{
    if names.len() > 0 {
        lemma_with_names_wf(mapping, names.drop_last(), response);
        lemma_normalize_is_normalized(names.last());
    }
}

/// A name of the inventory that the cache was last refreshed with resolves,
/// for as long as the hit timeout allows, without another refresh and to the
/// addresses of its record: the last record of the inventory that holds the
/// name in its normal form.
pub proof fn lemma_fresh_name_resolves(
    config: DockerResolverConfig,
    before: CacheModel,
    inventory: Seq<NetworkInfoModel>,
    at: Moment,
    now: Moment,
    i: int,
    name: Seq<char>,
)
    requires
        0 <= i < inventory.len(),
        inventory[i].has_address(),
        inventory[i].names.contains(name),
        forall|k: int| i < k < inventory.len() ==> !names_key(#[trigger] inventory[k], normalize(name)),
        elapsed(advanced(before.last_refresh, at), now) <= config.hit_timeout.nanos,
    ensures
        !wants_refresh(config, refreshed(before, inventory, at), normalize(name), now),
        lookup_in(refreshed(before, inventory, at), normalize(name)) == Some(response_of(inventory[i])),
        response_of(inventory[i]).ipv4_addresses == inventory[i].ipv4_addresses,
        response_of(inventory[i]).ipv6_addresses == inventory[i].ipv6_addresses,
{
    let key = normalize(name);
    let j = choose|j: int| 0 <= j < inventory[i].names.len() && inventory[i].names[j] == name;
    lemma_mapping_last_wins(inventory, key, i);
}

/// A name that no record of the inventory holds does not resolve after a
/// refresh with that inventory.
pub proof fn lemma_absent_name_unresolved(
    before: CacheModel,
    inventory: Seq<NetworkInfoModel>,
    at: Moment,
    key: Seq<char>,
)
    requires
        forall|i: int| 0 <= i < inventory.len() ==> !names_key(#[trigger] inventory[i], key),
    ensures
        lookup_in(refreshed(before, inventory, at), key) is None,
{
    lemma_mapping_keys(inventory, key);
}

/// A refresh whose fetch brought an inventory within the limit leaves the
/// cache refreshed with that inventory. A fetch that failed leaves the cache
/// as it was, and so does one that took longer than the limit, which counts
/// as a timeout whatever it brought.
pub proof fn lemma_refresh_outcomes(
    cache: CacheModel,
    fetched: Result<Seq<NetworkInfoModel>, RefreshError>,
    took: TimeSpan,
    limit: TimeSpan,
    now: Moment,
)
    ensures
        fetched is Ok && took.nanos <= limit.nanos ==> after_refresh(
            cache,
            fetch_outcome(fetched, took, limit),
            now,
        ) == refreshed(cache, fetched->Ok_0, now),
        fetched is Err || took.nanos > limit.nanos ==> after_refresh(
            cache,
            fetch_outcome(fetched, took, limit),
            now,
        ) == cache,
        took.nanos > limit.nanos ==> fetch_outcome(fetched, took, limit) == Err::<
            Map<Seq<char>, DnsResponseModel>,
            RefreshError,
        >(RefreshError::Timeout),
{
}

/// An answer that comes from the cache without a refresh is fresh: a response
/// is no older than the hit timeout, and a missing name was missing no longer
/// ago than the miss timeout.
pub proof fn lemma_cached_answer_is_fresh(
    config: DockerResolverConfig,
    cache: CacheModel,
    key: Seq<char>,
    now: Moment,
)
    requires
        !wants_refresh(config, cache, key, now),
    ensures
        cache.last_refresh is Some,
        elapsed(cache.last_refresh->0, now) <= config.hit_timeout.nanos,
        lookup_in(cache, key) is None ==> elapsed(cache.last_refresh->0, now)
            <= config.miss_timeout.nanos,
{
}

/// Where the miss timeout is no longer than the hit timeout, a lookup that
/// asks for a refresh is not turned away at the same moment: the inventory
/// is fetched.
pub proof fn lemma_wanted_refresh_is_due(
    config: DockerResolverConfig,
    cache: CacheModel,
    key: Seq<char>,
    now: Moment,
)
    requires
        config.valid(),
        wants_refresh(config, cache, key, now),
    ensures
        fetch_due(config, cache.last_refresh, now),
{
}

/// The moment of the last refresh never goes back: after a refresh at `now`
/// it is `now` or later, and no earlier than it was.
pub proof fn lemma_last_refresh_advances(
    cache: CacheModel,
    mappings: Map<Seq<char>, DnsResponseModel>,
    now: Moment,
)
    ensures
        replaced(cache, mappings, now).last_refresh is Some,
        replaced(cache, mappings, now).last_refresh->0.nanos >= now.nanos,
        cache.last_refresh matches Some(before) ==> replaced(cache, mappings, now).last_refresh->0.nanos
            >= before.nanos,
        cache.last_refresh matches Some(before) ==> (before.nanos <= now.nanos ==> replaced(
            cache,
            mappings,
            now,
        ).last_refresh == Some(now)),
        cache.last_refresh is None ==> replaced(cache, mappings, now).last_refresh == Some(now),
{
}

/// One lookup: the key that is looked up, and the moment of the lookup.
pub struct Lookup {
    pub key: Seq<char>,
    pub at: Moment,
}

/// Whether the lookups come in the order of their moments.
pub open spec fn in_order(lookups: Seq<Lookup>) -> bool {
    forall|i: int, j: int| 0 <= i <= j < lookups.len() ==> lookups[i].at.nanos <= lookups[j].at.nanos
}

/// How often the inventory is fetched over a run of lookups, one after the
/// other, where every fetch succeeds and brings the same inventory.
pub open spec fn fetch_count(
    config: DockerResolverConfig,
    cache: CacheModel,
    inventory: Seq<NetworkInfoModel>,
    lookups: Seq<Lookup>,
) -> nat
    decreases lookups.len(),
{
    if lookups.len() == 0 {
        0
    } else {
        let first = lookups.first();
        if wants_refresh(config, cache, first.key, first.at) && fetch_due(
            config,
            cache.last_refresh,
            first.at,
        ) {
            1 + fetch_count(config, refreshed(cache, inventory, first.at), inventory, lookups.drop_first())
        } else {
            fetch_count(config, cache, inventory, lookups.drop_first())
        }
    }
}

/// The quotient of two numbers, rounded up.
pub open spec fn ceil_div(a: nat, b: nat) -> nat
    recommends
        b > 0,
{
    ((a + b - 1) / (b as int)) as nat
}

/// Lookups in order stay in order without the first of them.
proof fn lemma_in_order_rest(lookups: Seq<Lookup>)
    requires
        in_order(lookups),
        lookups.len() > 0,
    ensures
        in_order(lookups.drop_first()),
        lookups.len() > 1 ==> lookups.drop_first().first().at.nanos >= lookups.first().at.nanos
            && lookups.drop_first().last() == lookups.last(),
{
    let rest = lookups.drop_first();
    assert forall|i: int, j: int| 0 <= i <= j < rest.len() implies rest[i].at.nanos
        <= rest[j].at.nanos by {
        assert(rest[i] == lookups[i + 1]);
        assert(rest[j] == lookups[j + 1]);
    }
}

/// Between two fetches lies at least the miss timeout: after a refresh at
/// `since`, the fetches of the lookups that follow fit into the time from
/// `since` to the last lookup.
proof fn lemma_fetches_after_refresh(
    config: DockerResolverConfig,
    cache: CacheModel,
    inventory: Seq<NetworkInfoModel>,
    lookups: Seq<Lookup>,
    since: Moment,
)
    requires
        config.miss_timeout.nanos > 0,
        in_order(lookups),
        cache.last_refresh == Some(since),
        lookups.len() > 0 ==> since.nanos <= lookups.first().at.nanos,
    ensures
        lookups.len() == 0 ==> fetch_count(config, cache, inventory, lookups) == 0,
        lookups.len() > 0 ==> fetch_count(config, cache, inventory, lookups) * config.miss_timeout.nanos
            <= lookups.last().at.nanos - since.nanos,
    decreases lookups.len(),
{
    if lookups.len() > 0 {
        let first = lookups.first();
        let rest = lookups.drop_first();
        let miss = config.miss_timeout.nanos as int;
        lemma_in_order_rest(lookups);
        assert(lookups[0].at.nanos <= lookups[lookups.len() - 1].at.nanos);
        let count = fetch_count(config, cache, inventory, lookups) as int;
        let span = lookups.last().at.nanos - since.nanos;
        if wants_refresh(config, cache, first.key, first.at) && fetch_due(
            config,
            cache.last_refresh,
            first.at,
        ) {
            let next = refreshed(cache, inventory, first.at);
            assert(next.last_refresh == Some(first.at));
            lemma_fetches_after_refresh(config, next, inventory, rest, first.at);
            let later = fetch_count(config, next, inventory, rest) as int;
            if rest.len() == 0 {
                assert(later * miss == 0) by (nonlinear_arith)
                    requires
                        later == 0,
                ;
            }
            assert(count * miss == miss + later * miss) by (nonlinear_arith)
                requires
                    count == 1 + later,
            ;
        } else {
            lemma_fetches_after_refresh(config, cache, inventory, rest, since);
            let later = fetch_count(config, cache, inventory, rest) as int;
            if rest.len() == 0 {
                assert(count * miss == 0) by (nonlinear_arith)
                    requires
                        count == 0,
                ;
            }
        }
    }
}

/// Over a run of lookups that come in the order of their moments, with a
/// provider whose every fetch succeeds, the inventory is fetched at most once
/// more than the miss timeout fits into the time from the first lookup to the
/// last, rounded up.
pub proof fn lemma_fetches_bounded(
    config: DockerResolverConfig,
    cache: CacheModel,
    inventory: Seq<NetworkInfoModel>,
    lookups: Seq<Lookup>,
)
    requires
        config.miss_timeout.nanos > 0,
        lookups.len() > 0,
        in_order(lookups),
    ensures
        fetch_count(config, cache, inventory, lookups) <= ceil_div(
            elapsed(lookups.first().at, lookups.last().at),
            config.miss_timeout.nanos as nat,
        ) + 1,
        (fetch_count(config, cache, inventory, lookups) - 1) * config.miss_timeout.nanos <= elapsed(
            lookups.first().at,
            lookups.last().at,
        ),
    decreases lookups.len(),
{
    let first = lookups.first();
    let rest = lookups.drop_first();
    let miss = config.miss_timeout.nanos as int;
    let total = elapsed(first.at, lookups.last().at) as int;
    let count = fetch_count(config, cache, inventory, lookups) as int;
    lemma_in_order_rest(lookups);
    assert(lookups[0].at.nanos <= lookups[lookups.len() - 1].at.nanos);
    if wants_refresh(config, cache, first.key, first.at) && fetch_due(
        config,
        cache.last_refresh,
        first.at,
    ) {
        let next = refreshed(cache, inventory, first.at);
        assert(next.last_refresh == Some(first.at));
        lemma_fetches_after_refresh(config, next, inventory, rest, first.at);
        let later = fetch_count(config, next, inventory, rest) as int;
        if rest.len() == 0 {
            assert(later * miss == 0) by (nonlinear_arith)
                requires
                    later == 0,
            ;
        }
    } else {
        if rest.len() > 0 {
            lemma_fetches_bounded(config, cache, inventory, rest);
        } else {
            assert(fetch_count(config, cache, inventory, rest) == 0);
            assert((count - 1) * miss <= total) by (nonlinear_arith)
                requires
                    count == 0,
                    miss > 0,
                    total >= 0,
            ;
        }
    }
    assert(count <= (total + miss - 1) / miss + 1) by (nonlinear_arith)
        requires
            (count - 1) * miss <= total,
            miss > 0,
            total >= 0,
    ;
}

/// How often the inventory is fetched when callers that all asked for a
/// refresh take their turn, one at each of the moments, where every fetch
/// succeeds and brings the same inventory.
pub open spec fn storm_fetch_count(
    config: DockerResolverConfig,
    cache: CacheModel,
    inventory: Seq<NetworkInfoModel>,
    turns: Seq<Moment>,
) -> nat
    decreases turns.len(),
{
    if turns.len() == 0 {
        0
    } else if fetch_due(config, cache.last_refresh, turns.first()) {
        1 + storm_fetch_count(
            config,
            refreshed(cache, inventory, turns.first()),
            inventory,
            turns.drop_first(),
        )
    } else {
        storm_fetch_count(config, cache, inventory, turns.drop_first())
    }
}

/// Callers that take their turn less than the miss timeout after a refresh
/// fetch nothing.
proof fn lemma_storm_after_refresh(
    config: DockerResolverConfig,
    cache: CacheModel,
    inventory: Seq<NetworkInfoModel>,
    turns: Seq<Moment>,
    since: Moment,
)
    requires
        cache.last_refresh == Some(since),
        forall|i: int| 0 <= i < turns.len() ==> elapsed(since, #[trigger] turns[i])
            < config.miss_timeout.nanos,
    ensures
        storm_fetch_count(config, cache, inventory, turns) == 0,
    decreases turns.len(),
{
    if turns.len() > 0 {
        let rest = turns.drop_first();
        assert forall|i: int| 0 <= i < rest.len() implies elapsed(since, #[trigger] rest[i])
            < config.miss_timeout.nanos by {
            assert(rest[i] == turns[i + 1]);
        }
        lemma_storm_after_refresh(config, cache, inventory, rest, since);
    }
}

/// From an empty cache, callers that all ask for a refresh and take their
/// turn within less than the miss timeout of the first fetch the inventory
/// once between them, where that fetch succeeds.
pub proof fn lemma_storm_fetches_once(
    config: DockerResolverConfig,
    inventory: Seq<NetworkInfoModel>,
    turns: Seq<Moment>,
)
    requires
        turns.len() > 0,
        forall|i: int| 0 <= i < turns.len() ==> elapsed(turns.first(), #[trigger] turns[i])
            < config.miss_timeout.nanos,
    ensures
        storm_fetch_count(config, empty_cache(), inventory, turns) == 1,
{
    let rest = turns.drop_first();
    let next = refreshed(empty_cache(), inventory, turns.first());
    assert forall|i: int| 0 <= i < rest.len() implies elapsed(turns.first(), #[trigger] rest[i])
        < config.miss_timeout.nanos by {
        assert(rest[i] == turns[i + 1]);
    }
    lemma_storm_after_refresh(config, next, inventory, rest, turns.first());
}

} // verus!
