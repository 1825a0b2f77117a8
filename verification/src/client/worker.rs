//! The reconciliation loop: the cache of subscribed config items, and what
//! the worker decides each time it is woken.

use crate::cache::{digest_of, CacheData, CacheView};
use crate::consts::{names, val};
use crate::error::NacosResult;
use crate::common::{format_key, GroupKey, GroupKeyView};
use crate::number::{decimal_digits, parse_bool, parse_i32, parse_signed, parse_truth, u64_to_string};
use crate::strmap::StrMap;
use crate::text::{is_blank, lemma_deep_view_push, str_is_blank, str_trim, trim};
use vstd::prelude::*;

verus! {

/// The number of cache items that one listen task serves.
pub const PER_TASK_CONFIG_SIZE: usize = 3000;

/// The time between two full synchronizations, in milliseconds.
pub const FULL_SYNC_INTERVAL_MILLS: i64 = 300000;

/// The group to use for `group`: the default group where it is blank, else
/// `group` without the whitespace around it.
pub open spec fn effective_group(group: Seq<char>) -> Seq<char> {
    if is_blank(group) {
        "DEFAULT_GROUP"@
    } else {
        trim(group)
    }
}

/// Replaces a blank group by the default group and trims any other.
pub fn blank2_default_group(group: String) -> (g: String)
    ensures
        g@ == effective_group(group@),
{
    if str_is_blank(group.as_str()) {
        val::DEFAULT_GROUP.to_owned()
    } else {
        str_trim(group.as_str())
    }
}

/// The key of a config item: with the tenant where it is not blank, else
/// without one.
pub open spec fn key_of(data_id: Seq<char>, group: Seq<char>, tenant: Seq<char>) -> GroupKeyView {
    GroupKeyView {
        data_id,
        group_id: group,
        tenant: if is_blank(tenant) {
            None
        } else {
            Some(tenant)
        },
    }
}

/// Whether a cache can hold a config item: neither its data id nor its group is blank.
pub open spec fn cacheable(data_id: Seq<char>, group: Seq<char>) -> bool {
    !is_blank(data_id) && !is_blank(group)
}

fn make_key(data_id: &str, group: &str, tenant: &str) -> (r: NacosResult<GroupKey>)
    ensures
        r is Ok <==> cacheable(data_id@, group@),
        r matches Ok(k) ==> k@ == key_of(data_id@, group@, tenant@),
{
    if str_is_blank(tenant) {
        GroupKey::new_without_tenant(data_id, group)
    } else {
        GroupKey::new(data_id, group, tenant)
    }
}

/// The cache `after` is the cache `before`, with a new item for the config
/// where `before` held none. A new item stands last, has no content, is not
/// synchronized, and belongs to the listen task whose number is the number
/// of items before it, divided by the items per task.
pub open spec fn added_if_absent(
    keys_before: Seq<Seq<char>>,
    before: Map<Seq<char>, CacheView>,
    keys_after: Seq<Seq<char>>,
    after: Map<Seq<char>, CacheView>,
    data_id: Seq<char>,
    group: Seq<char>,
    tenant: Seq<char>,
) -> bool {
    let key = format_key(key_of(data_id, group, tenant));
    &&& after.contains_key(key)
    &&& before.contains_key(key) ==> after == before && keys_after == keys_before
    &&& !before.contains_key(key) ==> keys_after == keys_before.push(key) && after.remove(key)
        == before && after[key] == (CacheView {
        data_id,
        group,
        tenant,
        task_id: decimal_digits((keys_before.len() / 3000) as nat),
        content: Seq::empty(),
        md5: digest_of(Seq::empty()),
        synced: false,
    })
}

/// The subscribed config items of a client, each under the canonical text
/// of its key.
pub struct CacheMap {
    items: StrMap<CacheData>,
}

impl CacheMap {
    /// The items by the text of their keys.
    pub closed spec fn items(&self) -> Map<Seq<char>, CacheView> {
        self.items@
    }

    /// The texts of the keys, in the order in which the items were added.
    pub closed spec fn keys(&self) -> Seq<Seq<char>> {
        self.items.keys()
    }

    /// A cache without items.
    pub fn new() -> (c: Self)
        ensures
            c.items() == Map::<Seq<char>, CacheView>::empty(),
            c.keys() == Seq::<Seq<char>>::empty(),
    {
        CacheMap { items: StrMap::new() }
    }

    /// The number of items.
    pub fn len(&self) -> (n: usize)
        ensures
            n == self.keys().len(),
            n == self.items().len(),
            self.keys().no_duplicates(),
            forall|k: Seq<char>| self.items().contains_key(k) <==> self.keys().contains(k),
    {
        self.items.len()
    }

    /// The item of a config, where the cache holds it.
    pub fn get_cache(&self, data_id: &str, group: &str, tenant: &str) -> (r: Option<&CacheData>)
        ensures
            r is Some <==> cacheable(data_id@, group@) && self.items().contains_key(
                format_key(key_of(data_id@, group@, tenant@)),
            ),
            r matches Some(c) ==> c.deep_view() == self.items()[format_key(
                key_of(data_id@, group@, tenant@),
            )],
    {
        match make_key(data_id, group, tenant) {
            Ok(key) => {
                let text = key.to_string();
                self.items.get(text.as_str())
            },
            Err(_) => None,
        }
    }

    /// The item under the text of a key, where the cache holds one.
    pub fn get_by_key(&self, key: &str) -> (r: Option<&CacheData>)
        ensures
            r is Some <==> self.items().contains_key(key@),
            r matches Some(c) ==> c.deep_view() == self.items()[key@],
    {
        self.items.get(key)
    }

    /// The item at position `i`.
    pub fn item_at(&self, i: usize) -> (c: &CacheData)
        requires
            i < self.keys().len(),
        ensures
            self.items().contains_key(self.keys()[i as int]),
            c.deep_view() == self.items()[self.keys()[i as int]],
    {
        self.items.value_at(i)
    }

    /// The text of the key at position `i`.
    pub fn key_at(&self, i: usize) -> (k: &String)
        requires
            i < self.keys().len(),
        ensures
            k@ == self.keys()[i as int],
    {
        self.items.key_at(i)
    }

    /// Records whether the item of a config is as the server has it. Returns
    /// whether the cache holds such an item; without one nothing changes.
    pub fn mark_synced(&mut self, data_id: &str, group: &str, tenant: &str, synced: bool) -> (found:
        bool)
        ensures
            final(self).keys() == old(self).keys(),
            found <==> cacheable(data_id@, group@) && old(self).items().contains_key(
                format_key(key_of(data_id@, group@, tenant@)),
            ),
            !found ==> final(self).items() == old(self).items(),
            found ==> {
                let key = format_key(key_of(data_id@, group@, tenant@));
                let before = old(self).items()[key];
                final(self).items() == old(self).items().insert(
                    key,
                    CacheView {
                        data_id: before.data_id,
                        group: before.group,
                        tenant: before.tenant,
                        task_id: before.task_id,
                        content: before.content,
                        md5: before.md5,
                        synced,
                    },
                )
            },
    {
        let key = match make_key(data_id, group, tenant) {
            Ok(key) => key,
            Err(_) => {
                return false;
            },
        };
        let text = key.to_string();
        let at = match self.items.position_of(text.as_str()) {
            Some(at) => at,
            None => {
                return false;
            },
        };
        let ghost before = self.items@;
        let blank = CacheData::new(String::new(), String::new(), String::new(), String::new());
        let mut item = self.items.replace_at(at, blank);
        item.set_sync_with_server(synced);
        let _ = self.items.replace_at(at, item);
        proof {
            assert(self.items@ =~= before.insert(
                text@,
                CacheView {
                    data_id: before[text@].data_id,
                    group: before[text@].group,
                    tenant: before[text@].tenant,
                    task_id: before[text@].task_id,
                    content: before[text@].content,
                    md5: before[text@].md5,
                    synced,
                },
            ));
        }
        true
    }

    /// Makes sure that the cache holds an item for a config and returns the
    /// text of its key. An item that is there stays as it is. A new item has
    /// no content, is not synchronized, and belongs to the listen task whose
    /// number is the number of items before it, divided by the items per task.
    /// A blank data id or group is refused.
    pub fn add_cache_data_if_absent(&mut self, data_id: String, group: String, tenant: &str) -> (r:
        NacosResult<String>)
        ensures
            r is Ok <==> cacheable(data_id@, group@),
            r is Err ==> final(self).items() == old(self).items() && final(self).keys() == old(
                self,
            ).keys(),
            r matches Ok(text) ==> text@ == format_key(key_of(data_id@, group@, tenant@))
                && added_if_absent(
                old(self).keys(),
                old(self).items(),
                final(self).keys(),
                final(self).items(),
                data_id@,
                group@,
                tenant@,
            ),
    {
        let key = match make_key(data_id.as_str(), group.as_str(), tenant) {
            Ok(key) => key,
            Err(e) => {
                return Err(e);
            },
        };
        let text = key.to_string();
        if self.items.contains_key(text.as_str()) {
            return Ok(text);
        }
        let count = self.items.len();
        let task_id = u64_to_string((count / PER_TASK_CONFIG_SIZE) as u64);
        let item = CacheData::new(data_id, group, tenant.to_owned(), task_id);
        let ghost before = self.items@;
        self.items.insert(text.clone(), item);
        proof {
            assert(self.items@.remove(text@) =~= before);
        }
        Ok(text)
    }
}

/// What the worker keeps of its settings, and when it last looked at every item.
pub struct ClientWorker<F> {
    pub is_health_server: bool,
    pub config_filter_chain_manager: Option<F>,
    pub timeout: i32,
    pub task_penalty_time: i32,
    pub enable_remote_sync_config: bool,
    pub last_full_sync_time: i64,
}

/// A property read as a number: its value where it is set and reads as an
/// `i32`, else the default.
pub open spec fn number_property(
    properties: Map<Seq<char>, Seq<char>>,
    name: Seq<char>,
    default: int,
) -> int {
    if properties.contains_key(name) {
        match parse_signed(properties[name], i32::MIN as int, i32::MAX as int) {
            Some(n) => n,
            None => default,
        }
    } else {
        default
    }
}

/// A property read as a truth value, with `false` as the default.
pub open spec fn truth_property(properties: Map<Seq<char>, Seq<char>>, name: Seq<char>) -> bool {
    if properties.contains_key(name) {
        match parse_truth(properties[name]) {
            Some(b) => b,
            None => false,
        }
    } else {
        false
    }
}

/// The long-poll timeout that the properties ask for; never below the minimum.
pub open spec fn long_poll_timeout(properties: Map<Seq<char>, Seq<char>>) -> int {
    let asked = number_property(properties, "config_long_poll_timeout"@, 30000);
    if asked >= 10000 {
        asked
    } else {
        10000
    }
}

fn read_number(properties: &StrMap<String>, name: &str, default: i32) -> (n: i32)
    ensures
        n == number_property(properties@, name@, default as int),
{
    match properties.get(name) {
        Some(text) => match parse_i32(text.as_str()) {
            Some(n) => n,
            None => default,
        },
        None => default,
    }
}

/// Whether a full synchronization is due at the time `now`.
pub open spec fn full_sync_due(last_full_sync_time: i64, now: i64) -> bool {
    now - last_full_sync_time > FULL_SYNC_INTERVAL_MILLS
}

/// The keys of the items that a pass looks at: every item in a full
/// synchronization, else those that are not as the server has them.
pub open spec fn keys_to_check(
    keys: Seq<Seq<char>>,
    items: Map<Seq<char>, CacheView>,
    full: bool,
) -> Seq<Seq<char>> {
    keys.filter(|k: Seq<char>| full || !items[k].synced)
}

impl<F> Default for ClientWorker<F> {
    fn default() -> (w: Self)
        ensures
            !w.is_health_server,
            w.config_filter_chain_manager is None,
            w.timeout == 0,
            w.task_penalty_time == 0,
            !w.enable_remote_sync_config,
            w.last_full_sync_time == 0,
    {
        ClientWorker {
            is_health_server: false,
            config_filter_chain_manager: None,
            timeout: 0,
            task_penalty_time: 0,
            enable_remote_sync_config: false,
            last_full_sync_time: 0,
        }
    }
}

impl<F> ClientWorker<F> {
    /// Takes the worker's settings from the properties. A property that is
    /// absent or does not read as a value of its type has its default.
    pub fn init(&mut self, properties: &StrMap<String>)
        ensures
            final(self).timeout == long_poll_timeout(properties@),
            final(self).task_penalty_time == number_property(
                properties@,
                "config_retry_time"@,
                1000,
            ),
            final(self).enable_remote_sync_config == truth_property(
                properties@,
                "enable_remote_syn_config"@,
            ),
            final(self).is_health_server == old(self).is_health_server,
            final(self).config_filter_chain_manager == old(self).config_filter_chain_manager,
            final(self).last_full_sync_time == old(self).last_full_sync_time,
    {
        let timeout = read_number(
            properties,
            names::CONFIG_LONG_POLL_TIMEOUT,
            val::CONFIG_LONG_POLL_TIMEOUT,
        );
        self.timeout = if timeout >= val::MIN_CONFIG_LONG_POLL_TIMEOUT {
            timeout
        } else {
            val::MIN_CONFIG_LONG_POLL_TIMEOUT
        };
        self.task_penalty_time = read_number(
            properties,
            names::CONFIG_RETRY_TIME,
            val::CONFIG_RETRY_TIME,
        );
        self.enable_remote_sync_config = match properties.get(names::ENABLE_REMOTE_SYNC_CONFIG) {
            Some(text) => match parse_bool(text.as_str()) {
                Some(b) => b,
                None => false,
            },
            None => false,
        };
    }

    /// A worker with the given filter chain and the settings of the properties.
    pub fn new(filter_chain: F, properties: StrMap<String>) -> (w: ClientWorker<F>)
        ensures
            w.config_filter_chain_manager == Some(filter_chain),
            w.timeout == long_poll_timeout(properties@),
            w.task_penalty_time == number_property(properties@, "config_retry_time"@, 1000),
            w.enable_remote_sync_config == truth_property(
                properties@,
                "enable_remote_syn_config"@,
            ),
            !w.is_health_server,
            w.last_full_sync_time == 0,
    {
        let mut client_worker = ClientWorker::default();
        client_worker.config_filter_chain_manager = Some(filter_chain);
        client_worker.init(&properties);
        client_worker
    }

    /// Makes sure that the cache holds an item for the config that listeners
    /// are added to, under the effective group, and returns the text of its key.
    pub fn add_listeners(&mut self, cache: &mut CacheMap, data_id: String, group: String, tenant: &str) -> (r:
        NacosResult<String>)
        ensures
            *final(self) == *old(self),
            r is Ok <==> cacheable(data_id@, effective_group(group@)),
            r matches Ok(text) ==> text@ == format_key(
                key_of(data_id@, effective_group(group@), tenant@),
            ) && added_if_absent(
                old(cache).keys(),
                old(cache).items(),
                final(cache).keys(),
                final(cache).items(),
                data_id@,
                effective_group(group@),
                tenant@,
            ),
            r is Err ==> final(cache).items() == old(cache).items() && final(cache).keys() == old(
                cache,
            ).keys(),
    {
        let group = blank2_default_group(group);
        cache.add_cache_data_if_absent(data_id, group, tenant)
    }

    /// One pass of the worker at the time `now`: the keys of the items to
    /// listen to again, in the order of the cache. A full synchronization is
    /// due when the last one is longer ago than the interval; it takes every
    /// item and is recorded as done at `now`. Any other pass takes the items
    /// that are not as the server has them.
    pub fn execute_config_listen(&mut self, cache: &CacheMap, now: i64) -> (due: Vec<String>)
        ensures
            due.deep_view() == keys_to_check(
                cache.keys(),
                cache.items(),
                full_sync_due(old(self).last_full_sync_time, now),
            ),
            final(self).last_full_sync_time == (if full_sync_due(
                old(self).last_full_sync_time,
                now,
            ) {
                now
            } else {
                old(self).last_full_sync_time
            }),
            final(self).is_health_server == old(self).is_health_server,
            final(self).config_filter_chain_manager == old(self).config_filter_chain_manager,
            final(self).timeout == old(self).timeout,
            final(self).task_penalty_time == old(self).task_penalty_time,
            final(self).enable_remote_sync_config == old(self).enable_remote_sync_config,
    {
        let need_full_sync = (now as i128) - (self.last_full_sync_time as i128) > (
        FULL_SYNC_INTERVAL_MILLS as i128);
        let ghost keys = cache.keys();
        let ghost items = cache.items();
        let ghost wanted = |k: Seq<char>| need_full_sync || !items[k].synced;
        let n = cache.len();
        let mut due: Vec<String> = Vec::new();
        let mut i: usize = 0;
        proof {
            reveal(Seq::filter);
            assert(keys.take(0) =~= Seq::<Seq<char>>::empty());
            assert(due.deep_view() =~= Seq::<Seq<char>>::empty());
        }
        while i < n
            invariant
                i <= n,
                n == keys.len(),
                keys == cache.keys(),
                items == cache.items(),
                wanted == (|k: Seq<char>| need_full_sync || !items[k].synced),
                due.deep_view() == keys.take(i as int).filter(wanted),
            decreases n - i,
        {
            let item = cache.item_at(i);
            let ghost grown = due;
            proof {
                reveal(Seq::filter);
                assert(keys.take(i as int + 1).drop_last() =~= keys.take(i as int));
                assert(keys.take(i as int + 1).last() == keys[i as int]);
            }
            if need_full_sync || !item.is_sync_with_server() {
                let key = cache.key_at(i).clone();
                due.push(key);
                proof {
                    lemma_deep_view_push(grown, due, key);
                }
            }
            i = i + 1;
        }
        proof {
            assert(keys.take(n as int) =~= keys);
        }
        if need_full_sync {
            self.last_full_sync_time = now;
        }
        due
    }
}

} // verus!
