//! Listeners for the changes of one config.

use crate::listeners::config::ConfigChangeEvent;
use crate::number::{decimal_digits, u64_to_string};
use crate::text::concat;
use vstd::prelude::*;

verus! {

/// A listener that is told of changes key by key.
pub trait AbstractConfigChangeListener {
    /// Does nothing: such a listener has no use for whole contents.
    fn receive_config_info(&self, _config_info: String) {
    }

    /// Handles the changes of a config.
    fn receive_config_change(&self, event: ConfigChangeEvent);
}

/// The numbers from which listeners get their names. Each number is given
/// out once.
#[derive(Debug)]
pub struct ListenerIds {
    next: u64,
}

impl ListenerIds {
    /// The number that is given out next.
    pub closed spec fn upcoming(&self) -> u64 {
        self.next
    }

    /// A source that begins at 0.
    pub fn new() -> (ids: Self)
        ensures
            ids.upcoming() == 0,
    {
        ListenerIds { next: 0 }
    }

    /// Whether a number is left to give out.
    pub fn has_next(&self) -> (r: bool)
        ensures
            r == (self.upcoming() < u64::MAX),
    {
        self.next < u64::MAX
    }

    /// Gives out the next number.
    pub fn take(&mut self) -> (id: u64)
        requires
            old(self).upcoming() < u64::MAX,
        ensures
            id == old(self).upcoming(),
            final(self).upcoming() == id + 1,
    {
        let id = self.next;
        self.next = id + 1;
        id
    }
}

/// The identity of a change listener: the config it listens to, and a name
/// of its own.
#[derive(Debug, PartialEq, Eq, Hash)]
pub struct ConfigChangeListener {
    name: String,
    data_id: String,
    group: String,
}

/// The name of the listener with the number `id`.
pub open spec fn listener_name(id: u64) -> Seq<char> {
    "config-change-listener-"@ + decimal_digits(id as nat)
}

impl ConfigChangeListener {
    pub closed spec fn name_view(&self) -> Seq<char> {
        self.name@
    }

    pub closed spec fn data_id_view(&self) -> Seq<char> {
        self.data_id@
    }

    pub closed spec fn group_view(&self) -> Seq<char> {
        self.group@
    }

    /// A listener for a config, named after the next number of `ids`.
    pub fn new(data_id: &str, group: &str, ids: &mut ListenerIds) -> (l: Self)
        requires
            old(ids).upcoming() < u64::MAX,
        ensures
            l.name_view() == listener_name(old(ids).upcoming()),
            l.data_id_view() == data_id@,
            l.group_view() == group@,
            final(ids).upcoming() == old(ids).upcoming() + 1,
    {
        let id = ids.take();
        let number = u64_to_string(id);
        let name = concat("config-change-listener-".to_owned(), number.as_str());
        ConfigChangeListener { name, data_id: data_id.to_owned(), group: group.to_owned() }
    }

    /// The listener's name.
    pub fn name(&self) -> (s: &String)
        ensures
            s@ == self.name_view(),
    {
        &self.name
    }

    /// Whether two listeners have the same name and listen to the same config.
    pub fn same_as(&self, other: &ConfigChangeListener) -> (r: bool)
        ensures
            r == (self.name_view() == other.name_view() && self.data_id_view()
                == other.data_id_view() && self.group_view() == other.group_view()),
    {
        self.data_id == other.data_id && self.group == other.group && self.name == other.name
    }
}

} // verus!
