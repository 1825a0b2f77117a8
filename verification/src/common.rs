//! The identity of one subscribable config item.

use crate::error::{ErrorKind, NacosError, NacosResult};
use crate::text::{
    concat, from_chars, has_char, is_blank, lemma_index_of, lemma_index_of_unique,
    split, split_chars, str_is_blank, to_chars,
};
use vstd::prelude::*;

verus! {

/// The key of a config item: its data id, its group and, optionally, its tenant.
#[derive(Debug, Eq, PartialEq, Hash)]
pub struct GroupKey {
    group_id: String,
    data_id: String,
    tenant: Option<String>,
}

/// A `GroupKey` as plain values.
pub struct GroupKeyView {
    pub data_id: Seq<char>,
    pub group_id: Seq<char>,
    pub tenant: Option<Seq<char>>,
}

impl View for GroupKey {
    type V = GroupKeyView;

    closed spec fn view(&self) -> GroupKeyView {
        GroupKeyView {
            data_id: self.data_id@,
            group_id: self.group_id@,
            tenant: match self.tenant {
                Some(t) => Some(t@),
                None => None,
            },
        }
    }
}

impl Clone for GroupKey {
    fn clone(&self) -> (k: Self)
        ensures
            k@ == self@,
    {
        let tenant = match &self.tenant {
            Some(t) => Some(t.clone()),
            None => None,
        };
        GroupKey { group_id: self.group_id.clone(), data_id: self.data_id.clone(), tenant }
    }
}

/// The message of the error that rejects a blank value for the field `name`.
pub open spec fn invalid_value_message(name: Seq<char>) -> Seq<char> {
    "invalid value "@ + name + ", please check"@
}

/// Rejects a blank `value`; `name` names the field in the error.
pub fn require_nonnull(name: &str, value: &str) -> (r: NacosResult<()>)
    ensures
        r is Ok <==> !is_blank(value@),
        r matches Err(e) ==> e.kind == ErrorKind::InvalidArgument && e.message@
            == invalid_value_message(name@),
{
    if str_is_blank(value) {
        let text = concat(concat(String::from_str("invalid value "), name), ", please check");
        return Err(NacosError { kind: ErrorKind::InvalidArgument, message: text });
    }
    Ok(())
}

/// The canonical text of a key: `dataId+group`, followed by `+tenant` where
/// the key has a tenant.
pub open spec fn format_key(k: GroupKeyView) -> Seq<char> {
    let head = k.data_id + seq!['+'] + k.group_id;
    match k.tenant {
        Some(t) => head + seq!['+'] + t,
        None => head,
    }
}

/// The key that a text denotes: its first two parts between `+` are the data
/// id and the group, a third part is the tenant, further parts are ignored.
/// `None` where the text has no `+`.
pub open spec fn parse_key(s: Seq<char>) -> Option<GroupKeyView> {
    let parts = split(s, '+');
    if parts.len() >= 2 {
        Some(
            GroupKeyView {
                data_id: parts[0],
                group_id: parts[1],
                tenant: if parts.len() >= 3 {
                    Some(parts[2])
                } else {
                    None
                },
            },
        )
    } else {
        None
    }
}

/// A sequence without the separator is its own single part.
pub proof fn lemma_split_whole(a: Seq<char>, sep: char)
    requires
        !has_char(a, sep),
    ensures
        split(a, sep) == seq![a],
{
    lemma_index_of(a, sep);
}

/// A part without the separator, the separator and a rest split into that
/// part and the parts of the rest.
pub proof fn lemma_split_first(a: Seq<char>, rest: Seq<char>, sep: char)
    requires
        !has_char(a, sep),
    ensures
        split(a + seq![sep] + rest, sep) == seq![a] + split(rest, sep),
{
    let s = a + seq![sep] + rest;
    lemma_index_of(a, sep);
    assert forall|j: int| 0 <= j < a.len() implies #[trigger] s[j] != sep by {
        assert(s[j] == a[j]);
    }
    assert(s[a.len() as int] == sep);
    lemma_index_of_unique(s, sep, a.len() as int);
    assert(s.take(a.len() as int) == a);
    assert(s.skip(a.len() as int + 1) == rest);
}

/// Formatting a key and parsing the text gives the key back, provided that
/// no part of the key holds a `+`.
pub proof fn law_parse_inverts_format(k: GroupKeyView)
    requires
        !has_char(k.data_id, '+'),
        !has_char(k.group_id, '+'),
        k.tenant matches Some(t) ==> !has_char(t, '+'),
    ensures
        parse_key(format_key(k)) == Some(k),
{
    match k.tenant {
        Some(t) => {
            let tail = k.group_id + seq!['+'] + t;
            assert(format_key(k) == k.data_id + seq!['+'] + tail);
            lemma_split_first(k.data_id, tail, '+');
            lemma_split_first(k.group_id, t, '+');
            lemma_split_whole(t, '+');
            assert(split(format_key(k), '+') == seq![k.data_id, k.group_id, t]);
        },
        None => {
            lemma_split_first(k.data_id, k.group_id, '+');
            lemma_split_whole(k.group_id, '+');
            assert(split(format_key(k), '+') == seq![k.data_id, k.group_id]);
        },
    }
}

impl GroupKey {
    /// A key without a tenant. Neither value may be blank.
    pub fn new_without_tenant(data_id: &str, group_id: &str) -> (r: NacosResult<Self>)
        ensures
            r is Ok <==> !is_blank(data_id@) && !is_blank(group_id@),
            r matches Ok(k) ==> k@ == (GroupKeyView {
                data_id: data_id@,
                group_id: group_id@,
                tenant: None,
            }),
            r matches Err(e) ==> e.kind == ErrorKind::InvalidArgument && e.message@ == (
            if is_blank(data_id@) {
                invalid_value_message("data_id"@)
            } else {
                invalid_value_message("group_id"@)
            }),
    {
        match require_nonnull("data_id", data_id) {
            Err(e) => {
                return Err(e);
            },
            Ok(_) => {},
        }
        match require_nonnull("group_id", group_id) {
            Err(e) => {
                return Err(e);
            },
            Ok(_) => {},
        }
        Ok(GroupKey { group_id: group_id.to_owned(), data_id: data_id.to_owned(), tenant: None })
    }

    /// A key with a tenant. None of the values may be blank.
    pub fn new(data_id: &str, group_id: &str, tenant: &str) -> (r: NacosResult<Self>)
        ensures
            r is Ok <==> !is_blank(data_id@) && !is_blank(group_id@) && !is_blank(tenant@),
            r matches Ok(k) ==> k@ == (GroupKeyView {
                data_id: data_id@,
                group_id: group_id@,
                tenant: Some(tenant@),
            }),
            r matches Err(e) ==> e.kind == ErrorKind::InvalidArgument && e.message@ == (
            if is_blank(data_id@) {
                invalid_value_message("data_id"@)
            } else if is_blank(group_id@) {
                invalid_value_message("group_id"@)
            } else {
                invalid_value_message("tenant"@)
            }),
    {
        match require_nonnull("data_id", data_id) {
            Err(e) => {
                return Err(e);
            },
            Ok(_) => {},
        }
        match require_nonnull("group_id", group_id) {
            Err(e) => {
                return Err(e);
            },
            Ok(_) => {},
        }
        match require_nonnull("tenant", tenant) {
            Err(e) => {
                return Err(e);
            },
            Ok(_) => {},
        }
        Ok(
            GroupKey {
                group_id: group_id.to_owned(),
                data_id: data_id.to_owned(),
                tenant: Some(tenant.to_owned()),
            },
        )
    }

    /// The data id.
    pub fn data_id(&self) -> (s: &String)
        ensures
            s@ == self@.data_id,
    {
        &self.data_id
    }

    /// The group.
    pub fn group_id(&self) -> (s: &String)
        ensures
            s@ == self@.group_id,
    {
        &self.group_id
    }

    /// The tenant, where the key has one.
    pub fn tenant(&self) -> (t: &Option<String>)
        ensures
            t is Some == self@.tenant is Some,
            t matches Some(s) ==> self@.tenant == Some(s@),
    {
        &self.tenant
    }

    /// Whether two keys hold the same three values.
    pub fn same_as(&self, other: &GroupKey) -> (r: bool)
        ensures
            r == (self@ == other@),
    {
        let tenants = match (&self.tenant, &other.tenant) {
            (Some(a), Some(b)) => *a == *b,
            (None, None) => true,
            _ => false,
        };
        self.data_id == other.data_id && self.group_id == other.group_id && tenants
    }

    /// The canonical text of the key.
    pub fn to_string(&self) -> (s: String)
        ensures
            s@ == format_key(self@),
    {
        proof {
            reveal_strlit("+");
            assert("+"@ =~= seq!['+']);
        }
        let mut result = concat(concat(self.data_id.clone(), "+"), self.group_id.as_str());
        match &self.tenant {
            Some(t) => {
                result = concat(concat(result, "+"), t.as_str());
            },
            None => {},
        }
        result
    }

    /// Reads a key from its canonical text.
    pub fn parse(value: &str) -> (r: NacosResult<GroupKey>)
        ensures
            match r {
                Ok(k) => parse_key(value@) == Some(k@),
                Err(e) => parse_key(value@) is None && e.kind == ErrorKind::Parse,
            },
    {
        let chars = to_chars(value);
        let parts = split_chars(&chars, '+');
        proof {
            let all = parts.deep_view();
            assert(all.len() == parts.len());
            if parts.len() > 0 {
                assert(all[0] == parts@[0]@);
            }
            if parts.len() > 1 {
                assert(all[1] == parts@[1]@);
            }
            if parts.len() > 2 {
                assert(all[2] == parts@[2]@);
            }
        }
        if parts.len() < 2 {
            return Err(NacosError::msg(ErrorKind::Parse, "group parse error"));
        }
        let tenant = if parts.len() >= 3 {
            Some(from_chars(&parts[2]))
        } else {
            None
        };
        Ok(GroupKey { data_id: from_chars(&parts[0]), group_id: from_chars(&parts[1]), tenant })
    }
}

impl TryFrom<String> for GroupKey {
    type Error = NacosError;

    /// Reads a key from its canonical text, as `GroupKey::parse` does.
    fn try_from(value: String) -> (r: Result<Self, NacosError>)
        ensures
            match r {
                Ok(k) => parse_key(value@) == Some(k@),
                Err(e) => parse_key(value@) is None && e.kind == ErrorKind::Parse,
            },
    {
        GroupKey::parse(value.as_str())
    }
}

impl vstd::std_specs::convert::TryFromSpecImpl<String> for GroupKey {
    open spec fn obeys_try_from_spec() -> bool {
        false
    }

    open spec fn try_from_spec(v: String) -> Result<Self, NacosError> {
        arbitrary()
    }
}

} // verus!
