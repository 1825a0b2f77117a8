//! The client's copy of one subscribed config item.

use crate::crypto::{get_md5_string, hex_lower, md5_digest};
use crate::remote::request::ConfigListenContext;
use crate::text::{is_blank, str_eq, str_is_blank};
use vstd::prelude::*;
use vstd::utf8::encode_utf8;

verus! {

/// What the server answers when asked for a config.
#[derive(Debug)]
pub struct ConfigResponse {
    pub tenant: String,
    pub data_id: String,
    pub group: String,
    pub content: String,
    pub config_type: String,
    pub encrypted_data_key: String,
}

/// One subscribed config item: its identity, its content and the content's
/// digest, and where it stands with the server.
#[derive(Debug)]
pub struct CacheData {
    name: String,
    data_id: String,
    group: String,
    tenant: String,
    md5: String,
    is_use_local_config: bool,
    local_config_last_modified: u64,
    content: String,
    encrypted_data_key: String,
    last_modified_ts: u64,
    task_id: String,
    ty: String,
    is_init: bool,
    is_sync_with_server: bool,
}

/// A `CacheData` as plain values.
pub struct CacheView {
    pub data_id: Seq<char>,
    pub group: Seq<char>,
    pub tenant: Seq<char>,
    pub task_id: Seq<char>,
    pub content: Seq<char>,
    pub md5: Seq<char>,
    pub synced: bool,
}

impl DeepView for CacheData {
    type V = CacheView;

    open spec fn deep_view(&self) -> CacheView {
        CacheView {
            data_id: self.data_id_view(),
            group: self.group_view(),
            tenant: self.tenant_view(),
            task_id: self.task_id_view(),
            content: self.content_view(),
            md5: self.md5_view(),
            synced: self.synced(),
        }
    }
}

/// The digest of a content: the MD5 of its UTF-8 bytes in lower-case hexadecimal.
pub open spec fn digest_of(content: Seq<char>) -> Seq<char> {
    hex_lower(md5_digest(encode_utf8(content)))
}

impl CacheData {
    pub closed spec fn data_id_view(&self) -> Seq<char> {
        self.data_id@
    }

    pub closed spec fn group_view(&self) -> Seq<char> {
        self.group@
    }

    pub closed spec fn tenant_view(&self) -> Seq<char> {
        self.tenant@
    }

    pub closed spec fn task_id_view(&self) -> Seq<char> {
        self.task_id@
    }

    /// The content.
    pub closed spec fn content_view(&self) -> Seq<char> {
        self.content@
    }

    /// The digest that is kept for the content.
    pub closed spec fn md5_view(&self) -> Seq<char> {
        self.md5@
    }

    /// Whether the item is known to be as the server has it.
    pub closed spec fn synced(&self) -> bool {
        self.is_sync_with_server
    }

    /// The digest is the one of the content.
    #[verifier::type_invariant]
    spec fn digest_matches_content(&self) -> bool {
        self.md5@ == digest_of(self.content@)
    }

    /// A new item without content, not yet synchronized with the server.
    pub fn new(data_id: String, group: String, tenant: String, task_id: String) -> (c: Self)
        ensures
            c.data_id_view() == data_id@,
            c.group_view() == group@,
            c.tenant_view() == tenant@,
            c.task_id_view() == task_id@,
            c.content_view() == Seq::<char>::empty(),
            c.md5_view() == digest_of(c.content_view()),
            !c.synced(),
    {
        let content = String::new();
        let md5 = get_md5_string(content.as_str());
        CacheData {
            name: String::new(),
            data_id,
            group,
            tenant,
            md5,
            is_use_local_config: false,
            local_config_last_modified: 0,
            content,
            encrypted_data_key: String::new(),
            last_modified_ts: 0,
            task_id,
            ty: String::new(),
            is_init: true,
            is_sync_with_server: false,
        }
    }

    pub fn data_id(&self) -> (s: &String)
        ensures
            s@ == self.data_id_view(),
    {
        &self.data_id
    }

    pub fn group(&self) -> (s: &String)
        ensures
            s@ == self.group_view(),
    {
        &self.group
    }

    pub fn tenant(&self) -> (s: &String)
        ensures
            s@ == self.tenant_view(),
    {
        &self.tenant
    }

    pub fn task_id(&self) -> (s: &String)
        ensures
            s@ == self.task_id_view(),
    {
        &self.task_id
    }

    /// The content.
    pub fn content(&self) -> (c: &String)
        ensures
            c@ == self.content_view(),
    {
        &self.content
    }

    /// The digest of the content, in lower-case hexadecimal.
    pub fn md5(&self) -> (d: &String)
        ensures
            d@ == self.md5_view(),
            d@ == digest_of(self.content_view()),
    {
        proof {
            use_type_invariant(self);
        }
        &self.md5
    }

    /// Whether the item is known to be as the server has it.
    pub fn is_sync_with_server(&self) -> (r: bool)
        ensures
            r == self.synced(),
    {
        self.is_sync_with_server
    }

    /// Records whether the item is as the server has it.
    pub fn set_sync_with_server(&mut self, synced: bool)
        ensures
            final(self).synced() == synced,
            final(self).content_view() == old(self).content_view(),
            final(self).md5_view() == old(self).md5_view(),
            final(self).data_id_view() == old(self).data_id_view(),
            final(self).group_view() == old(self).group_view(),
            final(self).tenant_view() == old(self).tenant_view(),
            final(self).task_id_view() == old(self).task_id_view(),
    {
        proof {
            use_type_invariant(&*self);
        }
        self.is_sync_with_server = synced;
    }

    /// Replaces the content, and the digest with it.
    pub fn set_content(&mut self, content: String)
        ensures
            final(self).content_view() == content@,
            final(self).md5_view() == digest_of(content@),
            final(self).synced() == old(self).synced(),
            final(self).data_id_view() == old(self).data_id_view(),
            final(self).group_view() == old(self).group_view(),
            final(self).tenant_view() == old(self).tenant_view(),
            final(self).task_id_view() == old(self).task_id_view(),
    {
        let md5 = get_md5_string(content.as_str());
        let mut taken = CacheData::new(String::new(), String::new(), String::new(), String::new());
        core::mem::swap(self, &mut taken);
        *self = CacheData {
            name: taken.name,
            data_id: taken.data_id,
            group: taken.group,
            tenant: taken.tenant,
            md5,
            is_use_local_config: taken.is_use_local_config,
            local_config_last_modified: taken.local_config_last_modified,
            content,
            encrypted_data_key: taken.encrypted_data_key,
            last_modified_ts: taken.last_modified_ts,
            task_id: taken.task_id,
            ty: taken.ty,
            is_init: taken.is_init,
            is_sync_with_server: taken.is_sync_with_server,
        };
    }

    /// The entry of the item in a batched listen request: its group, its
    /// data id, the digest of its content, and its tenant where that is not
    /// blank.
    pub fn listen_context(&self) -> (c: ConfigListenContext)
        ensures
            c.group@ == self.group_view(),
            c.data_id@ == self.data_id_view(),
            c.md5 matches Some(digest) && digest@ == self.md5_view(),
            c.tenant is None <==> is_blank(self.tenant_view()),
            c.tenant matches Some(tenant) ==> tenant@ == self.tenant_view(),
    {
        let tenant = if str_is_blank(self.tenant.as_str()) {
            None
        } else {
            Some(self.tenant.clone())
        };
        ConfigListenContext::new(
            self.group.clone(),
            Some(self.md5.clone()),
            self.data_id.clone(),
            tenant,
        )
    }

    /// Whether a listener that was last told of the digest `listener_md5`
    /// has yet to be told of the content: the digests differ.
    pub fn check_listener_md5(&self, listener_md5: &str) -> (stale: bool)
        ensures
            stale == (listener_md5@ != self.md5_view()),
    {
        !str_eq(self.md5.as_str(), listener_md5)
    }
}

} // verus!
