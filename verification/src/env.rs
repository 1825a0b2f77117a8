//! What the client takes from its environment, with the defaults that hold
//! where the environment is silent.

use crate::strmap::StrMap;
use crate::text::{is_blank, str_is_blank};
use vstd::prelude::*;

verus! {

/// The value of a variable, or `default` where the variable is not set.
pub fn get_env(value: Option<String>, default: &str) -> (v: String)
    ensures
        v@ == (match value {
            Some(s) => s@,
            None => default@,
        }),
{
    match value {
        Some(s) => s,
        None => default.to_owned(),
    }
}

/// The variables from which the labels of a connection are taken.
#[derive(Debug)]
pub struct LabelEnv {
    /// `TASK_ID`
    pub task_id: Option<String>,
    /// `APP_NAME`
    pub app_name: Option<String>,
    /// `VIP_SERVER_TAG`
    pub vip_server_tag: Option<String>,
    /// `AMORY_TAG`
    pub amory_tag: Option<String>,
}

impl Clone for LabelEnv {
    fn clone(&self) -> (c: Self)
        ensures
            c == *self,
    {
        let task_id = match &self.task_id {
            Some(s) => Some(s.clone()),
            None => None,
        };
        let app_name = match &self.app_name {
            Some(s) => Some(s.clone()),
            None => None,
        };
        let vip_server_tag = match &self.vip_server_tag {
            Some(s) => Some(s.clone()),
            None => None,
        };
        let amory_tag = match &self.amory_tag {
            Some(s) => Some(s.clone()),
            None => None,
        };
        LabelEnv { task_id, app_name, vip_server_tag, amory_tag }
    }
}

/// A variable's text, or `default`.
pub open spec fn or_default(value: Option<String>, default: Seq<char>) -> Seq<char> {
    match value {
        Some(s) => s@,
        None => default,
    }
}

/// The labels of a config client.
pub open spec fn config_labels(env: LabelEnv) -> Map<Seq<char>, Seq<char>> {
    Map::<Seq<char>, Seq<char>>::empty().insert("module"@, "config"@).insert(
        "source"@,
        "sdk"@,
    ).insert("taskId"@, or_default(env.task_id, "0"@)).insert(
        "AppName"@,
        or_default(env.app_name, "unknown"@),
    ).insert("Vipserver-Tag"@, or_default(env.vip_server_tag, ""@)).insert(
        "Amory-Tag"@,
        or_default(env.amory_tag, ""@),
    )
}

/// The labels that a config client sends at setup: `module` is `config`,
/// `source` is `sdk`, and `taskId`, `AppName`, `Vipserver-Tag` and
/// `Amory-Tag` come from the environment, with the defaults `0`, `unknown`
/// and, for the two tags, the empty text.
pub fn create_config_labels(env: LabelEnv) -> (labels: StrMap<String>)
    ensures
        labels@ == config_labels(env),
{
    let mut labels: StrMap<String> = StrMap::new();
    labels.insert("module".to_owned(), "config".to_owned());
    labels.insert("source".to_owned(), "sdk".to_owned());
    labels.insert("taskId".to_owned(), get_env(env.task_id, "0"));
    labels.insert("AppName".to_owned(), get_env(env.app_name, "unknown"));
    labels.insert("Vipserver-Tag".to_owned(), get_env(env.vip_server_tag, ""));
    labels.insert("Amory-Tag".to_owned(), get_env(env.amory_tag, ""));
    labels
}

/// The tenant of the client: the tenant id where it is not blank, else the
/// namespace, else the empty text.
pub fn get_user_tenant_for_acm(tenant_id: Option<String>, acm_namespace: Option<String>) -> (tenant:
    String)
    ensures
        tenant@ == (if is_blank(or_default(tenant_id, ""@)) {
            or_default(acm_namespace, ""@)
        } else {
            or_default(tenant_id, ""@)
        }),
{
    let tmp = get_env(tenant_id, "");
    if str_is_blank(tmp.as_str()) {
        get_env(acm_namespace, "")
    } else {
        tmp
    }
}

} // verus!
