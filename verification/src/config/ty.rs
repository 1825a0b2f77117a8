//! The formats that a config can be written in.

use crate::text::str_eq;
use vstd::prelude::*;

verus! {

/// The format of a config.
#[derive(Clone, Copy, Debug, PartialEq, Eq, Structural)]
pub enum ConfigType {
    PROPERTIES,
    XML,
    JSON,
    TEXT,
    /// Declared, but no parser supports it.
    HTML,
    YAML,
}

/// The name of a format.
pub open spec fn type_name_of(t: ConfigType) -> Seq<char> {
    match t {
        ConfigType::PROPERTIES => "properties"@,
        ConfigType::XML => "xml"@,
        ConfigType::JSON => "json"@,
        ConfigType::TEXT => "text"@,
        ConfigType::HTML => "html"@,
        ConfigType::YAML => "yaml"@,
    }
}

/// The format with the given name, where there is one.
pub open spec fn type_named(name: Seq<char>) -> Option<ConfigType> {
    if name == "properties"@ {
        Some(ConfigType::PROPERTIES)
    } else if name == "xml"@ {
        Some(ConfigType::XML)
    } else if name == "json"@ {
        Some(ConfigType::JSON)
    } else if name == "text"@ {
        Some(ConfigType::TEXT)
    } else if name == "html"@ {
        Some(ConfigType::HTML)
    } else if name == "yaml"@ {
        Some(ConfigType::YAML)
    } else {
        None
    }
}

proof fn lemma_names()
    ensures
        "properties"@.len() == 10,
        "xml"@.len() == 3 && "xml"@[0] == 'x',
        "json"@.len() == 4 && "json"@[0] == 'j',
        "text"@.len() == 4 && "text"@[0] == 't',
        "html"@.len() == 4 && "html"@[0] == 'h',
        "yaml"@.len() == 4 && "yaml"@[0] == 'y',
{
    reveal_strlit("properties");
    reveal_strlit("xml");
    reveal_strlit("json");
    reveal_strlit("text");
    reveal_strlit("html");
    reveal_strlit("yaml");
}

/// Every format is found again under its name.
pub proof fn law_name_identifies_type(t: ConfigType)
    ensures
        type_named(type_name_of(t)) == Some(t),
{
    lemma_names();
}

impl ConfigType {
    /// The name of the format.
    pub fn config_type(&self) -> (name: String)
        ensures
            name@ == type_name_of(*self),
    {
        match self {
            ConfigType::PROPERTIES => "properties".to_owned(),
            ConfigType::XML => "xml".to_owned(),
            ConfigType::JSON => "json".to_owned(),
            ConfigType::TEXT => "text".to_owned(),
            ConfigType::HTML => "html".to_owned(),
            ConfigType::YAML => "yaml".to_owned(),
        }
    }

    /// The name of the format.
    pub fn to_string(&self) -> (name: String)
        ensures
            name@ == type_name_of(*self),
    {
        self.config_type()
    }

    /// The format with the given name, where there is one.
    pub fn lookup(value: &str) -> (t: Option<ConfigType>)
        ensures
            t == type_named(value@),
    {
        if str_eq(value, "properties") {
            Some(ConfigType::PROPERTIES)
        } else if str_eq(value, "xml") {
            Some(ConfigType::XML)
        } else if str_eq(value, "json") {
            Some(ConfigType::JSON)
        } else if str_eq(value, "text") {
            Some(ConfigType::TEXT)
        } else if str_eq(value, "html") {
            Some(ConfigType::HTML)
        } else if str_eq(value, "yaml") {
            Some(ConfigType::YAML)
        } else {
            None
        }
    }

    /// The format with the given name, which must be one of the six names.
    pub fn from(value: &str) -> (t: ConfigType)
        requires
            type_named(value@) is Some,
        ensures
            Some(t) == type_named(value@),
    {
        match ConfigType::lookup(value) {
            Some(t) => t,
            None => ConfigType::PROPERTIES,
        }
    }
}

} // verus!
