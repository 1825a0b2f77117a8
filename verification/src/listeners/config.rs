//! Content diffing: from two texts and a declared format to the set of
//! added, modified and deleted keys.

use crate::error::{ErrorKind, NacosError, NacosResult};
use crate::strmap::{lemma_take_next, StrMap};
use crate::text::{
    eq_ignore_ascii_case, from_chars, lines, lines_of, split_once, split_once_chars,
    str_eq_ignore_ascii_case, to_chars,
};
use vstd::prelude::*;

verus! {

/// How a key changed between two versions of a config.
#[derive(Debug, PartialEq, Eq, Clone, Copy, Structural)]
pub enum PropertyChangeType {
    ADDED,
    MODIFIED,
    DELETED,
}

/// One changed key, with its value before and after. A value that does not
/// exist on one side is the empty string.
#[derive(Debug, PartialEq, Clone)]
pub struct ConfigChangeItem {
    pub key: String,
    pub old_value: String,
    pub new_value: String,
    pub ty: PropertyChangeType,
}

/// A `ConfigChangeItem` as plain values.
pub struct ChangeView {
    pub key: Seq<char>,
    pub old_value: Seq<char>,
    pub new_value: Seq<char>,
    pub ty: PropertyChangeType,
}

impl View for ConfigChangeItem {
    type V = ChangeView;

    open spec fn view(&self) -> ChangeView {
        ChangeView {
            key: self.key@,
            old_value: self.old_value@,
            new_value: self.new_value@,
            ty: self.ty,
        }
    }
}

impl DeepView for ConfigChangeItem {
    type V = ChangeView;

    open spec fn deep_view(&self) -> ChangeView {
        self.view()
    }
}

/// The changes of one config, by key.
pub struct ConfigChangeEvent {
    pub data: StrMap<ConfigChangeItem>,
}

/// How `k` changed from `old` to `new`; `None` where it did not change or is
/// in neither map.
pub open spec fn change_of(
    old: Map<Seq<char>, Seq<char>>,
    new: Map<Seq<char>, Seq<char>>,
    k: Seq<char>,
) -> Option<ChangeView> {
    if old.contains_key(k) {
        if new.contains_key(k) {
            if old[k] == new[k] {
                None
            } else {
                Some(
                    ChangeView {
                        key: k,
                        old_value: old[k],
                        new_value: new[k],
                        ty: PropertyChangeType::MODIFIED,
                    },
                )
            }
        } else {
            Some(
                ChangeView {
                    key: k,
                    old_value: old[k],
                    new_value: Seq::empty(),
                    ty: PropertyChangeType::DELETED,
                },
            )
        }
    } else if new.contains_key(k) {
        Some(
            ChangeView {
                key: k,
                old_value: Seq::empty(),
                new_value: new[k],
                ty: PropertyChangeType::ADDED,
            },
        )
    } else {
        None
    }
}

/// The diff of two mappings: every key that changed, with its change.
pub open spec fn diff_maps(
    old: Map<Seq<char>, Seq<char>>,
    new: Map<Seq<char>, Seq<char>>,
) -> Map<Seq<char>, ChangeView> {
    Map::new(
        |k: Seq<char>| change_of(old, new, k) is Some,
        |k: Seq<char>| change_of(old, new, k).unwrap(),
    )
}

/// A mapping does not differ from itself.
pub proof fn lemma_diff_of_equal_maps(m: Map<Seq<char>, Seq<char>>)
    ensures
        diff_maps(m, m) == Map::<Seq<char>, ChangeView>::empty(),
{
    assert(diff_maps(m, m) =~= Map::<Seq<char>, ChangeView>::empty());
}

/// The diff holds exactly the keys that are in one mapping only, or in both
/// with different values.
pub proof fn law_diff_holds_the_changed_keys(
    old: Map<Seq<char>, Seq<char>>,
    new: Map<Seq<char>, Seq<char>>,
    k: Seq<char>,
)
    ensures
        diff_maps(old, new).contains_key(k) <==> ((old.contains_key(k) != new.contains_key(k)) || (
        old.contains_key(k) && new.contains_key(k) && old[k] != new[k])),
{
}

/// Computes the diff of two mappings.
pub fn filter_change_data(old_map: &StrMap<String>, new_map: &StrMap<String>) -> (result: StrMap<
    ConfigChangeItem,
>)
    ensures
        result@ == diff_maps(old_map@, new_map@),
{
    let mut result: StrMap<ConfigChangeItem> = StrMap::new();
    let n = old_map.len();
    let ghost old_keys = old_map.keys();
    let mut i: usize = 0;
    while i < n
        invariant
            i <= n,
            n == old_keys.len(),
            old_keys == old_map.keys(),
            old_map.keys_describe_map(),
            forall|k: Seq<char>| #[trigger]
                result@.contains_key(k) <==> (old_keys.take(i as int).contains(k) && change_of(
                    old_map@,
                    new_map@,
                    k,
                ) is Some),
            forall|k: Seq<char>| #[trigger]
                result@.contains_key(k) ==> result@[k] == change_of(old_map@, new_map@, k).unwrap(),
        decreases n - i,
    {
        let key = old_map.key_at(i);
        let val = old_map.value_at(i);
        proof {
            lemma_take_next(old_keys, i as int);
        }
        match new_map.get(key.as_str()) {
            Some(new_val) => {
                if *val != *new_val {
                    let cci = ConfigChangeItem {
                        key: key.clone(),
                        old_value: val.clone(),
                        new_value: new_val.clone(),
                        ty: PropertyChangeType::MODIFIED,
                    };
                    result.insert(key.clone(), cci);
                }
            },
            None => {
                let cci = ConfigChangeItem {
                    key: key.clone(),
                    old_value: val.clone(),
                    new_value: String::new(),
                    ty: PropertyChangeType::DELETED,
                };
                result.insert(key.clone(), cci);
            },
        }
        i = i + 1;
    }
    let m = new_map.len();
    let ghost new_keys = new_map.keys();
    proof {
        assert(old_keys.take(n as int) == old_keys);
    }
    let mut j: usize = 0;
    while j < m
        invariant
            j <= m,
            m == new_keys.len(),
            new_keys == new_map.keys(),
            new_map.keys_describe_map(),
            old_map.keys_describe_map(),
            forall|k: Seq<char>| #[trigger]
                result@.contains_key(k) <==> ((old_map@.contains_key(k) || new_keys.take(
                    j as int,
                ).contains(k)) && change_of(old_map@, new_map@, k) is Some),
            forall|k: Seq<char>| #[trigger]
                result@.contains_key(k) ==> result@[k] == change_of(old_map@, new_map@, k).unwrap(),
        decreases m - j,
    {
        let key = new_map.key_at(j);
        let val = new_map.value_at(j);
        proof {
            lemma_take_next(new_keys, j as int);
        }
        if !old_map.contains_key(key.as_str()) {
            let cci = ConfigChangeItem {
                key: key.clone(),
                old_value: String::new(),
                new_value: val.clone(),
                ty: PropertyChangeType::ADDED,
            };
            result.insert(key.clone(), cci);
        }
        j = j + 1;
    }
    proof {
        assert(new_keys.take(m as int) == new_keys);
        assert(result@ =~= diff_maps(old_map@, new_map@));
    }
    result
}

/// A line that the properties format passes over.
pub open spec fn is_comment(line: Seq<char>) -> bool {
    line.len() > 0 && line[0] == '#'
}

/// The mapping that a run of lines denotes in the properties format: every
/// line that is no comment is split at its first `=`, and a later line wins
/// over an earlier one with the same key. `None` where such a line has no `=`.
pub open spec fn parse_lines(ls: Seq<Seq<char>>) -> Option<Map<Seq<char>, Seq<char>>>
    decreases ls.len(),
{
    if ls.len() == 0 {
        Some(Map::empty())
    } else {
        match parse_lines(ls.drop_last()) {
            None => None,
            Some(m) => {
                let line = ls.last();
                if is_comment(line) {
                    Some(m)
                } else {
                    match split_once(line, '=') {
                        Some((k, v)) => Some(m.insert(k, v)),
                        None => None,
                    }
                }
            },
        }
    }
}

/// The mapping that a text denotes in the properties format.
pub open spec fn properties_of(text: Seq<char>) -> Option<Map<Seq<char>, Seq<char>>> {
    parse_lines(lines(text))
}

/// Once a run of lines fails to parse, no longer run parses.
pub proof fn lemma_parse_lines_fails_on(ls: Seq<Seq<char>>, n: int)
    requires
        0 <= n <= ls.len(),
        parse_lines(ls.take(n)) is None,
    ensures
        parse_lines(ls) is None,
    decreases ls.len() - n,
{
    if n == ls.len() {
        assert(ls.take(n) == ls);
    } else {
        assert(ls.take(n + 1).drop_last() == ls.take(n));
        lemma_parse_lines_fails_on(ls, n + 1);
    }
}

/// What a parser reports for two texts: their diff, or the kind of the failure.
pub open spec fn properties_outcome(old: Seq<char>, new: Seq<char>) -> Result<
    Map<Seq<char>, ChangeView>,
    ErrorKind,
> {
    match (properties_of(old), properties_of(new)) {
        (Some(a), Some(b)) => Ok(diff_maps(a, b)),
        _ => Err(ErrorKind::Parse),
    }
}

/// A text in the properties format does not differ from itself.
pub proof fn law_identical_texts_have_empty_diff(text: Seq<char>)
    requires
        properties_of(text) is Some,
    ensures
        properties_outcome(text, text) == Ok::<Map<Seq<char>, ChangeView>, ErrorKind>(Map::empty()),
{
    lemma_diff_of_equal_maps(properties_of(text).unwrap());
}

/// A format-specific diff.
pub trait ConfigChangeParser {
    /// The config types that this parser claims.
    spec fn claims(&self, ty: Seq<char>) -> bool;

    /// What this parser reports for two texts.
    spec fn outcome(&self, old_content: Seq<char>, new_content: Seq<char>) -> Result<
        Map<Seq<char>, ChangeView>,
        ErrorKind,
    >;

    /// Whether this parser computes diffs for the config type `ty`.
    fn is_responsible_for(&self, ty: String) -> (r: bool)
        ensures
            r == self.claims(ty@),
    ;

    /// Compares the old and the new content.
    fn do_parse(&self, old_content: &str, new_content: &str) -> (r: NacosResult<
        StrMap<ConfigChangeItem>,
    >)
        ensures
            match r {
                Ok(m) => self.outcome(old_content@, new_content@) == Ok::<
                    Map<Seq<char>, ChangeView>,
                    ErrorKind,
                >(m@),
                Err(e) => self.outcome(old_content@, new_content@) == Err::<
                    Map<Seq<char>, ChangeView>,
                    ErrorKind,
                >(e.kind),
            },
    ;

    /// The diff of two mappings; the same for every format.
    fn filter_change_data(&self, old_map: &StrMap<String>, new_map: &StrMap<String>) -> (result:
        StrMap<ConfigChangeItem>)
        ensures
            result@ == diff_maps(old_map@, new_map@),
    {
        filter_change_data(old_map, new_map)
    }
}

/// The parser of the properties format: one `key=value` per line, `#` starts
/// a comment line.
pub struct PropertiesConfigChangeParser;

/// The parser that claims YAML. It computes no diff yet and reports every
/// input as unsupported.
pub struct YamlConfigChangeParser;

/// The name that the properties parser answers to.
pub open spec fn properties_name() -> Seq<char> {
    seq!['P', 'R', 'O', 'P', 'E', 'R', 'T', 'I', 'E', 'S']
}

/// The name that the YAML parser answers to.
pub open spec fn yaml_name() -> Seq<char> {
    seq!['Y', 'A', 'M', 'L']
}

impl PropertiesConfigChangeParser {
    /// Reads a text in the properties format.
    pub fn parse_properties(&self, text: &str) -> (r: NacosResult<StrMap<String>>)
        ensures
            match r {
                Ok(m) => properties_of(text@) == Some(m@),
                Err(e) => properties_of(text@) is None && e.kind == ErrorKind::Parse,
            },
    {
        let chars = to_chars(text);
        let ls = lines_of(&chars);
        let ghost all = ls.deep_view();
        let mut result: StrMap<String> = StrMap::new();
        let mut i: usize = 0;
        proof {
            assert(all.take(0) == Seq::<Seq<char>>::empty());
        }
        while i < ls.len()
            invariant
                i <= ls.len(),
                all == ls.deep_view(),
                all == lines(text@),
                parse_lines(all.take(i as int)) == Some(result@),
            decreases ls.len() - i,
        {
            let line = &ls[i];
            proof {
                assert(all.take(i as int + 1).drop_last() == all.take(i as int));
                assert(all.take(i as int + 1).last() == line@);
            }
            if line.len() > 0 && line[0] == '#' {
            } else {
                match split_once_chars(line, '=') {
                    Some((k, v)) => {
                        result.insert(from_chars(&k), from_chars(&v));
                    },
                    None => {
                        proof {
                            lemma_parse_lines_fails_on(all, i as int + 1);
                        }
                        return Err(NacosError::msg(ErrorKind::Parse, "properties parse error"));
                    },
                }
            }
            i = i + 1;
        }
        proof {
            assert(all.take(ls.len() as int) == all);
        }
        Ok(result)
    }
}

impl ConfigChangeParser for PropertiesConfigChangeParser {
    open spec fn claims(&self, ty: Seq<char>) -> bool {
        eq_ignore_ascii_case(properties_name(), ty)
    }

    open spec fn outcome(&self, old_content: Seq<char>, new_content: Seq<char>) -> Result<
        Map<Seq<char>, ChangeView>,
        ErrorKind,
    > {
        properties_outcome(old_content, new_content)
    }

    fn is_responsible_for(&self, ty: String) -> (r: bool) {
        proof {
            reveal_strlit("PROPERTIES");
            assert("PROPERTIES"@ =~= properties_name());
        }
        str_eq_ignore_ascii_case("PROPERTIES", ty.as_str())
    }

    fn do_parse(&self, old_content: &str, new_content: &str) -> (r: NacosResult<
        StrMap<ConfigChangeItem>,
    >) {
        let old_map = match self.parse_properties(old_content) {
            Ok(m) => m,
            Err(e) => {
                return Err(e);
            },
        };
        let new_map = match self.parse_properties(new_content) {
            Ok(m) => m,
            Err(e) => {
                return Err(e);
            },
        };
        Ok(self.filter_change_data(&old_map, &new_map))
    }
}

impl ConfigChangeParser for YamlConfigChangeParser {
    open spec fn claims(&self, ty: Seq<char>) -> bool {
        eq_ignore_ascii_case(yaml_name(), ty)
    }

    open spec fn outcome(&self, old_content: Seq<char>, new_content: Seq<char>) -> Result<
        Map<Seq<char>, ChangeView>,
        ErrorKind,
    > {
        Err(ErrorKind::UnsupportedFormat)
    }

    fn is_responsible_for(&self, ty: String) -> (r: bool) {
        proof {
            reveal_strlit("YAML");
            assert("YAML"@ =~= yaml_name());
        }
        str_eq_ignore_ascii_case("YAML", ty.as_str())
    }

    fn do_parse(&self, old_content: &str, new_content: &str) -> (r: NacosResult<
        StrMap<ConfigChangeItem>,
    >) {
        Err(NacosError::msg(ErrorKind::UnsupportedFormat, "yaml diff is not supported"))
    }
}

/// The position of the first parser in the chain that claims `ty`.
pub open spec fn first_claiming<P: ConfigChangeParser>(
    parses: Seq<P>,
    ty: Seq<char>,
) -> Option<int> {
    if exists|i: int| 0 <= i < parses.len() && #[trigger] parses[i].claims(ty) {
        Some(
            choose|i: int|
                0 <= i < parses.len() && #[trigger] parses[i].claims(ty) && forall|j: int|
                    0 <= j < i ==> !#[trigger] parses[j].claims(ty),
        )
    } else {
        None
    }
}

/// What a chain of parsers reports: the report of the first parser that
/// claims `ty`; with no such parser the type is unsupported.
pub open spec fn chain_outcome<P: ConfigChangeParser>(
    parses: Seq<P>,
    old_content: Seq<char>,
    new_content: Seq<char>,
    ty: Seq<char>,
) -> Result<Map<Seq<char>, ChangeView>, ErrorKind> {
    match first_claiming(parses, ty) {
        Some(i) => parses[i].outcome(old_content, new_content),
        None => Err(ErrorKind::UnsupportedFormat),
    }
}

/// `i` is `first_claiming` where parser `i` claims `ty` and none before it does.
pub proof fn lemma_first_claiming<P: ConfigChangeParser>(parses: Seq<P>, ty: Seq<char>, i: int)
    requires
        0 <= i < parses.len(),
        parses[i].claims(ty),
        forall|j: int| 0 <= j < i ==> !#[trigger] parses[j].claims(ty),
    ensures
        first_claiming(parses, ty) == Some(i),
{
    let c = choose|c: int|
        0 <= c < parses.len() && #[trigger] parses[c].claims(ty) && forall|j: int|
            0 <= j < c ==> !#[trigger] parses[j].claims(ty);
    if c < i {
        assert(!parses[c].claims(ty));
    } else if i < c {
        assert(!parses[i].claims(ty));
    }
}

/// A config type that no parser of the chain claims is unsupported,
/// whatever the two texts are.
pub proof fn law_unclaimed_type_is_unsupported<P: ConfigChangeParser>(
    parses: Seq<P>,
    old_content: Seq<char>,
    new_content: Seq<char>,
    ty: Seq<char>,
)
    requires
        forall|i: int| 0 <= i < parses.len() ==> !#[trigger] parses[i].claims(ty),
    ensures
        chain_outcome(parses, old_content, new_content, ty) == Err::<
            Map<Seq<char>, ChangeView>,
            ErrorKind,
        >(ErrorKind::UnsupportedFormat),
{
}

/// The result of a parser, held against what the contract of the chain promises.
pub open spec fn reports(
    r: NacosResult<StrMap<ConfigChangeItem>>,
    expected: Result<Map<Seq<char>, ChangeView>, ErrorKind>,
) -> bool {
    match r {
        Ok(m) => expected == Ok::<Map<Seq<char>, ChangeView>, ErrorKind>(m@),
        Err(e) => expected == Err::<Map<Seq<char>, ChangeView>, ErrorKind>(e.kind),
    }
}

/// One of the parsers that the library brings.
pub enum FormatParser {
    Properties(PropertiesConfigChangeParser),
    Yaml(YamlConfigChangeParser),
}

impl ConfigChangeParser for FormatParser {
    open spec fn claims(&self, ty: Seq<char>) -> bool {
        match self {
            FormatParser::Properties(p) => p.claims(ty),
            FormatParser::Yaml(p) => p.claims(ty),
        }
    }

    open spec fn outcome(&self, old_content: Seq<char>, new_content: Seq<char>) -> Result<
        Map<Seq<char>, ChangeView>,
        ErrorKind,
    > {
        match self {
            FormatParser::Properties(p) => p.outcome(old_content, new_content),
            FormatParser::Yaml(p) => p.outcome(old_content, new_content),
        }
    }

    fn is_responsible_for(&self, ty: String) -> (r: bool) {
        match self {
            FormatParser::Properties(p) => p.is_responsible_for(ty),
            FormatParser::Yaml(p) => p.is_responsible_for(ty),
        }
    }

    fn do_parse(&self, old_content: &str, new_content: &str) -> (r: NacosResult<
        StrMap<ConfigChangeItem>,
    >) {
        match self {
            FormatParser::Properties(p) => p.do_parse(old_content, new_content),
            FormatParser::Yaml(p) => p.do_parse(old_content, new_content),
        }
    }
}

/// A chain of format-specific parsers, asked in order.
pub struct ConfigChangeHandler<P = FormatParser> {
    pub parses: Vec<P>,
}

impl ConfigChangeHandler<FormatParser> {
    /// The chain of the properties parser and the YAML parser, in this order.
    pub fn new() -> (h: Self)
        ensures
            h.parses@.len() == 2,
            forall|ty: Seq<char>| #[trigger]
                h.parses@[0].claims(ty) == eq_ignore_ascii_case(properties_name(), ty),
            forall|a: Seq<char>, b: Seq<char>| #[trigger]
                h.parses@[0].outcome(a, b) == properties_outcome(a, b),
            forall|ty: Seq<char>| #[trigger]
                h.parses@[1].claims(ty) == eq_ignore_ascii_case(yaml_name(), ty),
            forall|a: Seq<char>, b: Seq<char>| #[trigger]
                h.parses@[1].outcome(a, b) == Err::<Map<Seq<char>, ChangeView>, ErrorKind>(
                    ErrorKind::UnsupportedFormat,
                ),
    {
        let mut parses: Vec<FormatParser> = Vec::new();
        parses.push(FormatParser::Properties(PropertiesConfigChangeParser));
        parses.push(FormatParser::Yaml(YamlConfigChangeParser));
        ConfigChangeHandler { parses }
    }
}

impl<P: ConfigChangeParser> ConfigChangeHandler<P> {

    /// Hands the two texts to the first parser of the chain that claims `ty`.
    pub fn parse_change_data(&self, old_content: &str, new_content: &str, ty: &str) -> (r:
        NacosResult<StrMap<ConfigChangeItem>>)
        ensures
            reports(r, chain_outcome(self.parses@, old_content@, new_content@, ty@)),
            first_claiming(self.parses@, ty@) is None ==> (r matches Err(e) && e.message@
                == "Unsupported config type parser."@),
    {
        let mut i: usize = 0;
        while i < self.parses.len()
            invariant
                i <= self.parses.len(),
                forall|j: int| 0 <= j < i ==> !#[trigger] self.parses@[j].claims(ty@),
            decreases self.parses.len() - i,
        {
            if self.parses[i].is_responsible_for(ty.to_owned()) {
                proof {
                    lemma_first_claiming(self.parses@, ty@, i as int);
                }
                return self.parses[i].do_parse(old_content, new_content);
            }
            i = i + 1;
        }
        Err(NacosError::msg(ErrorKind::UnsupportedFormat, "Unsupported config type parser."))
    }
}

/// What the default chain reports for a declared config type.
pub open spec fn default_outcome(old_content: Seq<char>, new_content: Seq<char>, ty: Seq<char>) -> Result<
    Map<Seq<char>, ChangeView>,
    ErrorKind,
> {
    if eq_ignore_ascii_case(properties_name(), ty) {
        properties_outcome(old_content, new_content)
    } else {
        Err(ErrorKind::UnsupportedFormat)
    }
}

/// The changes from `last_content` to `content`, both of the config type
/// `ty`, as the default chain of parsers computes them.
pub fn parse_change_data(last_content: &str, content: &str, ty: &str) -> (r: NacosResult<
    StrMap<ConfigChangeItem>,
>)
    ensures
        reports(r, default_outcome(last_content@, content@, ty@)),
{
    let handler = ConfigChangeHandler::new();
    proof {
        let parses = handler.parses@;
        if parses[0].claims(ty@) {
            lemma_first_claiming(parses, ty@, 0);
        } else if parses[1].claims(ty@) {
            lemma_first_claiming(parses, ty@, 1);
        } else {
            assert(first_claiming(parses, ty@) is None);
        }
    }
    handler.parse_change_data(last_content, content, ty)
}

} // verus!
