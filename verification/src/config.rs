//! Per-interface options: the `key = value` fragments of a configuration
//! block, the schema of each kind of interface, and the four parsers.

use vstd::prelude::*;
use vstd::string::*;
use crate::interface::Kind;
use crate::syntax::{identifier_syntax, is_identifier};
use crate::util::{deep_result, lemma_take_all, lemma_take_step, same_text};

verus! {

/// Names the client-side stub of an invoke, watch or report interface.
pub const PROXY: &'static str = "proxy";

/// Names the server-side binding of an invoke, watch or report interface.
pub const SERVANT: &'static str = "servant";

/// Whether the binding of an invoke interface can dump its object.
pub const PERSISTENCY: &'static str = "persistency";

/// Whether the stub of an invoke interface offers calls with a callback.
pub const CALLBACK: &'static str = "callback";

/// Names the client-side binding of a notify interface.
pub const RECEIVER: &'static str = "receiver";

/// Names the server-side stub of a notify interface.
pub const NOTIFIER: &'static str = "notifier";

/// The type that an option's value must have.
#[derive(Clone, Copy, Debug, PartialEq, Eq, Structural)]
pub enum ValueType {
    /// A string literal.
    Str,
    /// `true` or `false`.
    Bool,
}

/// The value of a fragment.
#[derive(Clone, Debug, PartialEq, Eq)]
pub enum Literal {
    /// A string literal, by its content.
    Str(String),
    /// A boolean literal.
    Bool(bool),
    /// Anything else: a literal of another type, or no literal at all.
    Other,
}

/// The mathematical value of a [`Literal`].
pub enum LiteralView {
    Str(Seq<char>),
    Bool(bool),
    Other,
}

impl DeepView for Literal {
    type V = LiteralView;

    open spec fn deep_view(&self) -> LiteralView {
        match self {
            Literal::Str(s) => LiteralView::Str(s@),
            Literal::Bool(b) => LiteralView::Bool(*b),
            Literal::Other => LiteralView::Other,
        }
    }
}

/// One fragment of a configuration block: a value, and the key it is given
/// under. A fragment without a key is positional.
#[derive(Clone, Debug, PartialEq, Eq)]
pub struct Fragment {
    pub key: Option<String>,
    pub value: Literal,
}

/// The mathematical value of a [`Fragment`].
pub struct FragmentView {
    pub key: Option<Seq<char>>,
    pub value: LiteralView,
}

impl DeepView for Fragment {
    type V = FragmentView;

    open spec fn deep_view(&self) -> FragmentView {
        FragmentView { key: self.key.deep_view(), value: self.value.deep_view() }
    }
}

/// Why a configuration block is refused.
#[derive(Clone, Debug, PartialEq, Eq)]
pub enum ConfigError {
    /// The key is not in the schema of the interface's kind.
    UnknownOption { key: String, allowed: Vec<String> },
    /// The key is in the schema, with another type than the value has.
    WrongValueType { key: String, expected: ValueType },
    /// A value stands without a key.
    PositionalFieldNotAllowed,
    /// The name that a key gives to a binding or a stub is no identifier.
    InvalidName { key: String, name: String },
}

/// The mathematical value of a [`ConfigError`].
pub enum ConfigErrorView {
    UnknownOption { key: Seq<char>, allowed: Seq<Seq<char>> },
    WrongValueType { key: Seq<char>, expected: ValueType },
    PositionalFieldNotAllowed,
    InvalidName { key: Seq<char>, name: Seq<char> },
}

impl DeepView for ConfigError {
    type V = ConfigErrorView;

    open spec fn deep_view(&self) -> ConfigErrorView {
        match self {
            ConfigError::UnknownOption { key, allowed } => ConfigErrorView::UnknownOption {
                key: key@,
                allowed: allowed.deep_view(),
            },
            ConfigError::WrongValueType { key, expected } => ConfigErrorView::WrongValueType {
                key: key@,
                expected: *expected,
            },
            ConfigError::PositionalFieldNotAllowed => ConfigErrorView::PositionalFieldNotAllowed,
            ConfigError::InvalidName { key, name } => ConfigErrorView::InvalidName {
                key: key@,
                name: name@,
            },
        }
    }
}

/// The keys that the schema of a kind recognises.
pub open spec fn allowed_keys(kind: Kind) -> Seq<Seq<char>> {
    match kind {
        Kind::Invoke => seq![PROXY@, SERVANT@, PERSISTENCY@, CALLBACK@],
        Kind::Watch => seq![PROXY@, SERVANT@],
        Kind::Report => seq![PROXY@, SERVANT@],
        Kind::Notify => seq![RECEIVER@, NOTIFIER@],
    }
}

/// The type that the schema of a kind gives to a key, if it recognises it.
pub open spec fn expected_type(kind: Kind, key: Seq<char>) -> Option<ValueType> {
    match kind {
        Kind::Invoke => if key == PROXY@ || key == SERVANT@ {
            Some(ValueType::Str)
        } else if key == PERSISTENCY@ || key == CALLBACK@ {
            Some(ValueType::Bool)
        } else {
            None
        },
        Kind::Watch | Kind::Report => if key == PROXY@ || key == SERVANT@ {
            Some(ValueType::Str)
        } else {
            None
        },
        Kind::Notify => if key == RECEIVER@ || key == NOTIFIER@ {
            Some(ValueType::Str)
        } else {
            None
        },
    }
}

/// The type of a literal, where it is one that a schema can ask for.
pub open spec fn literal_type(v: LiteralView) -> Option<ValueType> {
    match v {
        LiteralView::Str(_) => Some(ValueType::Str),
        LiteralView::Bool(_) => Some(ValueType::Bool),
        LiteralView::Other => None,
    }
}

/// What is wrong with one fragment under the schema of a kind, if anything.
pub open spec fn fragment_error(kind: Kind, f: FragmentView) -> Option<ConfigErrorView> {
    match f.key {
        None => Some(ConfigErrorView::PositionalFieldNotAllowed),
        Some(key) => match expected_type(kind, key) {
            None => Some(ConfigErrorView::UnknownOption { key, allowed: allowed_keys(kind) }),
            Some(t) => if literal_type(f.value) == Some(t) {
                None
            } else {
                Some(ConfigErrorView::WrongValueType { key, expected: t })
            },
        },
    }
}

/// The error of the first fragment that has one.
pub open spec fn first_fragment_error(kind: Kind, fragments: Seq<FragmentView>) -> Option<
    ConfigErrorView,
>
    decreases fragments.len(),
{
    if fragments.len() == 0 {
        None
    } else {
        match first_fragment_error(kind, fragments.drop_last()) {
            Some(e) => Some(e),
            None => fragment_error(kind, fragments.last()),
        }
    }
}

/// The text that one fragment gives to a key, if it gives one.
pub open spec fn text_given(f: FragmentView, key: Seq<char>) -> Option<Seq<char>> {
    if f.key == Some(key) {
        match f.value {
            LiteralView::Str(s) => Some(s),
            _ => None,
        }
    } else {
        None
    }
}

/// The flag that one fragment gives to a key, if it gives one.
pub open spec fn flag_given(f: FragmentView, key: Seq<char>) -> Option<bool> {
    if f.key == Some(key) {
        match f.value {
            LiteralView::Bool(b) => Some(b),
            _ => None,
        }
    } else {
        None
    }
}

/// The text that the fragments give to a key: that of the last fragment that
/// gives it one.
pub open spec fn last_text(fragments: Seq<FragmentView>, key: Seq<char>) -> Option<Seq<char>>
    decreases fragments.len(),
{
    if fragments.len() == 0 {
        None
    } else {
        match text_given(fragments.last(), key) {
            Some(s) => Some(s),
            None => last_text(fragments.drop_last(), key),
        }
    }
}

/// The flag that the fragments give to a key: that of the last fragment that
/// gives it one.
pub open spec fn last_flag(fragments: Seq<FragmentView>, key: Seq<char>) -> Option<bool>
    decreases fragments.len(),
{
    if fragments.len() == 0 {
        None
    } else {
        match flag_given(fragments.last(), key) {
            Some(b) => Some(b),
            None => last_flag(fragments.drop_last(), key),
        }
    }
}

/// A configured name, or the interface's name with the kind's suffix.
pub open spec fn name_or(configured: Option<Seq<char>>, interface: Seq<char>, suffix: Seq<char>)
    -> Seq<char> {
    match configured {
        Some(n) => n,
        None => interface + suffix,
    }
}

/// A configured flag, or `false`.
pub open spec fn flag_or_false(configured: Option<bool>) -> bool {
    match configured {
        Some(b) => b,
        None => false,
    }
}

/// The keys of a kind's schema, in the order of the schema.
pub fn keys_of(kind: Kind) -> (r: Vec<String>)
    ensures
        r.deep_view() == allowed_keys(kind),
{
    let mut keys: Vec<String> = Vec::new();
    match kind {
        Kind::Invoke => {
            keys.push(String::from_str(PROXY));
            keys.push(String::from_str(SERVANT));
            keys.push(String::from_str(PERSISTENCY));
            keys.push(String::from_str(CALLBACK));
        },
        Kind::Watch => {
            keys.push(String::from_str(PROXY));
            keys.push(String::from_str(SERVANT));
        },
        Kind::Report => {
            keys.push(String::from_str(PROXY));
            keys.push(String::from_str(SERVANT));
        },
        Kind::Notify => {
            keys.push(String::from_str(RECEIVER));
            keys.push(String::from_str(NOTIFIER));
        },
    }
    assert(keys.deep_view() =~= allowed_keys(kind));
    keys
}

/// The type that the schema of a kind gives to a key.
pub fn type_of_key(kind: Kind, key: &str) -> (r: Option<ValueType>)
    ensures
        r == expected_type(kind, key@),
{
    match kind {
        Kind::Invoke => if same_text(key, PROXY) || same_text(key, SERVANT) {
            Some(ValueType::Str)
        } else if same_text(key, PERSISTENCY) || same_text(key, CALLBACK) {
            Some(ValueType::Bool)
        } else {
            None
        },
        Kind::Watch => if same_text(key, PROXY) || same_text(key, SERVANT) {
            Some(ValueType::Str)
        } else {
            None
        },
        Kind::Report => if same_text(key, PROXY) || same_text(key, SERVANT) {
            Some(ValueType::Str)
        } else {
            None
        },
        Kind::Notify => if same_text(key, RECEIVER) || same_text(key, NOTIFIER) {
            Some(ValueType::Str)
        } else {
            None
        },
    }
}

/// What is wrong with one fragment under the schema of a kind.
pub fn check_fragment(kind: Kind, f: &Fragment) -> (r: Option<ConfigError>)
    ensures
        r.deep_view() == fragment_error(kind, f.deep_view()),
{
    match &f.key {
        None => Some(ConfigError::PositionalFieldNotAllowed),
        Some(key) => match type_of_key(kind, key.as_str()) {
            None => Some(ConfigError::UnknownOption { key: key.clone(), allowed: keys_of(kind) }),
            Some(expected) => {
                let fits = match (&f.value, expected) {
                    (Literal::Str(_), ValueType::Str) => true,
                    (Literal::Bool(_), ValueType::Bool) => true,
                    _ => false,
                };
                if fits {
                    None
                } else {
                    Some(ConfigError::WrongValueType { key: key.clone(), expected })
                }
            },
        },
    }
}

/// The text that a fragment gives to a key.
fn text_for(f: &Fragment, key: &str) -> (r: Option<String>)
    ensures
        r.deep_view() == text_given(f.deep_view(), key@),
{
    match (&f.key, &f.value) {
        (Some(k), Literal::Str(s)) => if same_text(k.as_str(), key) {
            Some(s.clone())
        } else {
            None
        },
        _ => None,
    }
}

/// The flag that a fragment gives to a key.
fn flag_for(f: &Fragment, key: &str) -> (r: Option<bool>)
    ensures
        r == flag_given(f.deep_view(), key@),
{
    match (&f.key, &f.value) {
        (Some(k), Literal::Bool(b)) => if same_text(k.as_str(), key) {
            Some(*b)
        } else {
            None
        },
        _ => None,
    }
}

/// The error of the first fragment that has one.
fn check_fragments(kind: Kind, fragments: &Vec<Fragment>) -> (r: Option<ConfigError>)
    ensures
        r.deep_view() == first_fragment_error(kind, fragments.deep_view()),
{
    let mut failure: Option<ConfigError> = None;
    let mut i: usize = 0;
    while i < fragments.len()
        invariant
            i <= fragments.len(),
            failure.deep_view() == first_fragment_error(
                kind,
                fragments.deep_view().take(i as int),
            ),
        decreases fragments.len() - i,
    {
        proof {
            lemma_take_step(fragments.deep_view(), i as int);
        }
        if failure.is_none() {
            failure = check_fragment(kind, &fragments[i]);
        }
        i += 1;
    }
    proof {
        lemma_take_all(fragments.deep_view());
    }
    failure
}

/// The text that the fragments give to a key.
fn find_text(fragments: &Vec<Fragment>, key: &str) -> (r: Option<String>)
    ensures
        r.deep_view() == last_text(fragments.deep_view(), key@),
{
    let mut found: Option<String> = None;
    let mut i: usize = 0;
    while i < fragments.len()
        invariant
            i <= fragments.len(),
            found.deep_view() == last_text(fragments.deep_view().take(i as int), key@),
        decreases fragments.len() - i,
    {
        proof {
            lemma_take_step(fragments.deep_view(), i as int);
        }
        match text_for(&fragments[i], key) {
            Some(s) => {
                found = Some(s);
            },
            None => {},
        }
        i += 1;
    }
    proof {
        lemma_take_all(fragments.deep_view());
    }
    found
}

/// The flag that the fragments give to a key.
fn find_flag(fragments: &Vec<Fragment>, key: &str) -> (r: Option<bool>)
    ensures
        r == last_flag(fragments.deep_view(), key@),
{
    let mut found: Option<bool> = None;
    let mut i: usize = 0;
    while i < fragments.len()
        invariant
            i <= fragments.len(),
            found == last_flag(fragments.deep_view().take(i as int), key@),
        decreases fragments.len() - i,
    {
        proof {
            lemma_take_step(fragments.deep_view(), i as int);
        }
        match flag_for(&fragments[i], key) {
            Some(b) => {
                found = Some(b);
            },
            None => {},
        }
        i += 1;
    }
    proof {
        lemma_take_all(fragments.deep_view());
    }
    found
}

/// A configured name, or the interface's name with a suffix.
fn configured_or(configured: &Option<String>, interface: &str, suffix: &str) -> (r: String)
    ensures
        r@ == name_or(configured.deep_view(), interface@, suffix@),
{
    match configured {
        Some(n) => n.clone(),
        None => {
            let mut name = String::from_str(interface);
            name.append(suffix);
            name
        },
    }
}

/// What is wrong with a name that a key gives, once it is known whether the
/// name is an identifier.
pub open spec fn refusal(key: Seq<char>, name: Seq<char>, identifier: bool) -> Option<
    ConfigErrorView,
> {
    if identifier {
        None
    } else {
        Some(ConfigErrorView::InvalidName { key, name })
    }
}

/// What is wrong with the name that a key gives, if it gives one: the name
/// becomes the name of a type in the generated source, so it has to be an
/// identifier.
pub open spec fn name_error(key: Seq<char>, configured: Option<Seq<char>>) -> Option<
    ConfigErrorView,
> {
    match configured {
        Some(name) => refusal(key, name, identifier_syntax(name)),
        None => None,
    }
}

/// The first of two errors, if there is one.
pub open spec fn first_of(first: Option<ConfigErrorView>, second: Option<ConfigErrorView>)
    -> Option<ConfigErrorView> {
    match first {
        Some(e) => Some(e),
        None => second,
    }
}

/// What is wrong with a name that a key gives, once it is known whether the
/// name is an identifier.
pub fn refuse_unless(key: &str, name: &str, identifier: bool) -> (r: Option<ConfigError>)
    ensures
        r.deep_view() == refusal(key@, name@, identifier),
{
    if identifier {
        None
    } else {
        Some(ConfigError::InvalidName { key: String::from_str(key), name: String::from_str(name) })
    }
}

/// What is wrong with the name that a key gives, if it gives one.
pub fn check_name(key: &str, configured: &Option<String>) -> (r: Option<ConfigError>)
    ensures
        r.deep_view() == name_error(key@, configured.deep_view()),
{
    match configured {
        Some(name) => refuse_unless(key, name.as_str(), is_identifier(name.as_str())),
        None => None,
    }
}

/// What is wrong with the names that two keys give: the error of the first
/// key, if it has one, else that of the second.
fn check_two_names(
    first_key: &str,
    first: &Option<String>,
    second_key: &str,
    second: &Option<String>,
) -> (r: Option<ConfigError>)
    ensures
        r.deep_view() == first_of(
            name_error(first_key@, first.deep_view()),
            name_error(second_key@, second.deep_view()),
        ),
{
    match check_name(first_key, first) {
        Some(e) => Some(e),
        None => check_name(second_key, second),
    }
}

/// The options of an invoke interface.
#[derive(Clone, Debug, PartialEq, Eq)]
pub struct InvokeInterfaceAttributes {
    pub proxy: Option<String>,
    pub servant: Option<String>,
    pub persistency: Option<bool>,
    pub callback: Option<bool>,
}

/// The mathematical value of [`InvokeInterfaceAttributes`].
pub struct InvokeAttributesView {
    pub proxy: Option<Seq<char>>,
    pub servant: Option<Seq<char>>,
    pub persistency: Option<bool>,
    pub callback: Option<bool>,
}

impl DeepView for InvokeInterfaceAttributes {
    type V = InvokeAttributesView;

    open spec fn deep_view(&self) -> InvokeAttributesView {
        InvokeAttributesView {
            proxy: self.proxy.deep_view(),
            servant: self.servant.deep_view(),
            persistency: self.persistency,
            callback: self.callback,
        }
    }
}

impl InvokeAttributesView {
    /// What is wrong with the configured names, if anything.
    pub open spec fn invalid_name(self) -> Option<ConfigErrorView> {
        first_of(name_error(PROXY@, self.proxy), name_error(SERVANT@, self.servant))
    }

    /// Whether every configured name is an identifier.
    pub open spec fn names_valid(self) -> bool {
        self.invalid_name() is None
    }

    /// The name of the client-side proxy: the configured one, or the
    /// interface's name followed by `Proxy`.
    pub open spec fn proxy_name(self, interface: Seq<char>) -> Seq<char> {
        name_or(self.proxy, interface, "Proxy"@)
    }

    /// The name of the server-side servant: the configured one, or the
    /// interface's name followed by `Servant`.
    pub open spec fn servant_name(self, interface: Seq<char>) -> Seq<char> {
        name_or(self.servant, interface, "Servant"@)
    }

    /// Whether the servant can dump its object; `false` unless configured.
    pub open spec fn persistent(self) -> bool {
        flag_or_false(self.persistency)
    }

    /// Whether the proxy offers calls with a callback; `false` unless configured.
    pub open spec fn with_callbacks(self) -> bool {
        flag_or_false(self.callback)
    }
}

/// What a configuration block means for an invoke interface: the first
/// error among its fragments, or else, for each key, the last value given.
pub open spec fn invoke_attributes(fragments: Seq<FragmentView>) -> Result<
    InvokeAttributesView,
    ConfigErrorView,
> {
    match first_fragment_error(Kind::Invoke, fragments) {
        Some(e) => Err(e),
        None => Ok(
            InvokeAttributesView {
                proxy: last_text(fragments, PROXY@),
                servant: last_text(fragments, SERVANT@),
                persistency: last_flag(fragments, PERSISTENCY@),
                callback: last_flag(fragments, CALLBACK@),
            },
        ),
    }
}

impl InvokeInterfaceAttributes {
    /// What is wrong with the configured names, if anything.
    pub fn check_names(&self) -> (r: Option<ConfigError>)
        ensures
            r.deep_view() == self.deep_view().invalid_name(),
    {
        check_two_names(PROXY, &self.proxy, SERVANT, &self.servant)
    }

    /// Reads the options of an invoke interface from the fragments of its
    /// configuration block.
    pub fn parse(fragments: &Vec<Fragment>) -> (r: Result<Self, ConfigError>)
        ensures
            deep_result(r) == invoke_attributes(fragments.deep_view()),
    {
        match check_fragments(Kind::Invoke, fragments) {
            Some(e) => Err(e),
            None => Ok(
                Self {
                    proxy: find_text(fragments, PROXY),
                    servant: find_text(fragments, SERVANT),
                    persistency: find_flag(fragments, PERSISTENCY),
                    callback: find_flag(fragments, CALLBACK),
                },
            ),
        }
    }

    /// The name of the client-side proxy.
    pub fn proxy_name(&self, interface: &str) -> (r: String)
        ensures
            r@ == self.deep_view().proxy_name(interface@),
    {
        configured_or(&self.proxy, interface, "Proxy")
    }

    /// The name of the server-side servant.
    pub fn servant_name(&self, interface: &str) -> (r: String)
        ensures
            r@ == self.deep_view().servant_name(interface@),
    {
        configured_or(&self.servant, interface, "Servant")
    }

    /// Whether the servant can dump its object.
    pub fn persistent(&self) -> (r: bool)
        ensures
            r == self.deep_view().persistent(),
    {
        match self.persistency {
            Some(b) => b,
            None => false,
        }
    }

    /// Whether the proxy offers calls with a callback.
    pub fn with_callbacks(&self) -> (r: bool)
        ensures
            r == self.deep_view().with_callbacks(),
    {
        match self.callback {
            Some(b) => b,
            None => false,
        }
    }
}

/// The options of a watch interface.
#[derive(Clone, Debug, PartialEq, Eq)]
pub struct WatchInterfaceAttributes {
    pub proxy: Option<String>,
    pub servant: Option<String>,
}

/// The mathematical value of [`WatchInterfaceAttributes`].
pub struct WatchAttributesView {
    pub proxy: Option<Seq<char>>,
    pub servant: Option<Seq<char>>,
}

impl DeepView for WatchInterfaceAttributes {
    type V = WatchAttributesView;

    open spec fn deep_view(&self) -> WatchAttributesView {
        WatchAttributesView { proxy: self.proxy.deep_view(), servant: self.servant.deep_view() }
    }
}

impl WatchAttributesView {
    /// What is wrong with the configured names, if anything.
    pub open spec fn invalid_name(self) -> Option<ConfigErrorView> {
        first_of(name_error(PROXY@, self.proxy), name_error(SERVANT@, self.servant))
    }

    /// Whether every configured name is an identifier.
    pub open spec fn names_valid(self) -> bool {
        self.invalid_name() is None
    }

    /// The name of the client-side proxy: the configured one, or the
    /// interface's name followed by `Proxy`.
    pub open spec fn proxy_name(self, interface: Seq<char>) -> Seq<char> {
        name_or(self.proxy, interface, "Proxy"@)
    }

    /// The name of the server-side servant: the configured one, or the
    /// interface's name followed by `Servant`.
    pub open spec fn servant_name(self, interface: Seq<char>) -> Seq<char> {
        name_or(self.servant, interface, "Servant"@)
    }
}

/// What a configuration block means for a watch interface: the first
/// error among its fragments, or else, for each key, the last value given.
pub open spec fn watch_attributes(fragments: Seq<FragmentView>) -> Result<
    WatchAttributesView,
    ConfigErrorView,
> {
    match first_fragment_error(Kind::Watch, fragments) {
        Some(e) => Err(e),
        None => Ok(
            WatchAttributesView {
                proxy: last_text(fragments, PROXY@),
                servant: last_text(fragments, SERVANT@),
            },
        ),
    }
}

impl WatchInterfaceAttributes {
    /// What is wrong with the configured names, if anything.
    pub fn check_names(&self) -> (r: Option<ConfigError>)
        ensures
            r.deep_view() == self.deep_view().invalid_name(),
    {
        check_two_names(PROXY, &self.proxy, SERVANT, &self.servant)
    }

    /// Reads the options of a watch interface from the fragments of its
    /// configuration block.
    pub fn parse(fragments: &Vec<Fragment>) -> (r: Result<Self, ConfigError>)
        ensures
            deep_result(r) == watch_attributes(fragments.deep_view()),
    {
        match check_fragments(Kind::Watch, fragments) {
            Some(e) => Err(e),
            None => Ok(
                Self {
                    proxy: find_text(fragments, PROXY),
                    servant: find_text(fragments, SERVANT),
                },
            ),
        }
    }

    /// The name of the client-side proxy: the configured one, or the
    /// interface's name followed by `Proxy`.
    pub fn proxy_name(&self, interface: &str) -> (r: String)
        ensures
            r@ == self.deep_view().proxy_name(interface@),
    {
        configured_or(&self.proxy, interface, "Proxy")
    }

    /// The name of the server-side servant: the configured one, or the
    /// interface's name followed by `Servant`.
    pub fn servant_name(&self, interface: &str) -> (r: String)
        ensures
            r@ == self.deep_view().servant_name(interface@),
    {
        configured_or(&self.servant, interface, "Servant")
    }
}

/// The options of a report interface.
#[derive(Clone, Debug, PartialEq, Eq)]
pub struct ReportInterfaceAttributes {
    pub proxy: Option<String>,
    pub servant: Option<String>,
}

/// The mathematical value of [`ReportInterfaceAttributes`].
pub struct ReportAttributesView {
    pub proxy: Option<Seq<char>>,
    pub servant: Option<Seq<char>>,
}

impl DeepView for ReportInterfaceAttributes {
    type V = ReportAttributesView;

    open spec fn deep_view(&self) -> ReportAttributesView {
        ReportAttributesView { proxy: self.proxy.deep_view(), servant: self.servant.deep_view() }
    }
}

impl ReportAttributesView {
    /// What is wrong with the configured names, if anything.
    pub open spec fn invalid_name(self) -> Option<ConfigErrorView> {
        first_of(name_error(PROXY@, self.proxy), name_error(SERVANT@, self.servant))
    }

    /// Whether every configured name is an identifier.
    pub open spec fn names_valid(self) -> bool {
        self.invalid_name() is None
    }

    /// The name of the client-side staff: the configured one, or the
    /// interface's name followed by `Staff`.
    pub open spec fn proxy_name(self, interface: Seq<char>) -> Seq<char> {
        name_or(self.proxy, interface, "Staff"@)
    }

    /// The name of the server-side officer: the configured one, or the
    /// interface's name followed by `Officer`.
    pub open spec fn servant_name(self, interface: Seq<char>) -> Seq<char> {
        name_or(self.servant, interface, "Officer"@)
    }
}

/// What a configuration block means for a report interface: the first
/// error among its fragments, or else, for each key, the last value given.
pub open spec fn report_attributes(fragments: Seq<FragmentView>) -> Result<
    ReportAttributesView,
    ConfigErrorView,
> {
    match first_fragment_error(Kind::Report, fragments) {
        Some(e) => Err(e),
        None => Ok(
            ReportAttributesView {
                proxy: last_text(fragments, PROXY@),
                servant: last_text(fragments, SERVANT@),
            },
        ),
    }
}

impl ReportInterfaceAttributes {
    /// What is wrong with the configured names, if anything.
    pub fn check_names(&self) -> (r: Option<ConfigError>)
        ensures
            r.deep_view() == self.deep_view().invalid_name(),
    {
        check_two_names(PROXY, &self.proxy, SERVANT, &self.servant)
    }

    /// Reads the options of a report interface from the fragments of its
    /// configuration block.
    pub fn parse(fragments: &Vec<Fragment>) -> (r: Result<Self, ConfigError>)
        ensures
            deep_result(r) == report_attributes(fragments.deep_view()),
    {
        match check_fragments(Kind::Report, fragments) {
            Some(e) => Err(e),
            None => Ok(
                Self {
                    proxy: find_text(fragments, PROXY),
                    servant: find_text(fragments, SERVANT),
                },
            ),
        }
    }

    /// The name of the client-side staff: the configured one, or the
    /// interface's name followed by `Staff`.
    pub fn proxy_name(&self, interface: &str) -> (r: String)
        ensures
            r@ == self.deep_view().proxy_name(interface@),
    {
        configured_or(&self.proxy, interface, "Staff")
    }

    /// The name of the server-side officer: the configured one, or the
    /// interface's name followed by `Officer`.
    pub fn servant_name(&self, interface: &str) -> (r: String)
        ensures
            r@ == self.deep_view().servant_name(interface@),
    {
        configured_or(&self.servant, interface, "Officer")
    }
}

/// The options of a notify interface.
#[derive(Clone, Debug, PartialEq, Eq)]
pub struct NotifyInterfaceAttributes {
    pub receiver: Option<String>,
    pub notifier: Option<String>,
}

/// The mathematical value of [`NotifyInterfaceAttributes`].
pub struct NotifyAttributesView {
    pub receiver: Option<Seq<char>>,
    pub notifier: Option<Seq<char>>,
}

impl DeepView for NotifyInterfaceAttributes {
    type V = NotifyAttributesView;

    open spec fn deep_view(&self) -> NotifyAttributesView {
        NotifyAttributesView { receiver: self.receiver.deep_view(), notifier: self.notifier.deep_view() }
    }
}

impl NotifyAttributesView {
    /// What is wrong with the configured names, if anything.
    pub open spec fn invalid_name(self) -> Option<ConfigErrorView> {
        first_of(name_error(RECEIVER@, self.receiver), name_error(NOTIFIER@, self.notifier))
    }

    /// Whether every configured name is an identifier.
    pub open spec fn names_valid(self) -> bool {
        self.invalid_name() is None
    }

    /// The name of the client-side receiver: the configured one, or the
    /// interface's name followed by `Receiver`.
    pub open spec fn receiver_name(self, interface: Seq<char>) -> Seq<char> {
        name_or(self.receiver, interface, "Receiver"@)
    }

    /// The name of the server-side notifier: the configured one, or the
    /// interface's name followed by `Notifier`.
    pub open spec fn notifier_name(self, interface: Seq<char>) -> Seq<char> {
        name_or(self.notifier, interface, "Notifier"@)
    }
}

/// What a configuration block means for a notify interface: the first
/// error among its fragments, or else, for each key, the last value given.
pub open spec fn notify_attributes(fragments: Seq<FragmentView>) -> Result<
    NotifyAttributesView,
    ConfigErrorView,
> {
    match first_fragment_error(Kind::Notify, fragments) {
        Some(e) => Err(e),
        None => Ok(
            NotifyAttributesView {
                receiver: last_text(fragments, RECEIVER@),
                notifier: last_text(fragments, NOTIFIER@),
            },
        ),
    }
}

impl NotifyInterfaceAttributes {
    /// What is wrong with the configured names, if anything.
    pub fn check_names(&self) -> (r: Option<ConfigError>)
        ensures
            r.deep_view() == self.deep_view().invalid_name(),
    {
        check_two_names(RECEIVER, &self.receiver, NOTIFIER, &self.notifier)
    }

    /// Reads the options of a notify interface from the fragments of its
    /// configuration block.
    pub fn parse(fragments: &Vec<Fragment>) -> (r: Result<Self, ConfigError>)
        ensures
            deep_result(r) == notify_attributes(fragments.deep_view()),
    {
        match check_fragments(Kind::Notify, fragments) {
            Some(e) => Err(e),
            None => Ok(
                Self {
                    receiver: find_text(fragments, RECEIVER),
                    notifier: find_text(fragments, NOTIFIER),
                },
            ),
        }
    }

    /// The name of the client-side receiver: the configured one, or the
    /// interface's name followed by `Receiver`.
    pub fn receiver_name(&self, interface: &str) -> (r: String)
        ensures
            r@ == self.deep_view().receiver_name(interface@),
    {
        configured_or(&self.receiver, interface, "Receiver")
    }

    /// The name of the server-side notifier: the configured one, or the
    /// interface's name followed by `Notifier`.
    pub fn notifier_name(&self, interface: &str) -> (r: String)
        ensures
            r@ == self.deep_view().notifier_name(interface@),
    {
        configured_or(&self.notifier, interface, "Notifier")
    }
}

/// The options of an interface of any kind.
#[derive(Clone, Debug, PartialEq, Eq)]
pub enum Configuration {
    Invoke(InvokeInterfaceAttributes),
    Watch(WatchInterfaceAttributes),
    Report(ReportInterfaceAttributes),
    Notify(NotifyInterfaceAttributes),
}

/// The mathematical value of a [`Configuration`].
pub enum ConfigurationView {
    Invoke(InvokeAttributesView),
    Watch(WatchAttributesView),
    Report(ReportAttributesView),
    Notify(NotifyAttributesView),
}

impl DeepView for Configuration {
    type V = ConfigurationView;

    open spec fn deep_view(&self) -> ConfigurationView {
        match self {
            Configuration::Invoke(a) => ConfigurationView::Invoke(a.deep_view()),
            Configuration::Watch(a) => ConfigurationView::Watch(a.deep_view()),
            Configuration::Report(a) => ConfigurationView::Report(a.deep_view()),
            Configuration::Notify(a) => ConfigurationView::Notify(a.deep_view()),
        }
    }
}

impl ConfigurationView {
    /// What is wrong with the configured names, if anything.
    pub open spec fn invalid_name(self) -> Option<ConfigErrorView> {
        match self {
            ConfigurationView::Invoke(a) => a.invalid_name(),
            ConfigurationView::Watch(a) => a.invalid_name(),
            ConfigurationView::Report(a) => a.invalid_name(),
            ConfigurationView::Notify(a) => a.invalid_name(),
        }
    }

    /// Whether every configured name is an identifier.
    pub open spec fn names_valid(self) -> bool {
        self.invalid_name() is None
    }

    /// The kind of interface that these options belong to.
    pub open spec fn kind(self) -> Kind {
        match self {
            ConfigurationView::Invoke(_) => Kind::Invoke,
            ConfigurationView::Watch(_) => Kind::Watch,
            ConfigurationView::Report(_) => Kind::Report,
            ConfigurationView::Notify(_) => Kind::Notify,
        }
    }
}

/// What a configuration block means under the schema of a kind.
pub open spec fn configuration(kind: Kind, fragments: Seq<FragmentView>) -> Result<
    ConfigurationView,
    ConfigErrorView,
> {
    match kind {
        Kind::Invoke => match invoke_attributes(fragments) {
            Ok(a) => Ok(ConfigurationView::Invoke(a)),
            Err(e) => Err(e),
        },
        Kind::Watch => match watch_attributes(fragments) {
            Ok(a) => Ok(ConfigurationView::Watch(a)),
            Err(e) => Err(e),
        },
        Kind::Report => match report_attributes(fragments) {
            Ok(a) => Ok(ConfigurationView::Report(a)),
            Err(e) => Err(e),
        },
        Kind::Notify => match notify_attributes(fragments) {
            Ok(a) => Ok(ConfigurationView::Notify(a)),
            Err(e) => Err(e),
        },
    }
}

impl Configuration {
    /// What is wrong with the configured names, if anything.
    pub fn check_names(&self) -> (r: Option<ConfigError>)
        ensures
            r.deep_view() == self.deep_view().invalid_name(),
    {
        match self {
            Configuration::Invoke(a) => a.check_names(),
            Configuration::Watch(a) => a.check_names(),
            Configuration::Report(a) => a.check_names(),
            Configuration::Notify(a) => a.check_names(),
        }
    }

    /// Reads the options of an interface of the given kind from the
    /// fragments of its configuration block.
    pub fn parse(kind: Kind, fragments: &Vec<Fragment>) -> (r: Result<Configuration, ConfigError>)
        ensures
            deep_result(r) == configuration(kind, fragments.deep_view()),
            r matches Ok(c) ==> c.deep_view().kind() == kind,
    {
        match kind {
            Kind::Invoke => match InvokeInterfaceAttributes::parse(fragments) {
                Ok(a) => Ok(Configuration::Invoke(a)),
                Err(e) => Err(e),
            },
            Kind::Watch => match WatchInterfaceAttributes::parse(fragments) {
                Ok(a) => Ok(Configuration::Watch(a)),
                Err(e) => Err(e),
            },
            Kind::Report => match ReportInterfaceAttributes::parse(fragments) {
                Ok(a) => Ok(Configuration::Report(a)),
                Err(e) => Err(e),
            },
            Kind::Notify => match NotifyInterfaceAttributes::parse(fragments) {
                Ok(a) => Ok(Configuration::Notify(a)),
                Err(e) => Err(e),
            },
        }
    }
}

/// The keys of a schema as they are listed in a diagnostic: each in single
/// quotes, with a comma and a space between two of them.
pub open spec fn listed(keys: Seq<Seq<char>>) -> Seq<char>
    decreases keys.len(),
{
    if keys.len() == 0 {
        Seq::empty()
    } else if keys.len() == 1 {
        "'"@ + keys.last() + "'"@
    } else {
        listed(keys.drop_last()) + ", '"@ + keys.last() + "'"@
    }
}

/// The type of a value as a diagnostic names it.
pub open spec fn type_text(t: ValueType) -> Seq<char> {
    match t {
        ValueType::Str => "&'static str"@,
        ValueType::Bool => "bool"@,
    }
}

impl ConfigErrorView {
    /// The diagnostic, in words: it names the offending key and what was
    /// expected in its place.
    pub open spec fn message(self) -> Seq<char> {
        match self {
            ConfigErrorView::UnknownOption { key, allowed } => "option '"@ + key
                + "' is unknown: name expected "@ + listed(allowed) + " only."@,
            ConfigErrorView::WrongValueType { key, expected } => "option '"@ + key
                + "': value expected '"@ + type_text(expected) + "' only."@,
            ConfigErrorView::PositionalFieldNotAllowed =>
                "a value without a name is not allowed: write name = value."@,
            ConfigErrorView::InvalidName { key, name } => "option '"@ + key + "': '"@ + name
                + "' is not an identifier."@,
        }
    }
}

/// Writes the keys of a schema as a diagnostic lists them.
fn list_keys(keys: &Vec<String>) -> (r: String)
    ensures
        r@ == listed(keys.deep_view()),
{
    let mut out = String::new();
    let mut i: usize = 0;
    while i < keys.len()
        invariant
            i <= keys.len(),
            out@ == listed(keys.deep_view().take(i as int)),
        decreases keys.len() - i,
    {
        proof {
            lemma_take_step(keys.deep_view(), i as int);
        }
        if i == 0 {
            assert(out@ + "'"@ =~= "'"@);
            out.append("'");
        } else {
            out.append(", '");
        }
        out.append(keys[i].as_str());
        out.append("'");
        i += 1;
    }
    proof {
        lemma_take_all(keys.deep_view());
    }
    out
}

impl ConfigError {
    /// The diagnostic, in words.
    pub fn message(&self) -> (r: String)
        ensures
            r@ == self.deep_view().message(),
    {
        match self {
            ConfigError::UnknownOption { key, allowed } => {
                let mut out = String::from_str("option '");
                out.append(key.as_str());
                out.append("' is unknown: name expected ");
                out.append(list_keys(allowed).as_str());
                out.append(" only.");
                out
            },
            ConfigError::WrongValueType { key, expected } => {
                let mut out = String::from_str("option '");
                out.append(key.as_str());
                out.append("': value expected '");
                match expected {
                    ValueType::Str => out.append("&'static str"),
                    ValueType::Bool => out.append("bool"),
                }
                out.append("' only.");
                out
            },
            ConfigError::PositionalFieldNotAllowed => String::from_str(
                "a value without a name is not allowed: write name = value.",
            ),
            ConfigError::InvalidName { key, name } => {
                let mut out = String::from_str("option '");
                out.append(key.as_str());
                out.append("': '");
                out.append(name.as_str());
                out.append("' is not an identifier.");
                out
            },
        }
    }
}

/// The keys of the schemas differ from one another.
pub proof fn lemma_keys_distinct()
    ensures
        PROXY@ != SERVANT@,
        PROXY@ != PERSISTENCY@,
        PROXY@ != CALLBACK@,
        SERVANT@ != PERSISTENCY@,
        SERVANT@ != CALLBACK@,
        PERSISTENCY@ != CALLBACK@,
        RECEIVER@ != NOTIFIER@,
{
    reveal_strlit("proxy");
    reveal_strlit("servant");
    reveal_strlit("persistency");
    reveal_strlit("callback");
    reveal_strlit("receiver");
    reveal_strlit("notifier");
    assert(PROXY@.len() == 5);
    assert(SERVANT@.len() == 7);
    assert(PERSISTENCY@.len() == 11);
    assert(CALLBACK@.len() == 8);
    assert(RECEIVER@[0] != NOTIFIER@[0]);
}

/// Parsing is total, and a configuration block is accepted exactly when each
/// of its fragments is: when each has a key of the schema and a value of the
/// type that the schema gives to the key.
pub proof fn lemma_accepted_iff_every_fragment(kind: Kind, fragments: Seq<FragmentView>)
    ensures
        configuration(kind, fragments) is Ok <==> forall|i: int|
            0 <= i < fragments.len() ==> fragment_error(kind, #[trigger] fragments[i]) is None,
        configuration(kind, fragments) is Ok <==> first_fragment_error(kind, fragments) is None,
    decreases fragments.len(),
{
    if fragments.len() > 0 {
        lemma_accepted_iff_every_fragment(kind, fragments.drop_last());
        assert(forall|i: int|
            0 <= i < fragments.len() - 1 ==> fragments.drop_last()[i] == #[trigger] fragments[i]);
        if first_fragment_error(kind, fragments) is None {
            assert forall|i: int| 0 <= i < fragments.len() implies fragment_error(
                kind,
                #[trigger] fragments[i],
            ) is None by {
                if i < fragments.len() - 1 {
                    assert(fragments.drop_last()[i] == fragments[i]);
                }
            }
        } else {
            if first_fragment_error(kind, fragments.drop_last()) is None {
                assert(fragment_error(kind, fragments[fragments.len() - 1]) is Some);
            } else {
                let i = choose|i: int|
                    0 <= i < fragments.drop_last().len() && !(fragment_error(
                        kind,
                        #[trigger] fragments.drop_last()[i],
                    ) is None);
                assert(fragments.drop_last()[i] == fragments[i]);
            }
        }
    }
}

/// The error that is reported is that of the first fragment in error.
pub proof fn lemma_first_fragment_error(kind: Kind, fragments: Seq<FragmentView>)
    ensures
        first_fragment_error(kind, fragments) matches Some(e) ==> exists|i: int|
            0 <= i < fragments.len() && fragment_error(kind, #[trigger] fragments[i]) == Some(e)
                && first_fragment_error(kind, fragments.take(i)) is None,
    decreases fragments.len(),
{
    if fragments.len() > 0 {
        let shorter = fragments.drop_last();
        lemma_first_fragment_error(kind, shorter);
        match first_fragment_error(kind, shorter) {
            Some(e) => {
                let i = choose|i: int|
                    0 <= i < shorter.len() && fragment_error(kind, #[trigger] shorter[i]) == Some(
                        e,
                    ) && first_fragment_error(kind, shorter.take(i)) is None;
                assert(shorter[i] == fragments[i]);
                assert(shorter.take(i) =~= fragments.take(i));
            },
            None => {
                assert(fragments.take(fragments.len() - 1) =~= shorter);
            },
        }
    }
}

/// The value that a key takes is that of the last fragment that gives it
/// one.
pub proof fn lemma_last_wins(fragments: Seq<FragmentView>, key: Seq<char>)
    ensures
        last_text(fragments, key) matches Some(s) ==> exists|i: int|
            0 <= i < fragments.len() && text_given(#[trigger] fragments[i], key) == Some(s)
                && last_text(fragments.skip(i + 1), key) is None,
        last_flag(fragments, key) matches Some(b) ==> exists|i: int|
            0 <= i < fragments.len() && flag_given(#[trigger] fragments[i], key) == Some(b)
                && last_flag(fragments.skip(i + 1), key) is None,
    decreases fragments.len(),
{
    if fragments.len() > 0 {
        let shorter = fragments.drop_last();
        let last = fragments.len() - 1;
        lemma_last_wins(shorter, key);
        assert(fragments.skip(last + 1).len() == 0);
        if text_given(fragments.last(), key) is None {
            if last_text(shorter, key) is Some {
                let s = last_text(shorter, key)->Some_0;
                let i = choose|i: int|
                    0 <= i < shorter.len() && text_given(#[trigger] shorter[i], key) == Some(s)
                        && last_text(shorter.skip(i + 1), key) is None;
                assert(shorter[i] == fragments[i]);
                assert(fragments.skip(i + 1).drop_last() =~= shorter.skip(i + 1));
            }
        } else {
            assert(text_given(fragments[last], key) is Some);
        }
        if flag_given(fragments.last(), key) is None {
            if last_flag(shorter, key) is Some {
                let b = last_flag(shorter, key)->Some_0;
                let i = choose|i: int|
                    0 <= i < shorter.len() && flag_given(#[trigger] shorter[i], key) == Some(b)
                        && last_flag(shorter.skip(i + 1), key) is None;
                assert(shorter[i] == fragments[i]);
                assert(fragments.skip(i + 1).drop_last() =~= shorter.skip(i + 1));
            }
        } else {
            assert(flag_given(fragments[last], key) is Some);
        }
    }
}

/// A key that no fragment names is given no value: it takes its default.
pub proof fn lemma_omitted_key(fragments: Seq<FragmentView>, key: Seq<char>)
    requires
        forall|i: int| 0 <= i < fragments.len() ==> (#[trigger] fragments[i]).key != Some(key),
    ensures
        last_text(fragments, key) is None,
        last_flag(fragments, key) is None,
    decreases fragments.len(),
{
    if fragments.len() > 0 {
        assert(forall|i: int|
            0 <= i < fragments.len() - 1 ==> fragments.drop_last()[i] == #[trigger] fragments[i]);
        lemma_omitted_key(fragments.drop_last(), key);
    }
}

/// Keys are set independently: a fragment leaves every key but its own as
/// it was.
pub proof fn lemma_other_keys_untouched(
    fragments: Seq<FragmentView>,
    f: FragmentView,
    key: Seq<char>,
)
    requires
        f.key != Some(key),
    ensures
        last_text(fragments.push(f), key) == last_text(fragments, key),
        last_flag(fragments.push(f), key) == last_flag(fragments, key),
{
    assert(fragments.push(f).drop_last() =~= fragments);
}

/// Every key can be set, and the last fragment that sets it wins.
pub proof fn lemma_key_set(fragments: Seq<FragmentView>, key: Seq<char>, value: LiteralView)
    ensures
        value matches LiteralView::Str(s) ==> last_text(
            fragments.push(FragmentView { key: Some(key), value }),
            key,
        ) == Some(s),
        value matches LiteralView::Bool(b) ==> last_flag(
            fragments.push(FragmentView { key: Some(key), value }),
            key,
        ) == Some(b),
{
}

/// The defaults of every kind: where a configuration block is accepted and
/// names no key at all, the binding and the stub are named after the
/// interface, and an invoke interface is neither persistent nor offers
/// callbacks.
pub proof fn lemma_defaults(kind: Kind, fragments: Seq<FragmentView>, interface: Seq<char>)
    requires
        configuration(kind, fragments) is Ok,
    ensures
        match configuration(kind, fragments)->Ok_0 {
            ConfigurationView::Invoke(a) => {
                &&& last_text(fragments, PROXY@) is None ==> a.proxy_name(interface) == interface
                    + "Proxy"@
                &&& last_text(fragments, SERVANT@) is None ==> a.servant_name(interface)
                    == interface + "Servant"@
                &&& last_flag(fragments, PERSISTENCY@) is None ==> !a.persistent()
                &&& last_flag(fragments, CALLBACK@) is None ==> !a.with_callbacks()
            },
            ConfigurationView::Watch(a) => {
                &&& last_text(fragments, PROXY@) is None ==> a.proxy_name(interface) == interface
                    + "Proxy"@
                &&& last_text(fragments, SERVANT@) is None ==> a.servant_name(interface)
                    == interface + "Servant"@
            },
            ConfigurationView::Report(a) => {
                &&& last_text(fragments, PROXY@) is None ==> a.proxy_name(interface) == interface
                    + "Staff"@
                &&& last_text(fragments, SERVANT@) is None ==> a.servant_name(interface)
                    == interface + "Officer"@
            },
            ConfigurationView::Notify(a) => {
                &&& last_text(fragments, RECEIVER@) is None ==> a.receiver_name(interface)
                    == interface + "Receiver"@
                &&& last_text(fragments, NOTIFIER@) is None ==> a.notifier_name(interface)
                    == interface + "Notifier"@
            },
        },
{
}

} // verus!
