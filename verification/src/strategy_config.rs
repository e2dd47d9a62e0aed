//! Strategy parameters: a string-keyed store of typed values with typed
//! lookups and a check that required keys are present.

use vstd::prelude::*;
use crate::assoc::{assoc_insert, assoc_map, assoc_position, keys_distinct};
use crate::outside::{str_debug, str_debug_text};
use crate::text::{i64_to_decimal, join, signed_decimal};
use crate::types::NyxsOwlError;

verus! {

/// Represents a configuration value for a strategy parameter.
#[derive(Debug)]
pub enum ConfigValue {
    /// An integer parameter.
    Int(i64),
    /// A floating-point parameter, held as the bit pattern of an IEEE 754
    /// double (as `f64::to_bits` gives it).
    Float(u64),
    /// A text parameter.
    String(String),
    /// A boolean parameter.
    Bool(bool),
}

/// What a float lookup finds: a float parameter (by its bit pattern) or an
/// integer parameter, which callers widen to a float.
#[derive(Debug, Clone, Copy, PartialEq, Eq, Structural)]
pub enum FloatParameter {
    /// A float parameter, by its IEEE 754 bit pattern.
    Bits(u64),
    /// An integer parameter.
    Int(i64),
}

impl Clone for ConfigValue {
    fn clone(&self) -> (r: Self)
        ensures
            r == *self,
    {
        match self {
            ConfigValue::Int(v) => ConfigValue::Int(*v),
            ConfigValue::Float(b) => ConfigValue::Float(*b),
            ConfigValue::String(t) => ConfigValue::String(t.clone()),
            ConfigValue::Bool(b) => ConfigValue::Bool(*b),
        }
    }
}

impl From<i32> for ConfigValue {
    fn from(i: i32) -> (r: Self)
        ensures
            r == ConfigValue::Int(i as i64),
    {
        ConfigValue::Int(i as i64)
    }
}

impl vstd::std_specs::convert::FromSpecImpl<i32> for ConfigValue {
    open spec fn obeys_from_spec() -> bool {
        true
    }

    open spec fn from_spec(v: i32) -> Self {
        ConfigValue::Int(v as i64)
    }
}

impl From<i64> for ConfigValue {
    fn from(i: i64) -> (r: Self)
        ensures
            r == ConfigValue::Int(i),
    {
        ConfigValue::Int(i)
    }
}

impl vstd::std_specs::convert::FromSpecImpl<i64> for ConfigValue {
    open spec fn obeys_from_spec() -> bool {
        true
    }

    open spec fn from_spec(v: i64) -> Self {
        ConfigValue::Int(v)
    }
}

impl From<String> for ConfigValue {
    fn from(s: String) -> (r: Self)
        ensures
            r == ConfigValue::String(s),
    {
        ConfigValue::String(s)
    }
}

impl vstd::std_specs::convert::FromSpecImpl<String> for ConfigValue {
    open spec fn obeys_from_spec() -> bool {
        true
    }

    open spec fn from_spec(v: String) -> Self {
        ConfigValue::String(v)
    }
}

impl<'a> From<&'a str> for ConfigValue {
    fn from(s: &'a str) -> (r: Self)
        ensures
            r matches ConfigValue::String(t) && t@ == s@,
    {
        ConfigValue::String(s.to_owned())
    }
}

impl<'a> vstd::std_specs::convert::FromSpecImpl<&'a str> for ConfigValue {
    open spec fn obeys_from_spec() -> bool {
        false
    }

    open spec fn from_spec(v: &'a str) -> Self {
        ConfigValue::String(arbitrary())
    }
}

impl From<bool> for ConfigValue {
    fn from(b: bool) -> (r: Self)
        ensures
            r == ConfigValue::Bool(b),
    {
        ConfigValue::Bool(b)
    }
}

impl vstd::std_specs::convert::FromSpecImpl<bool> for ConfigValue {
    open spec fn obeys_from_spec() -> bool {
        true
    }

    open spec fn from_spec(v: bool) -> Self {
        ConfigValue::Bool(v)
    }
}

/// Holds configuration parameters for a trading strategy, one value per key.
#[derive(Debug)]
pub struct StrategyConfig {
    parameters: Vec<(String, ConfigValue)>,
}

/// The message of a failed lookup of a missing key.
pub open spec fn not_found_message(kind: Seq<char>, key: Seq<char>) -> Seq<char> {
    "Required "@ + kind + " parameter '"@ + key + "' not found."@
}

/// How a value is shown in an error message: its `Debug` form, such as
/// `Int(20)`, `Bool(true)` or `String("text")`; a float value is shown by
/// its kind alone, `Float`.
pub open spec fn shown_value(v: ConfigValue) -> Seq<char> {
    match v {
        ConfigValue::Int(i) => "Int("@ + signed_decimal(i as int) + ")"@,
        ConfigValue::Float(_) => "Float"@,
        ConfigValue::String(t) => "String("@ + str_debug_text(t@) + ")"@,
        ConfigValue::Bool(b) => "Bool("@ + (if b { "true"@ } else { "false"@ }) + ")"@,
    }
}

/// The message of a failed lookup of a key holding another kind of value.
pub open spec fn wrong_kind_message(kind: Seq<char>, key: Seq<char>, found: ConfigValue) -> Seq<char> {
    "Parameter '"@ + key + "' is not "@ + kind + ". Found: "@ + shown_value(found)
}

/// The keys of `keys` that `params` lacks, in their order.
pub open spec fn missing_keys(keys: Seq<Seq<char>>, params: Map<Seq<char>, ConfigValue>) -> Seq<Seq<char>>
    decreases keys.len(),
{
    if keys.len() == 0 {
        Seq::empty()
    } else if params.contains_key(keys.last()) {
        missing_keys(keys.drop_last(), params)
    } else {
        missing_keys(keys.drop_last(), params).push(keys.last())
    }
}

/// The texts of a slice of string slices.
pub open spec fn texts(keys: Seq<&str>) -> Seq<Seq<char>> {
    keys.map_values(|k: &str| k@)
}

impl StrategyConfig {
    /// The parameters as a map from key text to value.
    pub closed spec fn params(&self) -> Map<Seq<char>, ConfigValue> {
        assoc_map(self.parameters@)
    }

    #[verifier::type_invariant]
    closed spec fn keys_unique(&self) -> bool {
        keys_distinct(self.parameters@)
    }

    /// Creates a new, empty `StrategyConfig`.
    pub fn new() -> (r: Self)
        ensures
            r.params() == Map::<Seq<char>, ConfigValue>::empty(),
    {
        let r = StrategyConfig { parameters: Vec::new() };
        assert(assoc_map(r.parameters@) =~= Map::<Seq<char>, ConfigValue>::empty());
        r
    }

    /// Sets the value of `key` (its text is `key@`), replacing any earlier value.
    pub fn set(&mut self, key: String, value: ConfigValue)
        ensures
            final(self).params() == old(self).params().insert(key@, value),
    {
        proof {
            use_type_invariant(&*self);
        }
        let mut params = Vec::new();
        std::mem::swap(&mut params, &mut self.parameters);
        assoc_insert(&mut params, key, value);
        self.parameters = params;
    }

    /// Adds or updates a parameter in the configuration.
    pub fn with_parameter<K: Into<String>, V: Into<ConfigValue>>(self, key: K, value: V) -> (r: Self)
        ensures
            exists|k: String, v: ConfigValue|
                call_ensures(K::into, (key,), k) && call_ensures(V::into, (value,), v)
                    && r.params() == self.params().insert(k@, v),
    {
        let k: String = key.into();
        let v: ConfigValue = value.into();
        let mut this = self;
        this.set(k, v);
        this
    }

    /// The position of the entry whose key text is `key@`.
    fn position(&self, key: &str) -> (r: Option<usize>)
        ensures
            r is None <==> !self.params().contains_key(key@),
            r matches Some(i) ==> i < self.parameters@.len() && self.parameters@[i as int].0@ == key@
                && self.params()[key@] == self.parameters@[i as int].1,
    {
        proof {
            use_type_invariant(self);
        }
        let k = key.to_owned();
        let r = assoc_position(&self.parameters, &k);
        proof {
            if let Some(i) = r {
                crate::assoc::lemma_key_index_unique(self.parameters@, i as int);
            }
        }
        r
    }

    /// Retrieves an integer parameter.
    pub fn get_int(&self, key: &str) -> (r: Result<i64, NyxsOwlError>)
        ensures
            !self.params().contains_key(key@) ==> (r matches Err(NyxsOwlError::StrategyError(m))
                && m@ == not_found_message("integer"@, key@)),
            self.params().contains_key(key@) ==> match self.params()[key@] {
                ConfigValue::Int(v) => r == Ok::<i64, NyxsOwlError>(v),
                other => r matches Err(NyxsOwlError::StrategyError(m))
                    && m@ == wrong_kind_message("an integer"@, key@, other),
            },
    {
        match self.position(key) {
            None => Err(NyxsOwlError::StrategyError(not_found("integer", key))),
            Some(i) => match &self.parameters[i].1 {
                ConfigValue::Int(v) => Ok(*v),
                other => Err(NyxsOwlError::StrategyError(wrong_kind("an integer", key, other))),
            },
        }
    }

    /// Retrieves a float parameter; an integer parameter is found as well,
    /// for the caller to widen.
    pub fn get_float(&self, key: &str) -> (r: Result<FloatParameter, NyxsOwlError>)
        ensures
            !self.params().contains_key(key@) ==> (r matches Err(NyxsOwlError::StrategyError(m))
                && m@ == not_found_message("float"@, key@)),
            self.params().contains_key(key@) ==> match self.params()[key@] {
                ConfigValue::Float(b) => r == Ok::<FloatParameter, NyxsOwlError>(FloatParameter::Bits(b)),
                ConfigValue::Int(v) => r == Ok::<FloatParameter, NyxsOwlError>(FloatParameter::Int(v)),
                other => r matches Err(NyxsOwlError::StrategyError(m))
                    && m@ == wrong_kind_message("a float"@, key@, other),
            },
    {
        match self.position(key) {
            None => Err(NyxsOwlError::StrategyError(not_found("float", key))),
            Some(i) => match &self.parameters[i].1 {
                ConfigValue::Float(b) => Ok(FloatParameter::Bits(*b)),
                ConfigValue::Int(v) => Ok(FloatParameter::Int(*v)),
                other => Err(NyxsOwlError::StrategyError(wrong_kind("a float", key, other))),
            },
        }
    }

    /// Retrieves a string parameter.
    pub fn get_string(&self, key: &str) -> (r: Result<&str, NyxsOwlError>)
        ensures
            !self.params().contains_key(key@) ==> (r matches Err(NyxsOwlError::StrategyError(m))
                && m@ == not_found_message("string"@, key@)),
            self.params().contains_key(key@) ==> match self.params()[key@] {
                ConfigValue::String(s) => r matches Ok(t) && t@ == s@,
                other => r matches Err(NyxsOwlError::StrategyError(m))
                    && m@ == wrong_kind_message("a string"@, key@, other),
            },
    {
        match self.position(key) {
            None => Err(NyxsOwlError::StrategyError(not_found("string", key))),
            Some(i) => match &self.parameters[i].1 {
                ConfigValue::String(s) => Ok(s.as_str()),
                other => Err(NyxsOwlError::StrategyError(wrong_kind("a string", key, other))),
            },
        }
    }

    /// Retrieves a boolean parameter.
    pub fn get_bool(&self, key: &str) -> (r: Result<bool, NyxsOwlError>)
        ensures
            !self.params().contains_key(key@) ==> (r matches Err(NyxsOwlError::StrategyError(m))
                && m@ == not_found_message("boolean"@, key@)),
            self.params().contains_key(key@) ==> match self.params()[key@] {
                ConfigValue::Bool(b) => r == Ok::<bool, NyxsOwlError>(b),
                other => r matches Err(NyxsOwlError::StrategyError(m))
                    && m@ == wrong_kind_message("a boolean"@, key@, other),
            },
    {
        match self.position(key) {
            None => Err(NyxsOwlError::StrategyError(not_found("boolean", key))),
            Some(i) => match &self.parameters[i].1 {
                ConfigValue::Bool(b) => Ok(*b),
                other => Err(NyxsOwlError::StrategyError(wrong_kind("a boolean", key, other))),
            },
        }
    }

    /// Whether the configuration holds `key`.
    pub fn contains_key(&self, key: &str) -> (r: bool)
        ensures
            r == self.params().contains_key(key@),
    {
        self.position(key).is_some()
    }

    /// Validates that all specified keys are present in the configuration.
    ///
    /// Returns `Ok(())` if all keys are present, otherwise `Err` with a message
    /// listing the missing keys.
    pub fn validate(&self, required_keys: &[&str]) -> (r: Result<(), String>)
        ensures
            missing_keys(texts(required_keys@), self.params()).len() == 0 ==> r == Ok::<(), String>(()),
            missing_keys(texts(required_keys@), self.params()).len() > 0 ==> (r matches Err(m)
                && m@ == "Missing required config keys: "@ + join(
                    missing_keys(texts(required_keys@), self.params()),
                    ", "@,
                )),
    {
        let ghost params = self.params();
        let mut missing: Vec<&str> = Vec::new();
        let n = required_keys.len();
        let mut i: usize = 0;
        while i < n
            invariant
                n == required_keys@.len(),
                i <= n,
                params == self.params(),
                texts(missing@) == missing_keys(texts(required_keys@.subrange(0, i as int)), params),
            decreases n - i,
        {
            let key = required_keys[i];
            let present = self.contains_key(key);
            let ghost before = missing@;
            if !present {
                missing.push(key);
            }
            proof {
                let ks = texts(required_keys@.subrange(0, i + 1));
                assert(ks.drop_last() =~= texts(required_keys@.subrange(0, i as int)));
                assert(ks.last() == key@);
                if !present {
                    assert(texts(missing@) =~= texts(before).push(key@));
                }
            }
            i = i + 1;
        }
        assert(required_keys@.subrange(0, n as int) =~= required_keys@);
        if missing.len() == 0 {
            Ok(())
        } else {
            let mut msg = String::from_str("Missing required config keys: ");
            let listed = join_strs(&missing, ", ");
            msg.append(listed.as_str());
            Err(msg)
        }
    }
}

/// A value set under a key is read back under that key, and every other
/// key reads as it did before: the configuration that `set` leaves, seen
/// through the map that the getters consult.
pub proof fn lemma_read_after_set(
    before: StrategyConfig,
    after: StrategyConfig,
    key: Seq<char>,
    value: ConfigValue,
    other: Seq<char>,
)
    requires
        after.params() == before.params().insert(key, value),
    ensures
        after.params().contains_key(key),
        after.params()[key] == value,
        other != key ==> after.params().contains_key(other) == before.params().contains_key(other),
        other != key && before.params().contains_key(other) ==> after.params()[other] == before.params()[other],
{
}

impl Clone for StrategyConfig {
    fn clone(&self) -> (r: Self)
        ensures
            r.params() == self.params(),
    {
        proof {
            use_type_invariant(self);
        }
        let n = self.parameters.len();
        let mut entries: Vec<(String, ConfigValue)> = Vec::new();
        let mut i: usize = 0;
        while i < n
            invariant
                n == self.parameters@.len(),
                i <= n,
                entries@ == self.parameters@.subrange(0, i as int),
            decreases n - i,
        {
            let k = self.parameters[i].0.clone();
            let v = self.parameters[i].1.clone();
            entries.push((k, v));
            assert(entries@ =~= self.parameters@.subrange(0, i + 1));
            i = i + 1;
        }
        assert(entries@ =~= self.parameters@);
        StrategyConfig { parameters: entries }
    }
}

impl Default for StrategyConfig {
    fn default() -> (r: Self)
        ensures
            r.params() == Map::<Seq<char>, ConfigValue>::empty(),
    {
        StrategyConfig::new()
    }
}

fn not_found(kind: &str, key: &str) -> (r: String)
    ensures
        r@ == not_found_message(kind@, key@),
{
    let mut s = String::from_str("Required ");
    s.append(kind);
    s.append(" parameter '");
    s.append(key);
    s.append("' not found.");
    s
}

fn wrong_kind(kind: &str, key: &str, found: &ConfigValue) -> (r: String)
    ensures
        r@ == wrong_kind_message(kind@, key@, *found),
{
    let mut s = String::from_str("Parameter '");
    s.append(key);
    s.append("' is not ");
    s.append(kind);
    s.append(". Found: ");
    let shown = show_value(found);
    s.append(shown.as_str());
    s
}

/// The value as error messages show it.
fn show_value(v: &ConfigValue) -> (r: String)
    ensures
        r@ == shown_value(*v),
{
    match v {
        ConfigValue::Int(i) => {
            let mut s = String::from_str("Int(");
            let digits = i64_to_decimal(*i);
            s.append(digits.as_str());
            s.append(")");
            s
        },
        ConfigValue::Float(_) => String::from_str("Float"),
        ConfigValue::String(t) => {
            let mut s = String::from_str("String(");
            let quoted = str_debug(t.as_str());
            s.append(quoted.as_str());
            s.append(")");
            s
        },
        ConfigValue::Bool(b) => {
            let mut s = String::from_str("Bool(");
            if *b {
                s.append("true");
            } else {
                s.append("false");
            }
            s.append(")");
            s
        },
    }
}

/// The texts of `names` separated by `sep`.
pub fn join_strs(names: &Vec<&str>, sep: &str) -> (r: String)
    ensures
        r@ == join(texts(names@), sep@),
{
    let mut s = String::new();
    let n = names.len();
    let mut i: usize = 0;
    while i < n
        invariant
            n == names@.len(),
            i <= n,
            s@ == join(texts(names@.subrange(0, i as int)), sep@),
        decreases n - i,
    {
        let ghost prev = texts(names@.subrange(0, i as int));
        if i > 0 {
            s.append(sep);
        }
        s.append(names[i]);
        proof {
            let cur = texts(names@.subrange(0, i + 1));
            assert(cur.drop_last() =~= prev);
            assert(cur.last() == names@[i as int]@);
            if i == 0 {
                assert(cur.len() == 1);
            }
        }
        i = i + 1;
    }
    assert(names@.subrange(0, n as int) =~= names@);
    s
}

} // verus!
