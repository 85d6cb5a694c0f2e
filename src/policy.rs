//! The operating policy, its validation, and its persisted JSON form.
use vstd::prelude::*;
use crate::address::{is_valid_address, valid_address};

verus! {

/// Idle timeout, in seconds, of the built-in policy.
pub const DEFAULT_INACTIVITY_TIMEOUT: u64 = 300;

/// The operating policy: how long audio may stay silent before the link is
/// dropped, whether to bring the link up when audio plays, and which device.
#[derive(Debug, Clone)]
pub struct Config {
    pub inactivity_timeout: u64,
    pub auto_connect: bool,
    pub device_address: String,
}

/// Why a policy could not be loaded or saved.
#[derive(Debug, Clone, Copy, PartialEq, Eq, Structural)]
pub enum ConfigError {
    /// The persisted source could not be read or written.
    IoError,
    /// The document is not a policy, or a field is out of range or malformed.
    ValidationError,
}

impl ConfigError {
    /// A short human-readable description.
    pub fn message(&self) -> (r: &'static str) {
        match self {
            ConfigError::IoError => "failed to read or write the policy file",
            ConfigError::ValidationError => "policy is malformed or out of range",
        }
    }
}

/// A policy that may be exposed: a positive timeout and a canonical address.
pub open spec fn valid_policy(c: Config) -> bool {
    c.inactivity_timeout > 0 && valid_address(c.device_address@)
}

/// The built-in policy used when nothing valid has ever been loaded.
pub open spec fn is_default_policy(c: Config) -> bool {
    &&& c.inactivity_timeout == DEFAULT_INACTIVITY_TIMEOUT
    &&& c.auto_connect
    &&& c.device_address@ == "XX:XX:XX:XX:XX:XX"@
}

/// Field-wise equality of two policies.
pub open spec fn same_policy(a: Config, b: Config) -> bool {
    &&& a.inactivity_timeout == b.inactivity_timeout
    &&& a.auto_connect == b.auto_connect
    &&& a.device_address@ == b.device_address@
}

/// What building a policy from the three decoded fields yields: a missing
/// field or an invalid value is a validation failure.
pub open spec fn policy_from_fields(
    timeout: Option<u64>,
    auto_connect: Option<bool>,
    address: Option<Seq<char>>,
) -> Option<(u64, bool, Seq<char>)> {
    match (timeout, auto_connect, address) {
        (Some(t), Some(a), Some(d)) => if t > 0 && valid_address(d) {
            Some((t, a, d))
        } else {
            None
        },
        _ => None,
    }
}

/// The text of an optional string.
pub open spec fn text_of(o: Option<String>) -> Option<Seq<char>> {
    match o {
        Some(s) => Some(s@),
        None => None,
    }
}

/// The non-negative integer that serde_json reads under `key` of the JSON
/// object in `text`; `None` if the text is no JSON object or the member is
/// absent or of another kind.
pub uninterp spec fn json_u64_member(text: Seq<char>, key: Seq<char>) -> Option<u64>;

/// The boolean that serde_json reads under `key` of the JSON object in `text`.
pub uninterp spec fn json_bool_member(text: Seq<char>, key: Seq<char>) -> Option<bool>;

/// The string that serde_json reads under `key` of the JSON object in `text`.
pub uninterp spec fn json_str_member(text: Seq<char>, key: Seq<char>) -> Option<Seq<char>>;

/// The policy fields that a persisted document decodes to, if it is one.
pub open spec fn decoded(text: Seq<char>) -> Option<(u64, bool, Seq<char>)> {
    policy_from_fields(
        json_u64_member(text, "inactivity_timeout"@),
        json_bool_member(text, "auto_connect"@),
        json_str_member(text, "device_address"@),
    )
}

/// `r` is the policy with fields `f`, or the validation error where there is none.
pub open spec fn carries(r: Result<Config, ConfigError>, f: Option<(u64, bool, Seq<char>)>) -> bool {
    match f {
        Some(f) => r is Ok && r->Ok_0.inactivity_timeout == f.0 && r->Ok_0.auto_connect == f.1
            && r->Ok_0.device_address@ == f.2,
        None => r == Err::<Config, ConfigError>(ConfigError::ValidationError),
    }
}

/// One decimal digit as a character.
pub open spec fn digit_char(d: nat) -> char {
    ((48 + d) as u8) as char
}

/// The shortest decimal text of `n`.
pub open spec fn decimal(n: nat) -> Seq<char>
    decreases n,
{
    if n < 10 {
        seq![digit_char(n)]
    } else {
        decimal(n / 10) + seq![digit_char(n % 10)]
    }
}

/// `true` or `false`, as JSON writes them.
pub open spec fn json_bool(b: bool) -> Seq<char> {
    if b {
        "true"@
    } else {
        "false"@
    }
}

/// The persisted document of a policy: a pretty-printed JSON object with the
/// three fields in a fixed order.
pub open spec fn policy_json(c: Config) -> Seq<char> {
    "{\n  \"inactivity_timeout\": "@ + decimal(c.inactivity_timeout as nat) + ",\n  \"auto_connect\": "@
        + json_bool(c.auto_connect) + ",\n  \"device_address\": \""@ + c.device_address@ + "\"\n}"@
}

/// The one-character text of a decimal digit.
fn digit_text(d: u64) -> (r: String)
    requires
        d < 10,
    ensures
        r@ == seq![digit_char(d as nat)],
{
    let lit = match d {
        0 => "0",
        1 => "1",
        2 => "2",
        3 => "3",
        4 => "4",
        5 => "5",
        6 => "6",
        7 => "7",
        8 => "8",
        _ => "9",
    };
    proof {
        reveal_strlit("0");
        reveal_strlit("1");
        reveal_strlit("2");
        reveal_strlit("3");
        reveal_strlit("4");
        reveal_strlit("5");
        reveal_strlit("6");
        reveal_strlit("7");
        reveal_strlit("8");
        reveal_strlit("9");
    }
    assert(lit@ =~= seq![digit_char(d as nat)]);
    String::from_str(lit)
}

/// The shortest decimal text of `n`.
fn decimal_text(n: u64) -> (r: String)
    ensures
        r@ == decimal(n as nat),
{
    let mut m: u64 = n;
    let mut out = String::new();
    while m >= 10
        invariant
            decimal(n as nat) == decimal(m as nat) + out@,
        decreases m,
    {
        let d = digit_text(m % 10);
        out = d.concat(out.as_str());
        assert(decimal(m as nat) == decimal((m / 10) as nat) + seq![digit_char((m % 10) as nat)]);
        assert(decimal(n as nat) =~= decimal((m / 10) as nat) + out@);
        m = m / 10;
    }
    let d = digit_text(m);
    let r = d.concat(out.as_str());
    assert(r@ =~= decimal(n as nat));
    r
}

/// Relies on `serde_json::from_str` into a `serde_json::Value`, then
/// `Value::get` and `Value::as_u64`: the integer member `key` of the object.
#[verifier::external_body]
fn read_u64_member(text: &str, key: &str) -> (r: Option<u64>)
    ensures
        r == json_u64_member(text@, key@),
{
    match serde_json::from_str::<serde_json::Value>(text) {
        Ok(v) => v.get(key).and_then(serde_json::Value::as_u64),
        Err(_) => None,
    }
}

/// Relies on `serde_json::from_str` into a `serde_json::Value`, then
/// `Value::get` and `Value::as_bool`: the boolean member `key` of the object.
#[verifier::external_body]
fn read_bool_member(text: &str, key: &str) -> (r: Option<bool>)
    ensures
        r == json_bool_member(text@, key@),
{
    match serde_json::from_str::<serde_json::Value>(text) {
        Ok(v) => v.get(key).and_then(serde_json::Value::as_bool),
        Err(_) => None,
    }
}

/// Relies on `serde_json::from_str` into a `serde_json::Value`, then
/// `Value::get` and `Value::as_str`: the string member `key` of the object.
#[verifier::external_body]
fn read_str_member(text: &str, key: &str) -> (r: Option<String>)
    ensures
        text_of(r) == json_str_member(text@, key@),
{
    match serde_json::from_str::<serde_json::Value>(text) {
        Ok(v) => v.get(key).and_then(serde_json::Value::as_str).map(String::from),
        Err(_) => None,
    }
}

impl Config {
    /// A field-by-field copy.
    pub fn snapshot(&self) -> (r: Config)
        ensures
            same_policy(r, *self),
    {
        Config {
            inactivity_timeout: self.inactivity_timeout,
            auto_connect: self.auto_connect,
            device_address: self.device_address.clone(),
        }
    }

    /// Accepts exactly the valid policies.
    pub fn validate(&self) -> (r: Result<(), ConfigError>)
        ensures
            r is Ok <==> valid_policy(*self),
            r is Err ==> r->Err_0 == ConfigError::ValidationError,
    {
        if self.inactivity_timeout == 0 {
            return Err(ConfigError::ValidationError);
        }
        if !is_valid_address(self.device_address.as_str()) {
            return Err(ConfigError::ValidationError);
        }
        Ok(())
    }

    /// Builds a policy from the three fields of a decoded document.
    pub fn from_fields(
        timeout: Option<u64>,
        auto_connect: Option<bool>,
        address: Option<String>,
    ) -> (r: Result<Config, ConfigError>)
        ensures
            carries(r, policy_from_fields(timeout, auto_connect, text_of(address))),
    {
        match (timeout, auto_connect, address) {
            (Some(t), Some(a), Some(d)) => {
                let c = Config { inactivity_timeout: t, auto_connect: a, device_address: d };
                match c.validate() {
                    Ok(()) => Ok(c),
                    Err(e) => Err(e),
                }
            },
            _ => Err(ConfigError::ValidationError),
        }
    }

    /// Decodes and validates a persisted policy document: a JSON object whose
    /// members `inactivity_timeout`, `auto_connect` and `device_address` hold
    /// a valid policy.
    pub fn decode(text: &str) -> (r: Result<Config, ConfigError>)
        ensures
            carries(r, decoded(text@)),
            r is Ok ==> valid_policy(r->Ok_0),
    {
        let timeout = read_u64_member(text, "inactivity_timeout");
        let auto_connect = read_bool_member(text, "auto_connect");
        let address = read_str_member(text, "device_address");
        Config::from_fields(timeout, auto_connect, address)
    }

    /// Loads the policy from what was read from the persisted source, `None`
    /// when reading failed. Reading failures are `IoError`; anything that does
    /// not decode to a valid policy is `ValidationError`.
    pub fn load(contents: Option<String>) -> (r: Result<Config, ConfigError>)
        ensures
            contents is None ==> r == Err::<Config, ConfigError>(ConfigError::IoError),
            contents is Some ==> carries(r, decoded(contents->Some_0@)),
            r is Ok ==> valid_policy(r->Ok_0),
    {
        match contents {
            None => Err(ConfigError::IoError),
            Some(text) => Config::decode(text.as_str()),
        }
    }

    /// Validates the policy and renders the document to persist.
    pub fn save(&self) -> (r: Result<String, ConfigError>)
        ensures
            r is Ok <==> valid_policy(*self),
            r is Ok ==> r->Ok_0@ == policy_json(*self),
            r is Err ==> r->Err_0 == ConfigError::ValidationError,
    {
        if let Err(e) = self.validate() {
            return Err(e);
        }
        let mut out = String::from_str("{\n  \"inactivity_timeout\": ");
        let digits = decimal_text(self.inactivity_timeout);
        out.append(digits.as_str());
        out.append(",\n  \"auto_connect\": ");
        if self.auto_connect {
            out.append("true");
        } else {
            out.append("false");
        }
        out.append(",\n  \"device_address\": \"");
        out.append(self.device_address.as_str());
        out.append("\"\n}");
        Ok(out)
    }
}

impl Default for Config {
    /// The built-in policy: five minutes, auto-connect on, placeholder address.
    fn default() -> (r: Config)
        ensures
            is_default_policy(r),
    {
        Config {
            inactivity_timeout: DEFAULT_INACTIVITY_TIMEOUT,
            auto_connect: true,
            device_address: String::from_str("XX:XX:XX:XX:XX:XX"),
        }
    }
}

impl PartialEq for Config {
    fn eq(&self, o: &Config) -> (r: bool) {
        self.inactivity_timeout == o.inactivity_timeout && self.auto_connect == o.auto_connect
            && self.device_address == o.device_address
    }
}

impl vstd::std_specs::cmp::PartialEqSpecImpl for Config {
    open spec fn obeys_eq_spec() -> bool {
        true
    }

    open spec fn eq_spec(&self, o: &Config) -> bool {
        same_policy(*self, *o)
    }
}

} // verus!
