//! Configuration resolution: required and optional settings are handed in as
//! plain `Option<String>` values (the process edge reads them from the
//! environment) and resolved into an immutable `AppConfig`, with documented
//! defaults for the optional ones and an error when a required one is absent.

use vstd::prelude::*;

verus! {

/// Settings for the document database: the connection string and the name of
/// the main logical database.
pub struct MongoConfig {
    pub uri: String,
    pub db_name: String,
}

/// The whole resolved configuration: the environment name plus the database
/// settings. Built once at startup and never mutated afterwards.
pub struct AppConfig {
    pub env: String,
    pub mongo: MongoConfig,
}

/// A required setting was absent. Fatal at startup: the process must exit
/// before any listener binds.
#[derive(PartialEq, Eq, Structural, Clone, Copy, Debug)]
pub enum ConfigError {
    MissingDatabaseUri,
    MissingDatabaseName,
}

impl AppConfig {
    /// Resolves the configuration from the raw optional settings.
    ///
    /// The database URI and database name are required: if either is absent
    /// the result is the corresponding error (URI checked first). The
    /// environment name is optional and defaults to "development".
    pub fn resolve(env_var: Option<String>, uri: Option<String>, db_name: Option<String>) -> (r:
        Result<AppConfig, ConfigError>)
        ensures
            uri is None ==> r == Err::<AppConfig, ConfigError>(ConfigError::MissingDatabaseUri),
            uri is Some && db_name is None ==> r == Err::<AppConfig, ConfigError>(
                ConfigError::MissingDatabaseName,
            ),
            uri is Some && db_name is Some ==> (r matches Ok(c) && {
                &&& c.mongo.uri@ == uri->0@
                &&& c.mongo.db_name@ == db_name->0@
                &&& (env_var matches Some(e) ==> c.env@ == e@)
                &&& (env_var is None ==> c.env@ == "development"@)
            }),
    {
        let u = match uri {
            Some(u) => u,
            None => { return Err(ConfigError::MissingDatabaseUri) },
        };
        let d = match db_name {
            Some(d) => d,
            None => { return Err(ConfigError::MissingDatabaseName) },
        };
        let env = match env_var {
            Some(e) => e,
            None => "development".to_owned(),
        };
        Ok(AppConfig { env, mongo: MongoConfig { uri: u, db_name: d } })
    }
}

/// The listen port used when the port setting is absent or does not parse.
pub const DEFAULT_PORT: u16 = 3300;

/// The digits of a port setting: an optional leading '+' sign is dropped,
/// as the standard unsigned decimal parser accepts one.
pub open spec fn digits_part(s: Seq<char>) -> Seq<char> {
    if s.len() > 0 && s[0] == '+' {
        s.subrange(1, s.len() as int)
    } else {
        s
    }
}

/// Every character of `s` is an ASCII decimal digit.
pub open spec fn all_ascii_digits(s: Seq<char>) -> bool {
    forall|i: int| 0 <= i < s.len() ==> '0' <= #[trigger] s[i] <= '9'
}

/// The value of a sequence of decimal digits, most significant first.
pub open spec fn digits_val(s: Seq<char>) -> int
    decreases s.len(),
{
    if s.len() == 0 {
        0
    } else {
        digits_val(s.drop_last()) * 10 + (s.last() as int - '0' as int)
    }
}

/// Whether `s` is accepted by the standard unsigned 16-bit decimal parser:
/// an optional '+' sign, then at least one digit, with a value that fits.
pub open spec fn parses_as_port(s: Seq<char>) -> bool {
    &&& digits_part(s).len() > 0
    &&& all_ascii_digits(digits_part(s))
    &&& digits_val(digits_part(s)) <= u16::MAX as int
}

proof fn lemma_digits_val_nonneg(s: Seq<char>)
    requires
        all_ascii_digits(s),
    ensures
        digits_val(s) >= 0,
    decreases s.len(),
{
    if s.len() > 0 {
        assert(all_ascii_digits(s.drop_last()));
        lemma_digits_val_nonneg(s.drop_last());
    }
}

/// Appending further digits never decreases the value: the value of a prefix
/// is a lower bound for the value of the whole digit string.
proof fn lemma_digits_val_prefix_le(s: Seq<char>, k: int)
    requires
        all_ascii_digits(s),
        0 <= k <= s.len(),
    ensures
        digits_val(s.subrange(0, k)) <= digits_val(s),
    decreases s.len() - k,
{
    if k == s.len() {
        assert(s.subrange(0, k) =~= s);
    } else {
        let p = s.subrange(0, k + 1);
        assert(p.drop_last() =~= s.subrange(0, k));
        assert(all_ascii_digits(s.subrange(0, k)));
        lemma_digits_val_nonneg(s.subrange(0, k));
        assert(digits_val(p) == digits_val(s.subrange(0, k)) * 10 + (p.last() as int
            - '0' as int));
        lemma_digits_val_prefix_le(s, k + 1);
    }
}

/// Parses `s` exactly as the standard unsigned 16-bit decimal parser would:
/// `Some` if and only if `s` is an optional '+' sign followed by one or more
/// ASCII digits whose value fits in 16 bits.
pub fn parse_port(s: &str) -> (r: Option<u16>)
    ensures
        r is Some <==> parses_as_port(s@),
        r matches Some(v) ==> v as int == digits_val(digits_part(s@)),
{
    let n = s.unicode_len();
    let digits: &str = if n > 0 && s.get_char(0) == '+' {
        s.substring_char(1, n)
    } else {
        s
    };
    proof {
        assert(digits@ =~= digits_part(s@));
    }
    let m = digits.unicode_len();
    if m == 0 {
        return None;
    }
    let mut val: u32 = 0;
    let mut i: usize = 0;
    while i < m
        invariant
            i <= m,
            m == digits@.len(),
            digits@ == digits_part(s@),
            val <= u16::MAX,
            all_ascii_digits(digits@.subrange(0, i as int)),
            val as int == digits_val(digits@.subrange(0, i as int)),
        decreases m - i,
    {
        let c = digits.get_char(i);
        let cv = c as u32;
        if cv < 48 || cv > 57 {
            proof {
                assert(!('0' <= digits@[i as int] <= '9'));
            }
            return None;
        }
        proof {
            let cur = digits@.subrange(0, i + 1);
            assert(cur.drop_last() =~= digits@.subrange(0, i as int));
            assert(cur.last() == digits@[i as int]);
            assert(digits_val(cur) == digits_val(cur.drop_last()) * 10 + (cur.last() as int
                - '0' as int));
        }
        val = val * 10 + (cv - 48);
        if val > u16::MAX as u32 {
            proof {
                if parses_as_port(s@) {
                    lemma_digits_val_prefix_le(digits@, i + 1);
                }
            }
            return None;
        }
        i += 1;
    }
    proof {
        assert(digits@.subrange(0, m as int) =~= digits@);
    }
    Some(val as u16)
}

/// Resolves the listen port from the optional raw setting, exactly as the
/// process entry point does: a value that parses as a 16-bit unsigned decimal
/// integer is used; anything absent or unparseable falls back to the default.
pub fn resolve_port(port_var: Option<&str>) -> (p: u16)
    ensures
        port_var is None ==> p == DEFAULT_PORT,
        port_var matches Some(s) ==> ({
            &&& !parses_as_port(s@) ==> p == DEFAULT_PORT
            &&& parses_as_port(s@) ==> p as int == digits_val(digits_part(s@))
        }),
{
    match port_var {
        None => DEFAULT_PORT,
        Some(s) => match parse_port(s) {
            Some(v) => v,
            None => DEFAULT_PORT,
        },
    }
}

} // verus!
