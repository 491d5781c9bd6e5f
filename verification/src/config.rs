//! Startup configuration: the serve directory, the port and the database
//! path, read from the command-line arguments, with a verified decimal
//! parser for the port.

use vstd::prelude::*;
use vstd::string::StrSliceExecFns;

verus! {

/// The port used when none is given.
pub const DEFAULT_PORT: u16 = 3000;

/// Why the arguments were rejected.
#[derive(Clone, Copy, Debug, PartialEq, Eq, Structural)]
pub enum ArgError {
    /// The required serve directory argument is missing.
    MissingServeDir,
    /// The port argument is not a decimal 16-bit unsigned integer.
    BadPort,
}

/// The startup configuration.
#[derive(Debug)]
pub struct Config {
    /// Filesystem root for static file serving.
    pub serve_dir: String,
    /// TCP port to bind on the loopback address.
    pub port: u16,
    /// Path of the database file; `None` selects an ephemeral in-memory
    /// database.
    pub db_path: Option<String>,
}

/// Whether `c` is one of the decimal digits.
pub open spec fn is_decimal_digit(c: char) -> bool {
    48 <= c as int <= 57
}

/// The value of the decimal digit `c`.
pub open spec fn digit_value(c: char) -> nat {
    (c as int - 48) as nat
}

/// The number written in decimal as `s`, most significant digit first.
pub open spec fn decimal_value(s: Seq<char>) -> nat
    decreases s.len(),
{
    if s.len() == 0 {
        0
    } else {
        decimal_value(s.drop_last()) * 10 + digit_value(s.last())
    }
}

/// Whether every character of `s` is a decimal digit.
pub open spec fn all_decimal_digits(s: Seq<char>) -> bool {
    forall|i: int| 0 <= i < s.len() ==> is_decimal_digit(s[i])
}

/// Whether `s` is a non-empty string of decimal digits whose value fits a
/// 16-bit unsigned integer.
pub open spec fn is_port_text(s: Seq<char>) -> bool {
    s.len() > 0 && all_decimal_digits(s) && decimal_value(s) <= 65535
}

proof fn lemma_decimal_prefix_step(s: Seq<char>, i: int)
    requires
        0 <= i < s.len(),
    ensures
        decimal_value(s.take(i + 1)) == decimal_value(s.take(i)) * 10 + digit_value(s[i]),
{
    assert(s.take(i + 1).drop_last() =~= s.take(i));
    assert(s.take(i + 1).last() == s[i]);
}

proof fn lemma_decimal_prefix_monotone(s: Seq<char>, i: int, j: int)
    requires
        0 <= i <= j <= s.len(),
    ensures
        decimal_value(s.take(i)) <= decimal_value(s.take(j)),
    decreases j - i,
{
    if i < j {
        lemma_decimal_prefix_monotone(s, i, j - 1);
        lemma_decimal_prefix_step(s, j - 1);
        assert(decimal_value(s.take(j - 1)) * 10 >= decimal_value(s.take(j - 1)));
    }
}

/// Parse `s` as a decimal port number. Returns the value exactly when `s` is
/// non-empty, all decimal digits, and at most 65535; anything else — an
/// empty string, a sign, a non-digit, a value out of range — is rejected.
/// Leading zeros are accepted, as in `"080"`.
pub fn parse_port(s: &str) -> (r: Option<u16>)
    ensures
        is_port_text(s@) ==> r == Some((decimal_value(s@) as u16)),
        !is_port_text(s@) ==> r is None,
{
    let n = s.unicode_len();
    if n == 0 {
        return None;
    }
    let mut value: u32 = 0;
    let mut i: usize = 0;
    while i < n
        invariant
            n == s@.len(),
            0 <= i <= n,
            all_decimal_digits(s@.take(i as int)),
            value == decimal_value(s@.take(i as int)),
            value <= 65535,
        decreases n - i,
    {
        let c = s.get_char(i);
        let code = c as u32;
        if code < 48 || code > 57 {
            proof {
                assert(!is_decimal_digit(s@[i as int]));
            }
            return None;
        }
        proof {
            lemma_decimal_prefix_step(s@, i as int);
            assert forall|j: int| 0 <= j < i as int + 1 implies is_decimal_digit(
                #[trigger] s@.take(i as int + 1)[j],
            ) by {
                if j < i as int {
                    assert(is_decimal_digit(s@.take(i as int)[j]));
                }
            }
        }
        value = value * 10 + (code - 48);
        if value > 65535 {
            proof {
                if all_decimal_digits(s@) {
                    lemma_decimal_prefix_monotone(s@, i as int + 1, s@.len() as int);
                    assert(s@.take(s@.len() as int) =~= s@);
                }
            }
            return None;
        }
        i = i + 1;
    }
    proof {
        assert(s@.take(n as int) =~= s@);
    }
    Some(value as u16)
}

/// Read the configuration from the arguments, the program name first: the
/// serve directory stands second, then an optional port, then an optional
/// database path; further arguments are ignored. A missing serve directory
/// and an unparsable port are rejected, each with its own error.
pub fn configure(args: &Vec<String>) -> (r: Result<Config, ArgError>)
    ensures
        r is Ok <==> args@.len() >= 2 && (args@.len() < 3 || is_port_text(args@[2]@)),
        r matches Ok(c) ==> {
            &&& c.serve_dir@ == args@[1]@
            &&& (args@.len() < 3 ==> c.port == DEFAULT_PORT)
            &&& (args@.len() >= 3 ==> c.port == decimal_value(args@[2]@) as u16)
            &&& (args@.len() < 4 ==> c.db_path is None)
            &&& (args@.len() >= 4 ==> (c.db_path matches Some(p) && p@ == args@[3]@))
        },
        r matches Err(e) ==> {
            &&& (e == ArgError::MissingServeDir <==> args@.len() < 2)
            &&& (e == ArgError::BadPort <==> args@.len() >= 3 && !is_port_text(args@[2]@))
        },
{
    if args.len() < 2 {
        return Err(ArgError::MissingServeDir);
    }
    let serve_dir = args[1].as_str().to_owned();
    let port: u16 = if args.len() < 3 {
        DEFAULT_PORT
    } else {
        match parse_port(args[2].as_str()) {
            Some(p) => p,
            None => {
                return Err(ArgError::BadPort);
            },
        }
    };
    let db_path: Option<String> = if args.len() < 4 {
        None
    } else {
        Some(args[3].as_str().to_owned())
    };
    Ok(Config { serve_dir, port, db_path })
}

} // verus!
