//! Command-line configuration: the command word, its arguments, and the
//! numeric-argument parsing the command handlers rely on.
//!
//! Dispatching commands and running them is I/O and lives outside this
//! crate; what is here is the pure part: splitting the argument list into
//! command and arguments, and reading an argument as a number.

use vstd::prelude::*;

verus! {

/// Configuration could not be built or acted on.
#[derive(Clone, Copy, Debug, PartialEq, Eq, Structural)]
pub struct ConfigError;

/// The argument list held no command.
#[derive(Clone, Copy, Debug, PartialEq, Eq, Structural)]
pub struct ConfigBuildError;

/// The command was not one of the supported ones.
#[derive(Clone, Copy, Debug, PartialEq, Eq, Structural)]
pub struct ConfigRunError;

/// The parsed command line: the command word and the arguments after it.
#[derive(Debug)]
pub struct Config {
    pub command: String,
    pub arguments: Vec<String>,
}

impl Config {
    /// Splits the raw argument list into a configuration: the first entry
    /// (the program name) is skipped, the next is the command, the rest are
    /// its arguments. Fails when no command was given.
    pub fn build(args: Vec<String>) -> (r: Result<Config, ConfigError>)
        ensures
            args@.len() < 2 ==> r is Err && r->Err_0 == ConfigError,
            args@.len() >= 2 ==> r is Ok && r->Ok_0.command == args@[1] && r->Ok_0.arguments@
                == args@.skip(2),
    {
        let mut rest = args;
        if rest.len() < 2 {
            return Err(ConfigError);
        }
        let _program_name = rest.remove(0);
        let command = rest.remove(0);
        assert(rest@ =~= args@.skip(2));
        Ok(Config { command, arguments: rest })
    }
}

// ---------------------------------------------------------------------------
// Reading an argument as a number
// ---------------------------------------------------------------------------

/// Whether `b` is an ASCII decimal digit.
pub open spec fn spec_is_digit(b: u8) -> bool {
    0x30 <= b <= 0x39
}

/// The value of a string of decimal digits, most significant first.
pub open spec fn spec_digits_value(s: Seq<u8>) -> int
    decreases s.len(),
{
    if s.len() == 0 {
        0
    } else {
        spec_digits_value(s.drop_last()) * 10 + (s.last() - 0x30)
    }
}

/// Reading a number from bytes: every byte must be a decimal digit, there
/// must be at least one, and the value must fit in `usize`.
pub open spec fn spec_parse_usize(s: Seq<u8>) -> Option<usize> {
    if s.len() == 0 || (exists|i: int| 0 <= i < s.len() && !spec_is_digit(#[trigger] s[i])) {
        None
    } else if spec_digits_value(s) > usize::MAX {
        None
    } else {
        Some(spec_digits_value(s) as usize)
    }
}

/// Reading a number from a string: its UTF-8 bytes, read as digits.
pub open spec fn spec_string_number(s: Seq<char>) -> Option<usize> {
    spec_parse_usize(vstd::utf8::encode_utf8(s))
}

/// A digit string's value only grows as digits are appended.
proof fn lemma_digits_value_bounds(s: Seq<u8>, k: int)
    requires
        forall|i: int| 0 <= i < s.len() ==> spec_is_digit(#[trigger] s[i]),
        0 <= k <= s.len(),
    ensures
        spec_digits_value(s) >= spec_digits_value(s.take(k)) >= 0,
    decreases s.len() - k,
{
    if k == s.len() {
        assert(s.take(k) =~= s);
        lemma_digits_value_nonneg(s);
    } else {
        lemma_digits_value_bounds(s, k + 1);
        assert(s.take(k + 1).drop_last() =~= s.take(k));
        assert(s.take(k + 1).last() == s[k]);
        lemma_digits_value_nonneg(s.take(k));
    }
}

proof fn lemma_digits_value_nonneg(s: Seq<u8>)
    requires
        forall|i: int| 0 <= i < s.len() ==> spec_is_digit(#[trigger] s[i]),
    ensures
        spec_digits_value(s) >= 0,
    decreases s.len(),
{
    if s.len() > 0 {
        assert(forall|i: int|
            0 <= i < s.drop_last().len() ==> spec_is_digit(#[trigger] s.drop_last()[i]));
        lemma_digits_value_nonneg(s.drop_last());
    }
}

/// Reads a decimal number from bytes; mirrors [`spec_parse_usize`].
pub fn parse_usize_bytes(b: &[u8]) -> (r: Option<usize>)
    ensures
        r == spec_parse_usize(b@),
{
    let n = b.len();
    if n == 0 {
        return None;
    }
    let mut acc: usize = 0;
    let mut i: usize = 0;
    assert(b@.take(0) =~= Seq::<u8>::empty());
    while i < n
        invariant
            n == b@.len(),
            i <= n,
            forall|j: int| 0 <= j < i ==> spec_is_digit(#[trigger] b@[j]),
            acc == spec_digits_value(b@.take(i as int)),
        decreases n - i,
    {
        let c = b[i];
        if c < 0x30 || c > 0x39 {
            return None;
        }
        let d = (c - 0x30) as usize;
        proof {
            assert(b@.take(i + 1).drop_last() =~= b@.take(i as int));
            assert(b@.take(i + 1).last() == b@[i as int]);
        }
        let scaled = match acc.checked_mul(10) {
            Some(t) => t,
            None => {
                proof {
                    overflow_means_no_parse(b@, i as int);
                }
                return None;
            },
        };
        acc = match scaled.checked_add(d) {
            Some(t) => t,
            None => {
                proof {
                    overflow_means_no_parse(b@, i as int);
                }
                return None;
            },
        };
        i = i + 1;
    }
    assert(b@.take(n as int) =~= b@);
    Some(acc)
}

/// When the value of the digits up to and including position `i` already
/// exceeds `usize`, the whole string parses to nothing: either a later
/// byte is not a digit, or the full value is at least as large.
proof fn overflow_means_no_parse(s: Seq<u8>, i: int)
    requires
        0 <= i < s.len(),
        spec_is_digit(s[i]),
        forall|j: int| 0 <= j < i ==> spec_is_digit(#[trigger] s[j]),
        spec_digits_value(s.take(i + 1)) > usize::MAX,
    ensures
        spec_parse_usize(s) is None,
{
    if forall|j: int| 0 <= j < s.len() ==> spec_is_digit(#[trigger] s[j]) {
        lemma_digits_value_bounds(s, i + 1);
    }
}

/// Reads the argument at index `i` as a decimal number. Fails when there
/// is no such argument or it is not a number that fits in `usize`.
pub fn argument_to_number(args: &Vec<String>, i: usize) -> (r: Result<usize, ConfigError>)
    ensures
        i >= args@.len() ==> r is Err && r->Err_0 == ConfigError,
        i < args@.len() ==> match spec_string_number(args@[i as int]@) {
            Some(v) => r is Ok && r->Ok_0 == v,
            None => r is Err && r->Err_0 == ConfigError,
        },
{
    if i >= args.len() {
        return Err(ConfigError);
    }
    let s: &String = &args[i];
    let bytes = s.as_str().as_bytes();
    match parse_usize_bytes(bytes) {
        Some(v) => Ok(v),
        None => Err(ConfigError),
    }
}

} // verus!
