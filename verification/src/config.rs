//! Configuration resolution: merging file settings with command-line
//! overrides, and port-string validation.
use vstd::prelude::*;
use vstd::string::*;

use crate::ClientError;
use crate::Config;

verus! {

/// An ASCII decimal digit.
pub open spec fn is_dec_digit(c: char) -> bool {
    48 <= c as u32 && c as u32 <= 57
}

/// The numeric value of one decimal digit character.
pub open spec fn digit_val(c: char) -> nat
    recommends
        is_dec_digit(c),
{
    (c as u32 - 48) as nat
}

/// Whether every character of `s` is a decimal digit.
pub open spec fn all_digits(s: Seq<char>) -> bool {
    forall|i: int| 0 <= i < s.len() ==> is_dec_digit(s[i])
}

/// The number a digit string denotes, most significant digit first.
pub open spec fn digits_val(s: Seq<char>) -> nat
    decreases s.len(),
{
    if s.len() == 0 {
        0
    } else {
        digits_val(s.drop_last()) * 10 + digit_val(s.last())
    }
}

/// The digit part of a number string: a single leading `+` sign is allowed
/// and skipped.
pub open spec fn number_digits(s: Seq<char>) -> Seq<char> {
    if s.len() > 0 && s[0] == '+' {
        s.drop_first()
    } else {
        s
    }
}

/// The strings accepted as a `u16`: at least one digit after an optional
/// `+` sign, and a value that fits.
pub open spec fn is_valid_u16_str(s: Seq<char>) -> bool {
    let d = number_digits(s);
    d.len() > 0 && all_digits(d) && digits_val(d) <= u16::MAX
}

proof fn lemma_digits_val_prefix_le(s: Seq<char>, i: int)
    requires
        0 <= i <= s.len(),
    ensures
        digits_val(s.take(i)) <= digits_val(s),
    decreases s.len() - i,
{
    if i < s.len() {
        assert(s.take(i + 1).drop_last() =~= s.take(i));
        assert(s.take(i + 1).last() == s[i]);
        assert(digits_val(s.take(i)) <= digits_val(s.take(i + 1)));
        lemma_digits_val_prefix_le(s, i + 1);
        assert(s.take(s.len() as int) =~= s);
    } else {
        assert(s.take(i) =~= s);
    }
}

/// Parses a decimal `u16` the way the standard parser reads one: an optional
/// leading `+`, then one or more digits, rejecting overflow.
pub fn parse_u16(s: &str) -> (r: Option<u16>)
    ensures
        r is Some <==> is_valid_u16_str(s@),
        r matches Some(v) ==> v as nat == digits_val(number_digits(s@)),
{
    let len = s.unicode_len();
    let start: usize = if len > 0 && s.get_char(0) == '+' {
        1
    } else {
        0
    };
    let ghost d = number_digits(s@);
    proof {
        if start == 1 {
            assert(d =~= s@.subrange(1, len as int));
        } else {
            assert(d =~= s@.subrange(0, len as int));
            assert(d =~= s@);
        }
    }
    if len == start {
        return None;
    }
    let mut i = start;
    let mut acc: u32 = 0;
    while i < len
        invariant
            start <= i <= len,
            len == s@.len(),
            start == 0 || start == 1,
            d == number_digits(s@),
            start == 1 ==> d == s@.subrange(1, len as int),
            start == 0 ==> d == s@,
            all_digits(d.take(i - start)),
            acc <= u16::MAX,
            acc as nat == digits_val(d.take(i - start)),
        decreases len - i,
    {
        let c = s.get_char(i);
        let cv = c as u32;
        proof {
            assert(d[i - start] == s@[i as int]);
            assert(d.take(i - start + 1).drop_last() =~= d.take(i - start));
            assert(d.take(i - start + 1).last() == d[i - start]);
        }
        if cv < 48 || cv > 57 {
            proof {
                assert(!is_dec_digit(d[i - start]));
                assert(!all_digits(d));
            }
            return None;
        }
        acc = acc * 10 + (cv - 48);
        proof {
            assert(digit_val(d[i - start]) == cv - 48);
            assert(acc as nat == digits_val(d.take(i - start + 1)));
        }
        if acc > 65535 {
            proof {
                lemma_digits_val_prefix_le(d, i - start + 1);
                assert(digits_val(d) > u16::MAX);
            }
            return None;
        }
        i = i + 1;
    }
    proof {
        assert(d.take(len - start) =~= d);
    }
    Some(acc as u16)
}

/// Accepts a string exactly when it reads as a `u16` port number.
pub fn validate_port_str(port_str: &str) -> (r: Result<(), String>)
    ensures
        r is Ok <==> is_valid_u16_str(port_str@),
        r matches Err(m) ==> m@ == "Invalid port"@,
{
    match parse_u16(port_str) {
        Some(_) => Ok(()),
        None => Err(String::from_str("Invalid port")),
    }
}

/// Command-line overrides layered over the configuration file.
pub struct ConfigArgs {
    pub host: Option<String>,
    pub port: Option<u16>,
    pub model: Option<String>,
    pub verbose: bool,
    pub color: bool,
    pub save: bool,
}

/// The port the merged configuration ends up with.
pub open spec fn merged_port(file_port: u16, arg_port: Option<u16>) -> u16 {
    match arg_port {
        Some(p) => p,
        None => file_port,
    }
}

/// Resolves the effective configuration: a command-line value replaces the
/// file's value field by field, a set flag turns its switch on, and the
/// resulting port must be in bounds.
pub fn get_config(file_conf: Config, args: ConfigArgs) -> (r: Result<Config, ClientError>)
    ensures
        merged_port(file_conf.port, args.port) < 65535 <==> r is Ok,
        merged_port(file_conf.port, args.port) >= 65535 ==> r == Err::<Config,
            ClientError>(ClientError::PortOutOfBounds),
        r matches Ok(c) ==> {
            &&& c.port == merged_port(file_conf.port, args.port)
            &&& c.host@ == (match args.host {
                Some(h) => h@,
                None => file_conf.host@,
            })
            &&& c.model@ == (match args.model {
                Some(m) => m@,
                None => file_conf.model@,
            })
            &&& c.verbose == (file_conf.verbose || args.verbose)
            &&& c.color == (file_conf.color || args.color)
            &&& c.save == (file_conf.save || args.save)
        },
{
    let port = match args.port {
        Some(p) => p,
        None => file_conf.port,
    };
    if port >= 65535 {
        return Err(ClientError::PortOutOfBounds);
    }
    let host = match args.host {
        Some(h) => h,
        None => file_conf.host,
    };
    let model = match args.model {
        Some(m) => m,
        None => file_conf.model,
    };
    Ok(
        Config {
            host,
            port,
            model,
            verbose: file_conf.verbose || args.verbose,
            color: file_conf.color || args.color,
            save: file_conf.save || args.save,
        },
    )
}

} // verus!
