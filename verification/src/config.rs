//! Assembling the runtime configuration from key/value pairs.
//!
//! The configuration surface is owned by an outside collaborator; this module
//! holds the pure part: given the key/value pairs (however they were
//! obtained), pick the task root, the handler file, the outbound allow-list
//! and the concurrency ceiling, and compose the module source path. When a key
//! occurs more than once, the last occurrence wins. A malformed concurrency
//! value, or a missing task root or handler entry, is an error, never a
//! default.

use vstd::prelude::*;
use vstd::std_specs::iter::IteratorSpec;
use vstd::string::StringSliceAdditionalSpecFns;
use vstd::utf8::encode_utf8;

use crate::engine::ExecutionContextConfiguration;
use crate::error::ConfigError;
use crate::gate::hosts_view;

verus! {

broadcast use vstd::string::next_postcondition, vstd::string::axiom_spec_iter;

/// The environment key naming the task-root directory.
pub open spec fn task_root_key() -> Seq<char> {
    "LAMBDA_TASK_ROOT"@
}

/// The environment key naming the handler file.
pub open spec fn handler_key() -> Seq<char> {
    "_HANDLER"@
}

/// The environment key holding the comma-separated host allow-list.
pub open spec fn allowed_hosts_key() -> Seq<char> {
    "ALLOWED_HOSTS"@
}

/// The environment key holding the ceiling on concurrent outbound requests.
pub open spec fn max_concurrency_key() -> Seq<char> {
    "MAX_CONCURRENCY"@
}

/// The key/value pairs as character sequences.
pub open spec fn pairs_view(vars: Seq<(String, String)>) -> Seq<(Seq<char>, Seq<char>)> {
    Seq::new(vars.len(), |i: int| (vars[i].0@, vars[i].1@))
}

/// The value of the last pair whose key is `key`, if any.
pub open spec fn last_value(pairs: Seq<(Seq<char>, Seq<char>)>, key: Seq<char>) -> Option<
    Seq<char>,
>
    decreases pairs.len(),
{
    if pairs.len() == 0 {
        None
    } else if pairs.last().0 == key {
        Some(pairs.last().1)
    } else {
        last_value(pairs.drop_last(), key)
    }
}

/// Whether a byte is an ASCII decimal digit.
pub open spec fn is_dec_digit_byte(b: u8) -> bool {
    48 <= b <= 57
}

/// Whether every byte is an ASCII decimal digit.
pub open spec fn digits_all(s: Seq<u8>) -> bool {
    forall|i: int| 0 <= i < s.len() ==> is_dec_digit_byte(#[trigger] s[i])
}

/// Whether the bytes form a non-empty string of ASCII decimal digits.
pub open spec fn dec_digits_ok(s: Seq<u8>) -> bool {
    s.len() > 0 && digits_all(s)
}

/// The number the decimal digits denote.
pub open spec fn dec_value(s: Seq<u8>) -> int
    decreases s.len(),
{
    if s.len() == 0 {
        0
    } else {
        dec_value(s.drop_last()) * 10 + (s.last() - 48)
    }
}

/// Whether the characters denote a decimal number that fits in 32 bits.
pub open spec fn max_concurrency_ok(value: Seq<char>) -> bool {
    dec_digits_ok(encode_utf8(value)) && dec_value(encode_utf8(value)) <= u32::MAX
}

proof fn lemma_dec_value_nonneg(s: Seq<u8>)
    requires
        digits_all(s),
    ensures
        dec_value(s) >= 0,
    decreases s.len(),
{
    if s.len() > 0 {
        assert(digits_all(s.drop_last()));
        lemma_dec_value_nonneg(s.drop_last());
    }
}

proof fn lemma_dec_value_mono(s: Seq<u8>, i: int)
    requires
        digits_all(s),
        0 <= i <= s.len(),
    ensures
        dec_value(s.take(i)) <= dec_value(s),
    decreases s.len(),
{
    if i == s.len() {
        assert(s.take(i) =~= s);
    } else {
        assert(digits_all(s.drop_last()));
        lemma_dec_value_nonneg(s.drop_last());
        lemma_dec_value_mono(s.drop_last(), i);
        assert(s.drop_last().take(i) =~= s.take(i));
    }
}

/// Parse a non-empty string of ASCII decimal digits into a 32-bit number.
/// Returns the number exactly when the string is such a digit string and its
/// value fits; anything else is rejected.
pub fn parse_u32_decimal(s: &str) -> (r: Option<u32>)
    ensures
        r matches Some(v) ==> max_concurrency_ok(s@) && v == dec_value(s.spec_bytes()),
        r is None ==> !max_concurrency_ok(s@),
{
    let bytes = s.as_bytes();
    let n = bytes.len();
    if n == 0 {
        return None;
    }
    let mut acc: u32 = 0;
    let mut i: usize = 0;
    while i < n
        invariant
            0 <= i <= n,
            n == bytes@.len(),
            bytes@ == s.spec_bytes(),
            digits_all(bytes@.take(i as int)),
            acc == dec_value(bytes@.take(i as int)),
        decreases n - i,
    {
        let b = bytes[i];
        if !(48 <= b && b <= 57) {
            return None;
        }
        let d = (b - 48) as u32;
        proof {
            assert(bytes@.take(i + 1).drop_last() =~= bytes@.take(i as int));
            assert(bytes@.take(i + 1).last() == bytes@[i as int]);
        }
        if acc > (u32::MAX - d) / 10 {
            proof {
                assert(acc * 10 + d > u32::MAX) by (nonlinear_arith)
                    requires
                        acc > (u32::MAX - d) / 10,
                        0 <= d <= 9,
                        acc <= u32::MAX,
                ;
                if dec_digits_ok(s.spec_bytes()) {
                    lemma_dec_value_mono(bytes@, i + 1);
                }
            }
            return None;
        }
        proof {
            assert(acc * 10 + d <= u32::MAX) by (nonlinear_arith)
                requires
                    acc <= (u32::MAX - d) / 10,
                    0 <= d <= 9,
            ;
        }
        acc = acc * 10 + d;
        i = i + 1;
    }
    proof {
        assert(bytes@.take(n as int) =~= bytes@);
    }
    Some(acc)
}

/// The sequence of strings as character sequences.
pub open spec fn strings_view(v: Seq<String>) -> Seq<Seq<char>> {
    Seq::new(v.len(), |i: int| v[i]@)
}

/// The split of a character sequence at every comma: the pieces between
/// commas, in order, kept even when empty.
pub open spec fn split_commas_acc(s: Seq<char>, done: Seq<Seq<char>>, cur: Seq<char>) -> Seq<
    Seq<char>,
>
    decreases s.len(),
{
    if s.len() == 0 {
        done.push(cur)
    } else if s[0] == ',' {
        split_commas_acc(s.drop_first(), done.push(cur), Seq::empty())
    } else {
        split_commas_acc(s.drop_first(), done, cur.push(s[0]))
    }
}

/// The pieces of a character sequence between its commas.
pub open spec fn split_commas(s: Seq<char>) -> Seq<Seq<char>> {
    split_commas_acc(s, Seq::empty(), Seq::empty())
}

/// Relies on `String::push`: appends one character.
#[verifier::external_body]
fn string_push(s: &mut String, c: char)
    ensures
        final(s)@ == old(s)@.push(c),
{
    s.push(c);
}

/// Relies on `String::push_str`: appends the characters of `suffix`.
#[verifier::external_body]
fn string_push_str(s: &mut String, suffix: &str)
    ensures
        final(s)@ == old(s)@ + suffix@,
{
    s.push_str(suffix);
}

/// Split a comma-separated allow-list into its entries, in order, keeping
/// empty entries (so that validation can reject them).
pub fn split_hosts(s: &str) -> (r: Vec<String>)
    ensures
        strings_view(r@) == split_commas(s@),
{
    let mut out: Vec<String> = Vec::new();
    let mut cur: String = String::new();
    let mut it = s.chars();
    proof {
        assert(strings_view(out@) =~= Seq::<Seq<char>>::empty());
        assert(cur@ =~= Seq::<char>::empty());
    }
    loop
        invariant
            it.obeys_prophetic_iter_laws(),
            it.decrease() is Some,
            split_commas(s@) == split_commas_acc(it.remaining(), strings_view(out@), cur@),
        ensures
            it.remaining().len() == 0,
            split_commas(s@) == split_commas_acc(it.remaining(), strings_view(out@), cur@),
        decreases it.decrease()->0,
    {
        let ghost prev = it.remaining();
        match it.next() {
            None => {
                break ;
            },
            Some(c) => {
                proof {
                    assert(prev.len() > 0);
                }
                if c == ',' {
                    let ghost old_out = out@;
                    let ghost old_cur = cur@;
                    out.push(cur);
                    cur = String::new();
                    proof {
                        assert(strings_view(out@) =~= strings_view(old_out).push(old_cur));
                        assert(cur@ =~= Seq::<char>::empty());
                    }
                } else {
                    string_push(&mut cur, c);
                }
            },
        }
    }
    let ghost done = strings_view(out@);
    let ghost last_piece = cur@;
    out.push(cur);
    proof {
        assert(strings_view(out@) =~= done.push(last_piece));
    }
    out
}

/// The view of an optional string.
pub open spec fn opt_view(o: Option<String>) -> Option<Seq<char>> {
    match o {
        None => None,
        Some(s) => Some(s@),
    }
}

/// Whether the last concurrency entry, if any, is a valid decimal number.
pub open spec fn max_entry_ok(pairs: Seq<(Seq<char>, Seq<char>)>) -> bool {
    match last_value(pairs, max_concurrency_key()) {
        None => true,
        Some(a) => max_concurrency_ok(a),
    }
}

/// The value of the last pair whose key is `key`, copied out, if any.
fn find_last(vars: &Vec<(String, String)>, key: &String) -> (r: Option<String>)
    ensures
        opt_view(r) == last_value(pairs_view(vars@), key@),
{
    let n = vars.len();
    let mut j: usize = n;
    proof {
        assert(pairs_view(vars@).take(n as int) =~= pairs_view(vars@));
    }
    while j > 0
        invariant
            0 <= j <= n,
            n == vars@.len(),
            last_value(pairs_view(vars@), key@) == last_value(
                pairs_view(vars@).take(j as int),
                key@,
            ),
        decreases j,
    {
        proof {
            assert(pairs_view(vars@).take(j as int).drop_last() =~= pairs_view(vars@).take(j - 1));
            assert(pairs_view(vars@).take(j as int).last() == pairs_view(vars@)[j - 1]);
        }
        if vars[j - 1].0 == *key {
            return Some(vars[j - 1].1.clone());
        }
        j = j - 1;
    }
    proof {
        assert(pairs_view(vars@).take(0) =~= Seq::<(Seq<char>, Seq<char>)>::empty());
    }
    None
}

/// Assemble the runtime configuration from key/value pairs (for instance the
/// process environment): the task-root and handler entries are required and
/// compose the module source path `<task root>/<handler>.wasm`; the last
/// occurrence of a key wins; the allow-list entry is split at commas; the
/// concurrency entry must be a decimal number that fits in 32 bits. The
/// component identifier is fixed and the temp directory is `/tmp`.
pub fn retrieve_config(vars: &Vec<(String, String)>) -> (r: Result<
    ExecutionContextConfiguration,
    ConfigError,
>)
    ensures
        ({
            let p = pairs_view(vars@);
            &&& (!max_entry_ok(p) ==> r == Err::<ExecutionContextConfiguration, ConfigError>(
                ConfigError::InvalidMaxConcurrency,
            ))
            &&& (max_entry_ok(p) && last_value(p, task_root_key()) is None ==> r == Err::<
                ExecutionContextConfiguration,
                ConfigError,
            >(ConfigError::MissingTaskRoot))
            &&& (max_entry_ok(p) && last_value(p, task_root_key()) is Some && last_value(
                p,
                handler_key(),
            ) is None ==> r == Err::<ExecutionContextConfiguration, ConfigError>(
                ConfigError::MissingHandler,
            ))
            &&& (max_entry_ok(p) && last_value(p, task_root_key()) is Some && last_value(
                p,
                handler_key(),
            ) is Some ==> r is Ok)
            &&& (r matches Ok(c) ==> {
                &&& max_entry_ok(p)
                &&& c.id@ == "Lambda"@
                &&& c.temp_directory@ == "/tmp"@
                &&& last_value(p, task_root_key()) == Some(c.task_directory@)
                &&& (last_value(p, handler_key()) matches Some(h) && c.source@
                    == c.task_directory@ + "/"@ + h + ".wasm"@)
                &&& (match last_value(p, allowed_hosts_key()) {
                    None => c.allowed_hosts is None,
                    Some(a) => hosts_view(c.allowed_hosts) == Some(split_commas(a)),
                })
                &&& (match last_value(p, max_concurrency_key()) {
                    None => c.max_concurrent_requests is None,
                    Some(a) => c.max_concurrent_requests matches Some(v) && v == dec_value(
                        encode_utf8(a),
                    ),
                })
            })
        }),
{
    let task_key: String = "LAMBDA_TASK_ROOT".to_owned();
    let handler_key_str: String = "_HANDLER".to_owned();
    let hosts_key_str: String = "ALLOWED_HOSTS".to_owned();
    let max_key_str: String = "MAX_CONCURRENCY".to_owned();
    let task_root = find_last(vars, &task_key);
    let handler_file = find_last(vars, &handler_key_str);
    let hosts_raw = find_last(vars, &hosts_key_str);
    let max_raw = find_last(vars, &max_key_str);
    let max_concurrent_requests: Option<u32> = match max_raw {
        None => None,
        Some(m) => match parse_u32_decimal(m.as_str()) {
            Some(v) => Some(v),
            None => {
                return Err(ConfigError::InvalidMaxConcurrency);
            },
        },
    };
    let allowed_hosts: Option<Vec<String>> = match hosts_raw {
        None => None,
        Some(h) => {
            let pieces = split_hosts(h.as_str());
            proof {
                assert(hosts_view(Some(pieces)) matches Some(x) && x =~= strings_view(pieces@));
            }
            Some(pieces)
        },
    };
    let task_directory = match task_root {
        Some(t) => t,
        None => {
            return Err(ConfigError::MissingTaskRoot);
        },
    };
    let handler = match handler_file {
        Some(h) => h,
        None => {
            return Err(ConfigError::MissingHandler);
        },
    };
    let mut source = task_directory.clone();
    string_push_str(&mut source, "/");
    string_push_str(&mut source, handler.as_str());
    string_push_str(&mut source, ".wasm");
    Ok(
        ExecutionContextConfiguration {
            id: "Lambda".to_owned(),
            task_directory,
            temp_directory: "/tmp".to_owned(),
            source,
            allowed_hosts,
            max_concurrent_requests,
        },
    )
}

} // verus!
