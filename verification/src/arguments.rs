//! The command line as `pico_args` holds it, and the calls the argument
//! parsers make into it.
use vstd::prelude::*;
use crate::text::{chars_of, decimal, extend, extend_str, starts_with, string_of};

verus! {

/// `pico_args::Arguments`: the arguments not consumed yet.
#[verifier::external_type_specification]
#[verifier::external_body]
pub struct ExArguments(pico_args::Arguments);

/// The arguments an `Arguments` still holds, in order; `None` stands for one
/// that is not valid UTF-8.
pub uninterp spec fn argument_list(args: pico_args::Arguments) -> Seq<Option<Seq<char>>>;

/// The first position holding exactly `key`.
pub open spec fn position_of(a: Seq<Option<Seq<char>>>, key: Seq<char>) -> Option<int>
    decreases a.len(),
{
    if a.len() == 0 {
        None
    } else {
        match position_of(a.drop_last(), key) {
            Some(i) => Some(i),
            None => if a.last() == Some(key) {
                Some(a.len() - 1)
            } else {
                None
            },
        }
    }
}

/// Where `pico_args` finds an option given by its short and long key: the
/// first occurrence of the short key if there is one, else of the long key
/// (an empty key is never looked for).
pub open spec fn key_index(a: Seq<Option<Seq<char>>>, short: Seq<char>, long: Seq<char>) -> Option<(int, Seq<char>)> {
    if short.len() > 0 && position_of(a, short) is Some {
        Some((position_of(a, short)->0, short))
    } else if long.len() > 0 && position_of(a, long) is Some {
        Some((position_of(a, long)->0, long))
    } else {
        None
    }
}

/// A pair of keys `pico_args` accepts: a one-letter short key and a long key.
pub open spec fn valid_key_pair(short: Seq<char>, long: Seq<char>) -> bool {
    &&& short.len() == 2
    &&& short[0] == '-'
    &&& short[1] != '-'
    &&& starts_with(long, "--"@)
}

/// How reading an option's value failed.
#[derive(Debug, PartialEq, Eq)]
pub enum OptionError {
    /// The key came last, with nothing after it.
    WithoutValue(String),
    /// The value could not be read; the message says why.
    Failed(String),
}

/// The message `pico_args` gives for an option without a value.
pub open spec fn without_value_message(key: Seq<char>) -> Seq<char> {
    "the '"@ + key + "' option doesn't have an associated value"@
}

/// The message `pico_args` gives for an argument that is not UTF-8.
pub open spec fn non_utf8_message() -> Seq<char> {
    "argument is not a UTF-8 string"@
}

pub open spec fn option_error_message(e: OptionError) -> Seq<char> {
    match e {
        OptionError::WithoutValue(k) => without_value_message(k@),
        OptionError::Failed(m) => m@,
    }
}

impl OptionError {
    /// The error as `pico_args` displays it.
    pub fn message(&self) -> (r: String)
        ensures
            r@ == option_error_message(*self),
    {
        match self {
            OptionError::WithoutValue(k) => {
                let mut v: Vec<char> = Vec::new();
                extend_str(&mut v, "the '");
                extend_str(&mut v, k.as_str());
                extend_str(&mut v, "' option doesn't have an associated value");
                string_of(&v)
            },
            OptionError::Failed(m) => {
                let v = chars_of(m.as_str());
                string_of(&v)
            },
        }
    }
}

/// `a` without position `i`.
pub open spec fn remove_at(a: Seq<Option<Seq<char>>>, i: int) -> Seq<Option<Seq<char>>> {
    a.subrange(0, i) + a.subrange(i + 1, a.len() as int)
}

/// The value a text option takes from `a` (short and long key), and the
/// arguments left: key and value are consumed together.
pub open spec fn take_text_option(a: Seq<Option<Seq<char>>>, short: Seq<char>, long: Seq<char>) -> (Result<Option<Seq<char>>, (bool, Seq<char>)>, Seq<Option<Seq<char>>>) {
    match key_index(a, short, long) {
        None => (Ok(None), a),
        Some((i, key)) => if i + 1 >= a.len() {
            (Err((true, key)), a)
        } else {
            match a[i + 1] {
                None => (Err((false, non_utf8_message())), a),
                Some(v) => (Ok(Some(v)), remove_at(remove_at(a, i), i)),
            }
        },
    }
}

/// The spec view of an option error: whether the value is missing, and the key or message.
pub open spec fn option_error_view(e: OptionError) -> (bool, Seq<char>) {
    match e {
        OptionError::WithoutValue(k) => (true, k@),
        OptionError::Failed(m) => (false, m@),
    }
}

pub open spec fn text_result_view(r: Result<Option<String>, OptionError>) -> Result<Option<Seq<char>>, (bool, Seq<char>)> {
    match r {
        Ok(Some(s)) => Ok(Some(s@)),
        Ok(None) => Ok(None),
        Err(e) => Err(option_error_view(e)),
    }
}

/// `Arguments::contains` with a short and a long key: whether either occurs;
/// the occurrence found is consumed.
#[verifier::external_body]
pub(crate) fn contains_pair(args: &mut pico_args::Arguments, short: &'static str, long: &'static str) -> (r: bool)
    requires
        valid_key_pair(short@, long@),
    ensures
        r == key_index(argument_list(*old(args)), short@, long@) is Some,
        argument_list(*final(args)) == match key_index(argument_list(*old(args)), short@, long@) {
            Some((i, _)) => remove_at(argument_list(*old(args)), i),
            None => argument_list(*old(args)),
        },
{
    args.contains([short, long])
}

/// `Arguments::contains` with a single long key.
#[verifier::external_body]
pub(crate) fn contains_long(args: &mut pico_args::Arguments, key: &'static str) -> (r: bool)
    requires
        starts_with(key@, "--"@),
    ensures
        r == key_index(argument_list(*old(args)), key@, Seq::empty()) is Some,
        argument_list(*final(args)) == match key_index(argument_list(*old(args)), key@, Seq::empty()) {
            Some((i, _)) => remove_at(argument_list(*old(args)), i),
            None => argument_list(*old(args)),
        },
{
    args.contains(key)
}

/// `Arguments::opt_value_from_str::<_, String>` with a short and a long key.
#[verifier::external_body]
pub(crate) fn text_option_pair(args: &mut pico_args::Arguments, short: &'static str, long: &'static str) -> (r: Result<Option<String>, OptionError>)
    requires
        valid_key_pair(short@, long@),
    ensures
        text_result_view(r) == take_text_option(argument_list(*old(args)), short@, long@).0,
        argument_list(*final(args)) == take_text_option(argument_list(*old(args)), short@, long@).1,
{
    match args.opt_value_from_str::<_, String>([short, long]) {
        Ok(v) => Ok(v),
        Err(pico_args::Error::OptionWithoutAValue(k)) => Err(OptionError::WithoutValue(k.to_string())),
        Err(e) => Err(OptionError::Failed(e.to_string())),
    }
}

/// `Arguments::opt_value_from_str::<_, String>` with a single long key.
#[verifier::external_body]
pub(crate) fn text_option_long(args: &mut pico_args::Arguments, key: &'static str) -> (r: Result<Option<String>, OptionError>)
    requires
        starts_with(key@, "--"@),
    ensures
        text_result_view(r) == take_text_option(argument_list(*old(args)), key@, Seq::empty()).0,
        argument_list(*final(args)) == take_text_option(argument_list(*old(args)), key@, Seq::empty()).1,
{
    match args.opt_value_from_str::<_, String>(key) {
        Ok(v) => Ok(v),
        Err(pico_args::Error::OptionWithoutAValue(k)) => Err(OptionError::WithoutValue(k.to_string())),
        Err(e) => Err(OptionError::Failed(e.to_string())),
    }
}

// ----- decimal numbers -----

pub open spec fn is_digit(c: char) -> bool {
    '0' <= c && c <= '9'
}

pub open spec fn all_digits(s: Seq<char>) -> bool {
    forall|i: int| 0 <= i < s.len() ==> is_digit(#[trigger] s[i])
}

/// The number a string of decimal digits denotes.
pub open spec fn digits_value(s: Seq<char>) -> nat
    decreases s.len(),
{
    if s.len() == 0 {
        0
    } else {
        digits_value(s.drop_last()) * 10 + ((s.last() as u32) - 48) as nat
    }
}

/// The digits of a number text: an optional `+`, then the rest.
pub open spec fn unsigned_digits(s: Seq<char>) -> Seq<char> {
    if s.len() > 0 && s[0] == '+' {
        s.drop_first()
    } else {
        s
    }
}

/// `str::parse` for an unsigned type whose largest value is `max`: an optional
/// `+` and at least one decimal digit, with a value that fits.
pub open spec fn parse_unsigned(s: Seq<char>, max: nat) -> Option<nat> {
    let d = unsigned_digits(s);
    if d.len() > 0 && all_digits(d) && digits_value(d) <= max {
        Some(digits_value(d))
    } else {
        None
    }
}

pub proof fn lemma_digits_value_grows(s: Seq<char>, k: int)
    requires
        0 <= k <= s.len(),
        all_digits(s),
    ensures
        digits_value(s.subrange(0, k)) <= digits_value(s),
    decreases s.len() - k,
{
    if k < s.len() {
        let t = s.subrange(0, k + 1);
        assert(t.drop_last() =~= s.subrange(0, k));
        assert(is_digit(s[k]));
        lemma_digits_value_grows(s, k + 1);
    } else {
        assert(s.subrange(0, k) =~= s);
    }
}

/// `str::parse::<usize>`.
pub fn parse_usize(s: &str) -> (r: Option<usize>)
    ensures
        match r {
            Some(n) => parse_unsigned(s@, usize::MAX as nat) == Some(n as nat),
            None => parse_unsigned(s@, usize::MAX as nat) is None,
        },
{
    let v = chars_of(s);
    let start: usize = if v.len() > 0 && v[0] == '+' { 1 } else { 0 };
    let ghost d = unsigned_digits(s@);
    assert(d =~= v@.subrange(start as int, v@.len() as int));
    if start >= v.len() {
        return None;
    }
    let mut acc: usize = 0;
    let mut i = start;
    while i < v.len()
        invariant
            start <= i <= v.len(),
            v@ == s@,
            d == unsigned_digits(s@),
            d.len() > 0,
            d == v@.subrange(start as int, v@.len() as int),
            all_digits(d.subrange(0, i - start)),
            acc as nat == digits_value(d.subrange(0, i - start)),
        decreases v.len() - i,
    {
        let c = v[i];
        if !('0' <= c && c <= '9') {
            assert(d[i - start] == c);
            assert(!is_digit(d[i - start]));
            assert(!all_digits(d));
            return None;
        }
        let dg = (c as u32 - 48) as usize;
        assert(d.subrange(0, i + 1 - start).drop_last() =~= d.subrange(0, i - start));
        if acc > (usize::MAX - dg) / 10 {
            proof {
                assert(acc * 10 + dg > usize::MAX) by (nonlinear_arith)
                    requires
                        acc > (usize::MAX - dg) / 10,
                        dg <= 9,
                ;
                let k = i + 1 - start;
                let t = d.subrange(0, k as int);
                assert(t.last() == c);
                assert(digits_value(t) == digits_value(t.drop_last()) * 10 + dg);
                if all_digits(d) {
                    lemma_digits_value_grows(d, k as int);
                }
            }
            return None;
        }
        proof {
            assert(acc * 10 + dg <= usize::MAX) by (nonlinear_arith)
                requires
                    acc <= (usize::MAX - dg) / 10,
                    dg <= 9,
            ;
        }
        acc = acc * 10 + dg;
        i += 1;
    }
    assert(d.subrange(0, v.len() - start) =~= d);
    Some(acc)
}

/// The text `ParseIntError` displays for a value that is not a `usize`.
pub uninterp spec fn usize_parse_error(value: Seq<char>) -> Seq<char>;

/// What reading a numeric option (short and long key) from `a` gives, and the
/// arguments left.
pub open spec fn take_count_option(a: Seq<Option<Seq<char>>>, short: Seq<char>, long: Seq<char>) -> (Result<Option<usize>, (bool, Seq<char>)>, Seq<Option<Seq<char>>>) {
    match key_index(a, short, long) {
        None => (Ok(None), a),
        Some((i, key)) => if i + 1 >= a.len() {
            (Err((true, key)), a)
        } else {
            match a[i + 1] {
                None => (Err((false, non_utf8_message())), a),
                Some(v) => match parse_unsigned(v, usize::MAX as nat) {
                    Some(n) => (Ok(Some(n as usize)), remove_at(remove_at(a, i), i)),
                    None => (
                        Err((false, "failed to parse '"@ + v + "': "@ + usize_parse_error(v))),
                        a,
                    ),
                },
            }
        },
    }
}

pub open spec fn count_result_view(r: Result<Option<usize>, OptionError>) -> Result<Option<usize>, (bool, Seq<char>)> {
    match r {
        Ok(v) => Ok(v),
        Err(e) => Err(option_error_view(e)),
    }
}

/// `Arguments::opt_value_from_str::<_, usize>` with a short and a long key.
#[verifier::external_body]
pub(crate) fn count_option_pair(args: &mut pico_args::Arguments, short: &'static str, long: &'static str) -> (r: Result<Option<usize>, OptionError>)
    requires
        valid_key_pair(short@, long@),
    ensures
        count_result_view(r) == take_count_option(argument_list(*old(args)), short@, long@).0,
        argument_list(*final(args)) == take_count_option(argument_list(*old(args)), short@, long@).1,
        ({
            let a = argument_list(*old(args));
            match key_index(a, short@, long@) {
                Some((i, _)) => (i + 1 < a.len() && a[i + 1] is Some && parse_unsigned(
                    a[i + 1]->0,
                    usize::MAX as nat,
                ) is None) ==> r == Err::<Option<usize>, OptionError>(
                    OptionError::Failed(r->Err_0->Failed_0),
                ) && r->Err_0->Failed_0@ == "failed to parse '"@ + a[i + 1]->0 + "': "@
                    + usize_parse_error(a[i + 1]->0),
                None => true,
            }
        }),
{
    match args.opt_value_from_str::<_, usize>([short, long]) {
        Ok(v) => Ok(v),
        Err(pico_args::Error::OptionWithoutAValue(k)) => Err(OptionError::WithoutValue(k.to_string())),
        Err(e) => Err(OptionError::Failed(e.to_string())),
    }
}

/// What reading an id option (single key) from `a` gives when all goes well,
/// and the arguments left (a failure leaves them as they were).
pub open spec fn take_id_option(a: Seq<Option<Seq<char>>>, key: Seq<char>) -> (Option<u32>, Seq<Option<Seq<char>>>) {
    match key_index(a, key, Seq::empty()) {
        None => (None, a),
        Some((i, k)) => if i + 1 >= a.len() {
            (None, a)
        } else {
            match a[i + 1] {
                None => (None, a),
                Some(v) => match parse_unsigned(v, u32::MAX as nat) {
                    Some(n) => (Some(n as u32), remove_at(remove_at(a, i), i)),
                    None => (None, a),
                },
            }
        },
    }
}

/// `Arguments::opt_value_from_str::<_, u32>` with a single long key. What
/// an error says is not stated.
#[verifier::external_body]
pub(crate) fn id_option_long(args: &mut pico_args::Arguments, key: &'static str) -> (r: Result<Option<u32>, OptionError>)
    requires
        starts_with(key@, "--"@),
    ensures
        match r {
            Ok(v) => v == take_id_option(argument_list(*old(args)), key@).0,
            Err(_) => take_id_option(argument_list(*old(args)), key@).0 is None,
        },
        argument_list(*final(args)) == take_id_option(argument_list(*old(args)), key@).1,
        r matches Ok(None) ==> key_index(argument_list(*old(args)), key@, Seq::empty()) is None,
{
    match args.opt_value_from_str::<_, u32>(key) {
        Ok(v) => Ok(v),
        Err(pico_args::Error::OptionWithoutAValue(k)) => Err(OptionError::WithoutValue(k.to_string())),
        Err(e) => Err(OptionError::Failed(e.to_string())),
    }
}

/// `Arguments::finish`: the arguments left, each converted with
/// `to_string_lossy` (the text of one that is not UTF-8 is not stated).
#[verifier::external_body]
pub(crate) fn finish(args: pico_args::Arguments) -> (r: Vec<String>)
    ensures
        r@.len() == argument_list(args).len(),
        forall|i: int| 0 <= i < r@.len() ==> (#[trigger] argument_list(args)[i] matches Some(s) ==> r@[i]@ == s),
{
    args.finish().into_iter().map(|a| a.to_string_lossy().into_owned()).collect()
}

} // verus!
