//! Start-up configuration: the user id under which the app's own comments appear.

use vstd::prelude::*;

verus! {

/// Why the bot's user id could not be loaded.
#[derive(PartialEq, Eq, Structural, Clone, Copy, Debug)]
pub enum ConfigError {
    /// The `BOT_USER_ID` variable is not set.
    BotUserIdNotSet,
    /// The `BOT_USER_ID` variable does not hold a decimal `u64`.
    BotUserIdInvalid,
}

impl ConfigError {
    /// The explanation that accompanies the error.
    pub open spec fn spec_message(self) -> Seq<char> {
        match self {
            ConfigError::BotUserIdNotSet => "BOT_USER_ID environment variable not set"@,
            ConfigError::BotUserIdInvalid => "BOT_USER_ID must be a valid u64 number"@,
        }
    }

    /// Returns the explanation that accompanies the error.
    pub fn message(&self) -> (s: &'static str)
        ensures
            s@ == self.spec_message(),
    {
        match self {
            ConfigError::BotUserIdNotSet => "BOT_USER_ID environment variable not set",
            ConfigError::BotUserIdInvalid => "BOT_USER_ID must be a valid u64 number",
        }
    }
}

/// `c` is one of the ASCII digits `0` to `9`.
pub open spec fn is_ascii_digit(c: char) -> bool {
    '0' <= c && c <= '9'
}

/// The number that the ASCII digits `digits` denote in base ten (0 for no digits).
pub open spec fn decimal_value(digits: Seq<char>) -> nat
    decreases digits.len(),
{
    if digits.len() == 0 {
        0
    } else {
        decimal_value(digits.drop_last()) * 10 + (digits.last() as nat - '0' as nat) as nat
    }
}

/// The text without the one `+` sign that may lead it.
pub open spec fn unsigned_digits(text: Seq<char>) -> Seq<char> {
    if text.len() > 0 && text[0] == '+' {
        text.drop_first()
    } else {
        text
    }
}

/// The `u64` that `text` denotes as an unsigned decimal number: an optional `+`,
/// then at least one ASCII digit and nothing else, with a value that fits in a `u64`.
pub open spec fn spec_parse_u64(text: Seq<char>) -> Option<u64> {
    let digits = unsigned_digits(text);
    if digits.len() > 0 && (forall|i: int| 0 <= i < digits.len() ==> is_ascii_digit(#[trigger] digits[i]))
        && decimal_value(digits) <= u64::MAX {
        Some(decimal_value(digits) as u64)
    } else {
        None
    }
}

/// Appending digits never lowers the value of a run of digits.
proof fn lemma_decimal_value_prefix(digits: Seq<char>, j: int)
    requires
        0 <= j <= digits.len(),
        forall|i: int| 0 <= i < digits.len() ==> is_ascii_digit(#[trigger] digits[i]),
    ensures
        decimal_value(digits.take(j)) <= decimal_value(digits),
    decreases digits.len(),
{
    if j == digits.len() {
        assert(digits.take(j) =~= digits);
    } else {
        let shorter = digits.drop_last();
        assert(shorter.take(j) =~= digits.take(j));
        lemma_decimal_value_prefix(shorter, j);
    }
}

/// Parses an unsigned decimal number as `str::parse::<u64>` does:
/// `None` exactly where that parse fails.
pub fn parse_u64(text: &str) -> (r: Option<u64>)
    ensures
        r == spec_parse_u64(text@),
{
    broadcast use vstd::string::group_string_axioms;

    let ghost s = text@;
    let mut chars = text.chars();
    let mut value: u64 = 0;
    let mut any_digit = false;
    let mut first = true;
    let ghost mut k: int = 0;
    let ghost mut start: int = 0;
    loop
        invariant_except_break
            s == text@,
            vstd::std_specs::iter::IteratorSpec::obeys_prophetic_iter_laws(&chars),
            0 <= start <= k <= s.len(),
            vstd::std_specs::iter::IteratorSpec::remaining(&chars) == s.skip(k),
            first <==> k == 0,
            start == (if k > 0 && s[0] == '+' { 1int } else { 0int }),
            any_digit <==> k > start,
            forall|i: int| start <= i < k ==> is_ascii_digit(#[trigger] s[i]),
            value == decimal_value(s.subrange(start, k)),
        ensures
            k == s.len(),
            0 <= start <= k,
            start == (if k > 0 && s[0] == '+' { 1int } else { 0int }),
            any_digit <==> k > start,
            forall|i: int| start <= i < k ==> is_ascii_digit(#[trigger] s[i]),
            value == decimal_value(s.subrange(start, k)),
        decreases s.len() - k,
    {
        match chars.next() {
            None => {
                break;
            },
            Some(c) => {
                proof {
                    assert(s.skip(k)[0] == s[k]);
                    assert(s.skip(k).drop_first() =~= s.skip(k + 1));
                }
                if first && c == '+' {
                    first = false;
                    proof {
                        k = k + 1;
                        start = 1;
                        assert(s.subrange(start, k) =~= Seq::<char>::empty());
                    }
                } else {
                    first = false;
                    proof {
                        let digits = unsigned_digits(s);
                        if k == 0 {
                            assert(digits =~= s);
                        } else if s[0] == '+' {
                            assert(digits =~= s.drop_first());
                        } else {
                            assert(digits =~= s);
                        }
                        assert(digits.len() == s.len() - start);
                        assert(digits[k - start] == c);
                    }
                    if !('0' <= c && c <= '9') {
                        return None;
                    }
                    proof {
                        assert(s.subrange(start, k + 1).drop_last() =~= s.subrange(start, k));
                    }
                    let digit = (c as u32 - '0' as u32) as u64;
                    let next = match value.checked_mul(10) {
                        Some(tens) => tens.checked_add(digit),
                        None => None,
                    };
                    match next {
                        Some(v) => {
                            value = v;
                            any_digit = true;
                            proof {
                                k = k + 1;
                            }
                        },
                        None => {
                            proof {
                                let digits = unsigned_digits(s);
                                let run = s.subrange(start, k + 1);
                                assert(run.last() == c);
                                assert(decimal_value(run) == value * 10 + digit);
                                assert(decimal_value(run) > u64::MAX);
                                if forall|i: int| 0 <= i < digits.len() ==> is_ascii_digit(#[trigger] digits[i]) {
                                    assert(digits.take(k + 1 - start) =~= s.subrange(start, k + 1));
                                    lemma_decimal_value_prefix(digits, k + 1 - start);
                                }
                            }
                            return None;
                        },
                    }
                }
            },
        }
    }
    proof {
        assert(unsigned_digits(s) =~= s.subrange(start, s.len() as int));
    }
    if any_digit {
        Some(value)
    } else {
        None
    }
}

/// The bot's user id from the value of the `BOT_USER_ID` variable (`None` where it is not set).
pub fn load_bot_user_id(value: Option<&str>) -> (r: Result<u64, ConfigError>)
    ensures
        value is None ==> r == Err::<u64, ConfigError>(ConfigError::BotUserIdNotSet),
        value matches Some(text) ==> r == match spec_parse_u64(text@) {
            Some(id) => Ok::<u64, ConfigError>(id),
            None => Err(ConfigError::BotUserIdInvalid),
        },
{
    match value {
        None => Err(ConfigError::BotUserIdNotSet),
        Some(text) => match parse_u64(text) {
            Some(id) => Ok(id),
            None => Err(ConfigError::BotUserIdInvalid),
        },
    }
}


/// A single ASCII digit, with or without a leading `+`, is the number it denotes; the empty
/// text and a lone `+` are no number.
pub proof fn law_parse_single_digit(c: char)
    requires
        is_ascii_digit(c),
    ensures
        spec_parse_u64(seq![c]) == Some((c as u32 - '0' as u32) as u64),
        spec_parse_u64(seq!['+', c]) == Some((c as u32 - '0' as u32) as u64),
        spec_parse_u64(Seq::<char>::empty()) is None,
        spec_parse_u64(seq!['+']) is None,
{
    assert(seq![c].drop_last() =~= Seq::<char>::empty());
    assert(seq!['+', c].drop_first() =~= seq![c]);
    assert(seq!['+'].drop_first() =~= Seq::<char>::empty());
}

/// Appending a digit to a number multiplies it by ten and adds the digit, as long as the
/// result fits in a `u64`; past that the text is no number.
pub proof fn law_parse_append_digit(text: Seq<char>, c: char, n: u64)
    requires
        spec_parse_u64(text) == Some(n),
        is_ascii_digit(c),
    ensures
        spec_parse_u64(text.push(c)) == if n * 10 + (c as u32 - '0' as u32) <= u64::MAX {
            Some((n * 10 + (c as u32 - '0' as u32)) as u64)
        } else {
            None
        },
{
    let d = unsigned_digits(text);
    let e = unsigned_digits(text.push(c));
    if text[0] == '+' {
        assert(text.push(c)[0] == '+');
        assert(e =~= d.push(c));
    } else {
        assert(e =~= d.push(c));
    }
    assert(e.drop_last() =~= d);
    assert forall|i: int| 0 <= i < e.len() implies is_ascii_digit(#[trigger] e[i]) by {
        if i < d.len() {
            assert(e[i] == d[i]);
        }
    }
}

/// A text with anything but ASCII digits after an optional leading `+` is no number.
pub proof fn law_parse_rejects_other_characters(text: Seq<char>, i: int)
    requires
        0 <= i < text.len(),
        !is_ascii_digit(text[i]),
        !(i == 0 && text[0] == '+'),
    ensures
        spec_parse_u64(text) is None,
{
    let d = unsigned_digits(text);
    if text.len() > 0 && text[0] == '+' {
        assert(d[i - 1] == text[i]);
    } else {
        assert(d[i] == text[i]);
    }
}

} // verus!
