//! The structured 64-bit identifier used throughout the protocol.
//!
//! From the top, an identifier holds the milliseconds since the first
//! millisecond of 2015 in 42 bits, the id of the worker that made it in 5,
//! the id of the process in 5, and a counter in 12.

use vstd::prelude::*;
use vstd::string::StrSliceExecFns;

verus! {

/// The first millisecond of 2015, in milliseconds since the Unix epoch.
pub const EPOCH_MS: u64 = 1420070400000;

/// A 64-bit identifier that embeds when, where and in which order it was
/// made.
#[derive(Clone, Copy, Debug)]
pub struct Snowflake {
    id: u64,
}

impl View for Snowflake {
    type V = u64;

    closed spec fn view(&self) -> u64 {
        self.id
    }
}

/// When an identifier was made, in milliseconds since the Unix epoch.
pub open spec fn timestamp_of(raw: u64) -> int {
    raw / 0x40_0000 + EPOCH_MS
}

/// The worker that made an identifier.
pub open spec fn worker_of(raw: u64) -> int {
    ((raw / 0x2_0000) % 32) as int
}

/// The process that made an identifier.
pub open spec fn process_of(raw: u64) -> int {
    ((raw / 0x1000) % 32) as int
}

/// The count of identifiers that the process had made before within the
/// same millisecond.
pub open spec fn increment_of(raw: u64) -> int {
    (raw % 0x1000) as int
}

/// The number that a decimal digit stands for.
pub open spec fn digit_value(c: char) -> int {
    c as int - '0' as int
}

/// Whether a character is a decimal digit.
pub open spec fn is_digit(c: char) -> bool {
    '0' <= c <= '9'
}

/// Whether a text is a non-empty run of decimal digits.
pub open spec fn is_decimal(text: Seq<char>) -> bool {
    text.len() > 0 && forall|i: int| 0 <= i < text.len() ==> is_digit(#[trigger] text[i])
}

/// The number that a run of decimal digits stands for.
pub open spec fn decimal_value(text: Seq<char>) -> int
    decreases text.len(),
{
    if text.len() == 0 {
        0
    } else {
        decimal_value(text.drop_last()) * 10 + digit_value(text.last())
    }
}

/// The identifier that a text stands for: the text must be decimal digits
/// and nothing else, and the number must fit 64 bits.
pub open spec fn parse_spec(text: Seq<char>) -> Option<u64> {
    if is_decimal(text) && decimal_value(text) <= u64::MAX {
        Some(decimal_value(text) as u64)
    } else {
        None
    }
}

/// A run of digits stands for no less than any run it starts with.
proof fn lemma_decimal_value_grows(text: Seq<char>, n: int)
    requires
        forall|i: int| 0 <= i < text.len() ==> is_digit(#[trigger] text[i]),
        0 <= n <= text.len(),
    ensures
        0 <= decimal_value(text.subrange(0, n)) <= decimal_value(text),
    decreases text.len() - n,
{
    if n == text.len() {
        assert(text.subrange(0, n) == text);
        lemma_decimal_value_is_natural(text);
    } else {
        let longer = text.subrange(0, n + 1);
        assert(longer.drop_last() == text.subrange(0, n));
        assert(longer.last() == text[n]);
        assert(is_digit(text[n]));
        lemma_decimal_value_grows(text, n + 1);
        lemma_decimal_value_is_natural(text.subrange(0, n));
    }
}

/// A run of digits stands for a natural number.
proof fn lemma_decimal_value_is_natural(text: Seq<char>)
    requires
        forall|i: int| 0 <= i < text.len() ==> is_digit(#[trigger] text[i]),
    ensures
        0 <= decimal_value(text),
    decreases text.len(),
{
    if text.len() > 0 {
        assert(is_digit(text[text.len() - 1]));
        lemma_decimal_value_is_natural(text.drop_last());
    }
}

impl Snowflake {
    /// The identifier with this raw value.
    pub closed spec fn of(raw: u64) -> Snowflake {
        Snowflake { id: raw }
    }

    /// The identifier with this raw value. Every 64-bit value is one.
    pub fn from_raw(raw: u64) -> (id: Snowflake)
        ensures
            id == Snowflake::of(raw),
            id@ == raw,
    {
        Snowflake { id: raw }
    }

    /// Reads an identifier from its decimal form: digits only, no sign, no
    /// separators, a number that fits 64 bits. Anything else is `None`.
    pub fn parse(text: &str) -> (id: Option<Snowflake>)
        ensures
            match id {
                Some(id) => parse_spec(text@) == Some(id@),
                None => parse_spec(text@) is None,
            },
    {
        let len = text.unicode_len();
        if len == 0 {
            return None;
        }
        let mut value: u64 = 0;
        let mut i: usize = 0;
        while i < len
            invariant
                len == text@.len(),
                0 <= i <= len,
                forall|k: int| 0 <= k < i ==> is_digit(#[trigger] text@[k]),
                value == decimal_value(text@.subrange(0, i as int)),
            decreases len - i,
        {
            let c = text.get_char(i);
            if c < '0' || c > '9' {
                return None;
            }
            let digit: u64 = (c as u32 - '0' as u32) as u64;
            proof {
                let longer = text@.subrange(0, i + 1);
                assert(longer.drop_last() == text@.subrange(0, i as int));
                assert(longer.last() == c);
            }
            let next = match value.checked_mul(10) {
                Some(tens) => tens.checked_add(digit),
                None => None,
            };
            match next {
                Some(next) => {
                    value = next;
                },
                None => {
                    proof {
                        if is_decimal(text@) {
                            lemma_decimal_value_grows(text@, i + 1);
                        }
                    }
                    return None;
                },
            }
            i = i + 1;
        }
        proof {
            assert(text@.subrange(0, len as int) == text@);
        }
        Some(Snowflake { id: value })
    }

    /// The raw 64-bit value.
    pub fn get_id(&self) -> (raw: u64)
        ensures
            raw == self@,
    {
        self.id
    }

    /// When the identifier was made, in milliseconds since the Unix epoch.
    pub fn get_timestamp(&self) -> (timestamp: u64)
        ensures
            timestamp == timestamp_of(self@),
    {
        let id = self.id;
        assert(id >> 22 == id / 0x40_0000 && (id >> 22) <= 0x3FF_FFFF_FFFF) by (bit_vector);
        (id >> 22) + EPOCH_MS
    }

    /// The worker that made the identifier, below 32.
    pub fn get_internal_worker_id(&self) -> (worker: u64)
        ensures
            worker == worker_of(self@),
            worker < 32,
    {
        let id = self.id;
        assert((id & 0x3E0000) >> 17 == (id / 0x2_0000) % 32) by (bit_vector);
        (id & 0x3E0000) >> 17
    }

    /// The process that made the identifier, below 32.
    pub fn get_internal_process_id(&self) -> (process: u64)
        ensures
            process == process_of(self@),
            process < 32,
    {
        let id = self.id;
        assert((id & 0x1F000) >> 12 == (id / 0x1000) % 32) by (bit_vector);
        (id & 0x1F000) >> 12
    }

    /// The count of identifiers that the process had made before within the
    /// same millisecond, below 4096.
    pub fn get_increment(&self) -> (increment: u64)
        ensures
            increment == increment_of(self@),
            increment < 4096,
    {
        let id = self.id;
        assert(id & 0xFFF == id % 0x1000) by (bit_vector);
        id & 0xFFF
    }
}

impl From<u64> for Snowflake {
    fn from(value: u64) -> (id: Snowflake) {
        Snowflake { id: value }
    }
}

impl vstd::std_specs::convert::FromSpecImpl<u64> for Snowflake {
    open spec fn obeys_from_spec() -> bool {
        true
    }

    open spec fn from_spec(value: u64) -> Snowflake {
        Snowflake::of(value)
    }
}

/// The four parts make up the whole: an identifier is its timestamp, worker,
/// process and increment laid side by side, so two identifiers with the same
/// parts are the same.
pub proof fn lemma_parts_make_the_whole(raw: u64)
    ensures
        Snowflake::of(raw)@ == raw,
        raw == (timestamp_of(raw) - EPOCH_MS) * 0x40_0000 + worker_of(raw) * 0x2_0000 + process_of(
            raw,
        ) * 0x1000 + increment_of(raw),
        EPOCH_MS <= timestamp_of(raw) <= EPOCH_MS + 0x3FF_FFFF_FFFF,
        0 <= worker_of(raw) < 32,
        0 <= process_of(raw) < 32,
        0 <= increment_of(raw) < 4096,
{
}

} // verus!
