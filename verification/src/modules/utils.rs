//! Voucher identities and the reading of the clock.
//!
//! The host hands its block timestamp over as text. A voucher's identity
//! holds that text as it came; expiry arithmetic goes by its decimal value.

use vstd::prelude::*;
use vstd::string::*;

verus! {

/// Whether `c` is one of the ten ASCII digits.
pub open spec fn is_digit(c: char) -> bool {
    0x30 <= c as u32 <= 0x39
}

/// The number that the digit `c` stands for.
pub open spec fn digit_value(c: char) -> nat {
    (c as u32 - 0x30) as nat
}

/// The number that a string of digits stands for in base ten.
pub open spec fn decimal_value(digits: Seq<char>) -> nat
    decreases digits.len(),
{
    if digits.len() == 0 {
        0
    } else {
        decimal_value(digits.drop_last()) * 10 + digit_value(digits.last())
    }
}

/// The text without one leading plus sign, if it has one.
pub open spec fn unsigned_part(text: Seq<char>) -> Seq<char> {
    if text.len() > 0 && text[0] == '+' {
        text.drop_first()
    } else {
        text
    }
}

/// The `u64` that `text` denotes: an optional plus sign, then one or more
/// ASCII digits whose value fits. Any other text denotes nothing.
pub open spec fn decimal_reading(text: Seq<char>) -> Option<u64> {
    let digits = unsigned_part(text);
    if digits.len() > 0 && (forall|i: int| 0 <= i < digits.len() ==> is_digit(#[trigger] digits[i]))
        && decimal_value(digits) <= u64::MAX {
        Some(decimal_value(digits) as u64)
    } else {
        None
    }
}

/// The clock's reading for a block timestamp: its decimal value, and 0 for
/// text that denotes no `u64`.
pub open spec fn timestamp_value(block_timestamp: Seq<char>) -> u64 {
    match decimal_reading(block_timestamp) {
        Some(value) => value,
        None => 0,
    }
}

/// Whether `c` has to be escaped inside a part of a voucher identity: the
/// underscore, which stands between the parts, and the backslash, which
/// escapes.
pub open spec fn needs_escape(c: char) -> bool {
    c == '_' || c == '\\'
}

/// A part of a voucher identity as it is written into the identity: each
/// underscore and each backslash has a backslash put before it. What comes
/// out holds no underscore that is not escaped.
pub open spec fn escape_part(part: Seq<char>) -> Seq<char>
    decreases part.len(),
{
    if part.len() == 0 {
        Seq::empty()
    } else if needs_escape(part.first()) {
        seq!['\\', part.first()] + escape_part(part.drop_first())
    } else {
        seq![part.first()] + escape_part(part.drop_first())
    }
}

/// The identity of the voucher issued for `beneficiary_id` in `zone_id` at
/// `block_timestamp`: the zone and the beneficiary, each escaped, and the
/// timestamp as it is, joined by underscores. Where neither the zone nor the
/// beneficiary holds an underscore or a backslash, this is the three joined
/// as they are.
pub open spec fn voucher_id_of(
    zone_id: Seq<char>,
    beneficiary_id: Seq<char>,
    block_timestamp: Seq<char>,
) -> Seq<char> {
    escape_part(zone_id) + seq!['_'] + escape_part(beneficiary_id) + seq!['_'] + block_timestamp
}

/// A longer string of digits stands for no smaller number than its prefix.
pub proof fn lemma_decimal_value_prefix(digits: Seq<char>, k: int)
    requires
        0 <= k <= digits.len(),
    ensures
        decimal_value(digits.take(k)) <= decimal_value(digits),
    decreases digits.len(),
{
    if k == digits.len() {
        assert(digits.take(k) =~= digits);
    } else {
        lemma_decimal_value_prefix(digits.drop_last(), k);
        assert(digits.drop_last().take(k) =~= digits.take(k));
    }
}

/// Reading one more digit multiplies by ten and adds the digit.
pub proof fn lemma_decimal_value_step(digits: Seq<char>, k: int)
    requires
        0 <= k < digits.len(),
    ensures
        decimal_value(digits.take(k + 1)) == decimal_value(digits.take(k)) * 10 + digit_value(
            digits[k],
        ),
{
    assert(digits.take(k + 1).drop_last() =~= digits.take(k));
}

/// Escaping goes part by part: a text escaped is its pieces escaped and
/// joined.
pub proof fn lemma_escape_concat(a: Seq<char>, b: Seq<char>)
    ensures
        escape_part(a + b) == escape_part(a) + escape_part(b),
    decreases a.len(),
{
    if a.len() == 0 {
        assert(a + b =~= b);
        assert(escape_part(a) + escape_part(b) =~= escape_part(b));
    } else {
        lemma_escape_concat(a.drop_first(), b);
        assert((a + b).drop_first() =~= a.drop_first() + b);
        assert((a + b).first() == a.first());
        if needs_escape(a.first()) {
            assert(escape_part(a + b) =~= seq!['\\', a.first()] + escape_part(a.drop_first())
                + escape_part(b));
        } else {
            assert(escape_part(a + b) =~= seq![a.first()] + escape_part(a.drop_first())
                + escape_part(b));
        }
    }
}

/// A text without underscore and backslash is written as it is.
pub proof fn lemma_escape_plain(part: Seq<char>)
    requires
        forall|i: int| 0 <= i < part.len() ==> !needs_escape(#[trigger] part[i]),
    ensures
        escape_part(part) == part,
    decreases part.len(),
{
    if part.len() > 0 {
        let rest = part.drop_first();
        assert forall|i: int| 0 <= i < rest.len() implies !needs_escape(#[trigger] rest[i]) by {
            assert(rest[i] == part[i + 1]);
        }
        lemma_escape_plain(rest);
        assert(seq![part.first()] + rest =~= part);
    }
}

/// An escaped part followed by an underscore can be read back in one way
/// only: the part ends at the first underscore that is not escaped.
pub proof fn lemma_escaped_part_reads_back(
    a: Seq<char>,
    after_a: Seq<char>,
    b: Seq<char>,
    after_b: Seq<char>,
)
    requires
        escape_part(a) + seq!['_'] + after_a == escape_part(b) + seq!['_'] + after_b,
    ensures
        a == b,
        after_a == after_b,
    decreases a.len(),
{
    let left = escape_part(a) + seq!['_'] + after_a;
    let right = escape_part(b) + seq!['_'] + after_b;
    if a.len() == 0 || b.len() == 0 {
        if a.len() > 0 {
            assert(needs_escape(a.first()) ==> left[0] == '\\');
            assert(!needs_escape(a.first()) ==> left[0] == a.first());
            assert(right[0] == '_');
        }
        if b.len() > 0 {
            assert(needs_escape(b.first()) ==> right[0] == '\\');
            assert(!needs_escape(b.first()) ==> right[0] == b.first());
            assert(left[0] == '_');
        }
        assert(a =~= b);
        assert(after_a =~= left.subrange(1, left.len() as int));
        assert(after_b =~= right.subrange(1, right.len() as int));
    } else {
        let rest_a = a.drop_first();
        let rest_b = b.drop_first();
        let tail_a = escape_part(rest_a) + seq!['_'] + after_a;
        let tail_b = escape_part(rest_b) + seq!['_'] + after_b;
        if needs_escape(a.first()) {
            assert(left =~= seq!['\\', a.first()] + tail_a);
            assert(left[0] == '\\' && left[1] == a.first());
            if needs_escape(b.first()) {
                assert(right =~= seq!['\\', b.first()] + tail_b);
                assert(right[1] == b.first());
                assert(tail_a =~= left.subrange(2, left.len() as int));
                assert(tail_b =~= right.subrange(2, right.len() as int));
            } else {
                assert(right[0] == b.first());
            }
        } else {
            assert(left =~= seq![a.first()] + tail_a);
            assert(left[0] == a.first());
            if needs_escape(b.first()) {
                assert(right[0] == '\\');
            } else {
                assert(right =~= seq![b.first()] + tail_b);
                assert(right[0] == b.first());
                assert(tail_a =~= left.subrange(1, left.len() as int));
                assert(tail_b =~= right.subrange(1, right.len() as int));
            }
        }
        lemma_escaped_part_reads_back(rest_a, after_a, rest_b, after_b);
        assert(a =~= seq![a.first()] + rest_a);
        assert(b =~= seq![b.first()] + rest_b);
    }
}

/// A voucher identity stands for one zone, one beneficiary and one block
/// timestamp: two issuances that differ in any of the three have different
/// identities.
pub proof fn lemma_voucher_id_is_unique(
    zone_id: Seq<char>,
    beneficiary_id: Seq<char>,
    block_timestamp: Seq<char>,
    other_zone_id: Seq<char>,
    other_beneficiary_id: Seq<char>,
    other_timestamp: Seq<char>,
)
    requires
        voucher_id_of(zone_id, beneficiary_id, block_timestamp) == voucher_id_of(
            other_zone_id,
            other_beneficiary_id,
            other_timestamp,
        ),
    ensures
        zone_id == other_zone_id,
        beneficiary_id == other_beneficiary_id,
        block_timestamp == other_timestamp,
{
    let rest = escape_part(beneficiary_id) + seq!['_'] + block_timestamp;
    let other_rest = escape_part(other_beneficiary_id) + seq!['_'] + other_timestamp;
    assert(voucher_id_of(zone_id, beneficiary_id, block_timestamp) =~= escape_part(zone_id)
        + seq!['_'] + rest);
    assert(voucher_id_of(other_zone_id, other_beneficiary_id, other_timestamp) =~= escape_part(
        other_zone_id,
    ) + seq!['_'] + other_rest);
    lemma_escaped_part_reads_back(zone_id, rest, other_zone_id, other_rest);
    lemma_escaped_part_reads_back(
        beneficiary_id,
        block_timestamp,
        other_beneficiary_id,
        other_timestamp,
    );
}

/// Where neither the zone nor the beneficiary holds an underscore or a
/// backslash, the identity is the three joined by underscores as they are.
pub proof fn lemma_voucher_id_of_plain_parts(
    zone_id: Seq<char>,
    beneficiary_id: Seq<char>,
    block_timestamp: Seq<char>,
)
    requires
        forall|i: int| 0 <= i < zone_id.len() ==> !needs_escape(#[trigger] zone_id[i]),
        forall|i: int| 0 <= i < beneficiary_id.len() ==> !needs_escape(#[trigger] beneficiary_id[i]),
    ensures
        voucher_id_of(zone_id, beneficiary_id, block_timestamp) == zone_id + seq!['_']
            + beneficiary_id + seq!['_'] + block_timestamp,
{
    lemma_escape_plain(zone_id);
    lemma_escape_plain(beneficiary_id);
}

/// The characters of `text`, one by one.
pub fn chars_of(text: &str) -> (chars: Vec<char>)
    ensures
        chars@ == text@,
{
    let mut chars: Vec<char> = Vec::new();
    for c in it: text.chars()
        invariant
            it.seq() == text@,
            chars@ == text@.take(it.index() as int),
    {
        chars.push(c);
    }
    chars
}

/// A part of a voucher identity with its underscores and backslashes
/// escaped.
pub fn escape_id_part(part: &str) -> (escaped: String)
    ensures
        escaped@ == escape_part(part@),
{
    proof {
        reveal_strlit("\\");
        assert("\\"@ =~= seq!['\\']);
    }
    let chars = chars_of(part);
    let n = chars.len();
    let mut escaped = String::new();
    let mut start: usize = 0;
    let mut i: usize = 0;
    while i < n
        invariant
            start <= i <= n,
            n == chars@.len(),
            chars@ == part@,
            "\\"@ == seq!['\\'],
            escaped@ == escape_part(part@.take(start as int)),
            forall|j: int| start <= j < i ==> !needs_escape(#[trigger] part@[j]),
        decreases n - i,
    {
        let c = chars[i];
        if c == '_' || c == '\\' {
            escaped.append(part.substring_char(start, i));
            escaped.append("\\");
            escaped.append(part.substring_char(i, i + 1));
            proof {
                let done = part@.take(start as int);
                let run = part@.subrange(start as int, i as int);
                let one = part@.subrange(i as int, i + 1);
                lemma_escape_plain(run);
                assert(one =~= seq![c]);
                assert(one.drop_first() =~= Seq::<char>::empty());
                assert(escape_part(one.drop_first()) =~= Seq::<char>::empty());
                assert(needs_escape(one.first()));
                assert(escape_part(one) =~= seq!['\\', c]);
                lemma_escape_concat(done, run);
                lemma_escape_concat(done + run, one);
                assert(part@.take(i + 1) =~= done + run + one);
                assert(escaped@ =~= escape_part(done) + run + seq!['\\'] + one);
            }
            start = i + 1;
        }
        i += 1;
    }
    escaped.append(part.substring_char(start, n));
    proof {
        let done = part@.take(start as int);
        let run = part@.subrange(start as int, n as int);
        lemma_escape_plain(run);
        lemma_escape_concat(done, run);
        assert(part@ =~= done + run);
    }
    escaped
}

/// The identity under which a voucher is stored. It differs wherever the
/// zone, the beneficiary or the block timestamp does.
pub fn generate_voucher_id(zone_id: &str, beneficiary_id: &str, block_timestamp: &str) -> (id:
    String)
    ensures
        id@ == voucher_id_of(zone_id@, beneficiary_id@, block_timestamp@),
{
    proof {
        reveal_strlit("_");
        assert("_"@ =~= seq!['_']);
    }
    let mut id = escape_id_part(zone_id);
    id.append("_");
    id.append(escape_id_part(beneficiary_id).as_str());
    id.append("_");
    id.append(block_timestamp);
    id
}

/// The clock's reading for the host's block timestamp.
pub fn current_timestamp(block_timestamp: &str) -> (now: u64)
    ensures
        now == timestamp_value(block_timestamp@),
{
    let chars = chars_of(block_timestamp);
    let n = chars.len();
    let start: usize = if n > 0 && chars[0] == '+' {
        1
    } else {
        0
    };
    let ghost digits = unsigned_part(block_timestamp@);
    assert(digits =~= chars@.subrange(start as int, n as int));
    if start == n {
        return 0;
    }
    let mut value: u64 = 0;
    let mut i: usize = start;
    while i < n
        invariant
            start <= i <= n,
            n == chars@.len(),
            digits == chars@.subrange(start as int, n as int),
            digits == unsigned_part(block_timestamp@),
            forall|j: int| 0 <= j < i - start ==> is_digit(#[trigger] digits[j]),
            value == decimal_value(digits.take(i - start)),
        decreases n - i,
    {
        let code: u32 = chars[i] as u32;
        if code < 0x30 || code > 0x39 {
            assert(!is_digit(digits[i - start]));
            return 0;
        }
        let digit: u64 = (code - 0x30) as u64;
        proof {
            lemma_decimal_value_step(digits, i - start);
            lemma_decimal_value_prefix(digits, i - start + 1);
        }
        let next = match value.checked_mul(10) {
            Some(tens) => tens.checked_add(digit),
            None => None,
        };
        match next {
            Some(v) => {
                value = v;
            },
            None => {
                return 0;
            },
        }
        i += 1;
    }
    assert(digits.take(i - start) =~= digits);
    value
}

} // verus!
