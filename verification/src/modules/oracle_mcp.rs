//! The oracle verifier: a beneficiary is eligible once an external proof
//! has said so, and is then never asked for again.
//!
//! Fetching the proof is the host's work. It asks
//! [`AidDistributorState::needs_proof`] whether to fetch at all, and hands
//! what came back to [`AidDistributorState::internal_verify_beneficiary`].

use crate::error::Error;
use crate::modules::utils::chars_of;
use crate::state::{AidDistributorState, DistributorView};
use vstd::prelude::*;

verus! {

/// Whether `c` is white space in Unicode's sense (the property White_Space).
pub open spec fn is_whitespace(c: char) -> bool {
    let code = c as u32;
    ||| 0x09 <= code <= 0x0D
    ||| code == 0x20
    ||| code == 0x85
    ||| code == 0xA0
    ||| code == 0x1680
    ||| 0x2000 <= code <= 0x200A
    ||| code == 0x2028
    ||| code == 0x2029
    ||| code == 0x202F
    ||| code == 0x205F
    ||| code == 0x3000
}

/// The text without the white space it starts with.
pub open spec fn trim_start(text: Seq<char>) -> Seq<char>
    decreases text.len(),
{
    if text.len() > 0 && is_whitespace(text.first()) {
        trim_start(text.drop_first())
    } else {
        text
    }
}

/// The text without the white space it ends with.
pub open spec fn trim_end(text: Seq<char>) -> Seq<char>
    decreases text.len(),
{
    if text.len() > 0 && is_whitespace(text.last()) {
        trim_end(text.drop_last())
    } else {
        text
    }
}

/// The text without the white space at either end.
pub open spec fn trim(text: Seq<char>) -> Seq<char> {
    trim_end(trim_start(text))
}

/// The code of `c`, with the upper-case ASCII letters folded to lower case.
pub open spec fn ascii_lower(c: char) -> u32 {
    let code = c as u32;
    if 0x41 <= code <= 0x5A {
        (code + 0x20) as u32
    } else {
        code
    }
}

/// Whether two texts are the same but for the case of ASCII letters.
pub open spec fn eq_ignore_ascii_case(a: Seq<char>, b: Seq<char>) -> bool {
    &&& a.len() == b.len()
    &&& forall|i: int| 0 <= i < a.len() ==> ascii_lower(#[trigger] a[i]) == ascii_lower(b[i])
}

/// Whether a proof's text confirms the beneficiary: trimmed, it is the word
/// `true` in any mix of upper and lower case.
pub open spec fn proof_accepts(body: Seq<char>) -> bool {
    eq_ignore_ascii_case(trim(body), seq!['t', 'r', 'u', 'e'])
}

/// Where the leading white space of a text ends, its trimmed start begins.
pub proof fn lemma_trim_start_at(text: Seq<char>, lo: int)
    requires
        0 <= lo <= text.len(),
        forall|i: int| 0 <= i < lo ==> is_whitespace(#[trigger] text[i]),
        lo == text.len() || !is_whitespace(text[lo]),
    ensures
        trim_start(text) == text.subrange(lo, text.len() as int),
    decreases lo,
{
    if lo == 0 {
        assert(text.subrange(0, text.len() as int) =~= text);
    } else {
        assert(is_whitespace(text[0]));
        let rest = text.drop_first();
        assert forall|i: int| 0 <= i < lo - 1 implies is_whitespace(#[trigger] rest[i]) by {
            assert(rest[i] == text[i + 1]);
        }
        lemma_trim_start_at(rest, lo - 1);
        assert(rest.subrange(lo - 1, rest.len() as int) =~= text.subrange(lo, text.len() as int));
    }
}

/// Where the trailing white space of a text begins, its trimmed end stops.
pub proof fn lemma_trim_end_at(text: Seq<char>, hi: int)
    requires
        0 <= hi <= text.len(),
        forall|i: int| hi <= i < text.len() ==> is_whitespace(#[trigger] text[i]),
        hi == 0 || !is_whitespace(text[hi - 1]),
    ensures
        trim_end(text) == text.subrange(0, hi),
    decreases text.len() - hi,
{
    if hi == text.len() {
        assert(text.subrange(0, hi) =~= text);
    } else {
        assert(is_whitespace(text[text.len() - 1]));
        let rest = text.drop_last();
        lemma_trim_end_at(rest, hi);
        assert(rest.subrange(0, hi) =~= text.subrange(0, hi));
    }
}

/// Whether `c` is white space.
pub fn is_whitespace_char(c: char) -> (white: bool)
    ensures
        white == is_whitespace(c),
{
    let code: u32 = c as u32;
    (0x09 <= code && code <= 0x0D) || code == 0x20 || code == 0x85 || code == 0xA0 || code == 0x1680
        || (0x2000 <= code && code <= 0x200A) || code == 0x2028 || code == 0x2029 || code == 0x202F
        || code == 0x205F || code == 0x3000
}

/// The code of `c` with upper-case ASCII letters folded to lower case.
pub fn ascii_lower_code(c: char) -> (code: u32)
    ensures
        code == ascii_lower(c),
{
    let code: u32 = c as u32;
    if 0x41 <= code && code <= 0x5A {
        code + 0x20
    } else {
        code
    }
}

/// Whether the proof text `body` confirms the beneficiary.
pub fn accepts_proof(body: &str) -> (accepted: bool)
    ensures
        accepted == proof_accepts(body@),
{
    let chars = chars_of(body);
    let n = chars.len();
    let mut lo: usize = 0;
    while lo < n && is_whitespace_char(chars[lo])
        invariant
            lo <= n,
            n == chars@.len(),
            forall|i: int| 0 <= i < lo ==> is_whitespace(#[trigger] chars@[i]),
        decreases n - lo,
    {
        lo += 1;
    }
    let mut hi: usize = n;
    while hi > lo && is_whitespace_char(chars[hi - 1])
        invariant
            lo <= hi <= n,
            n == chars@.len(),
            forall|i: int| hi <= i < n ==> is_whitespace(#[trigger] chars@[i]),
        decreases hi,
    {
        hi -= 1;
    }
    proof {
        let started = chars@.subrange(lo as int, n as int);
        lemma_trim_start_at(chars@, lo as int);
        lemma_trim_end_at(started, hi - lo);
        assert(started.subrange(0, hi - lo) =~= chars@.subrange(lo as int, hi as int));
        assert(trim(body@) == chars@.subrange(lo as int, hi as int));
    }
    if hi - lo != 4 {
        return false;
    }
    let accepted = ascii_lower_code(chars[lo]) == 0x74 && ascii_lower_code(chars[lo + 1]) == 0x72
        && ascii_lower_code(chars[lo + 2]) == 0x75 && ascii_lower_code(chars[lo + 3]) == 0x65;
    proof {
        let word = seq!['t', 'r', 'u', 'e'];
        let trimmed = chars@.subrange(lo as int, hi as int);
        assert(ascii_lower(word[0]) == 0x74 && ascii_lower(word[1]) == 0x72 && ascii_lower(word[2])
            == 0x75 && ascii_lower(word[3]) == 0x65);
        assert(trimmed[0] == chars@[lo as int] && trimmed[1] == chars@[lo + 1] && trimmed[2]
            == chars@[lo + 2] && trimmed[3] == chars@[lo + 3]);
        if !accepted {
            assert(!eq_ignore_ascii_case(trimmed, word));
        }
    }
    accepted
}

impl DistributorView {
    /// Whether the beneficiary is on record as verified.
    pub open spec fn is_verified(self, beneficiary_id: Seq<char>) -> bool {
        self.verified_beneficiaries.contains_key(beneficiary_id)
            && self.verified_beneficiaries[beneficiary_id]
    }

    /// The state with the beneficiary on record as verified.
    pub open spec fn with_verified(self, beneficiary_id: Seq<char>) -> DistributorView {
        DistributorView {
            zones: self.zones,
            vendors: self.vendors,
            vouchers: self.vouchers,
            verified_beneficiaries: self.verified_beneficiaries.insert(beneficiary_id, true),
        }
    }

    /// What a verification comes to, given what the fetch of the proof
    /// brought: the proof's text, or the transport's complaint.
    ///
    /// A beneficiary on record is verified whatever was fetched. Else a
    /// failed fetch is a `TransportError`, an empty text an `EmptyProof`, and
    /// any other text is judged by [`proof_accepts`].
    pub open spec fn verification(
        self,
        beneficiary_id: Seq<char>,
        fetched: Result<String, String>,
    ) -> Result<bool, Error> {
        if self.is_verified(beneficiary_id) {
            Ok(true)
        } else {
            match fetched {
                Err(_) => Err(Error::TransportError),
                Ok(body) => if body@.len() == 0 {
                    Err(Error::EmptyProof)
                } else {
                    Ok(proof_accepts(body@))
                },
            }
        }
    }

    /// The state after a verification: a positive outcome is recorded, any
    /// other leaves the state as it was.
    pub open spec fn after_verification(
        self,
        beneficiary_id: Seq<char>,
        fetched: Result<String, String>,
    ) -> DistributorView {
        if !self.is_verified(beneficiary_id) && self.verification(beneficiary_id, fetched) == Ok::<
            bool,
            Error,
        >(true) {
            self.with_verified(beneficiary_id)
        } else {
            self
        }
    }
}

/// Once a verification has come out positive, the beneficiary is on record,
/// and a later verification comes out positive without looking at what was
/// fetched: no second fetch is needed.
pub proof fn lemma_verified_once_is_enough(
    before: DistributorView,
    beneficiary_id: Seq<char>,
    fetched: Result<String, String>,
    fetched_later: Result<String, String>,
)
    requires
        before.verification(beneficiary_id, fetched) == Ok::<bool, Error>(true),
    ensures
        before.after_verification(beneficiary_id, fetched).is_verified(beneficiary_id),
        before.after_verification(beneficiary_id, fetched).verification(beneficiary_id, fetched_later)
            == Ok::<bool, Error>(true),
        before.after_verification(beneficiary_id, fetched).after_verification(
            beneficiary_id,
            fetched_later,
        ) == before.after_verification(beneficiary_id, fetched),
{
}

/// A verification that fails or comes out negative records nothing, so a
/// later attempt with a better proof still succeeds and is recorded.
pub proof fn lemma_negative_is_not_recorded(
    before: DistributorView,
    beneficiary_id: Seq<char>,
    fetched: Result<String, String>,
    fetched_later: Result<String, String>,
)
    requires
        before.verification(beneficiary_id, fetched) != Ok::<bool, Error>(true),
        fetched_later matches Ok(body) && proof_accepts(body@),
    ensures
        before.after_verification(beneficiary_id, fetched) == before,
        !before.after_verification(beneficiary_id, fetched).is_verified(beneficiary_id),
        before.after_verification(beneficiary_id, fetched).verification(beneficiary_id, fetched_later)
            == Ok::<bool, Error>(true),
        before.after_verification(beneficiary_id, fetched).after_verification(
            beneficiary_id,
            fetched_later,
        ).is_verified(beneficiary_id),
{
    let body = fetched_later->Ok_0;
    assert(body@.len() > 0) by {
        if body@.len() == 0 {
            assert(trim(body@) =~= body@);
        }
    }
}

/// Recording a verification keeps the invariant.
pub proof fn lemma_with_verified_keeps_inv(before: DistributorView, beneficiary_id: Seq<char>)
    requires
        before.inv(),
    ensures
        before.with_verified(beneficiary_id).inv(),
{
}

impl AidDistributorState {
    /// Whether a proof has to be fetched for the beneficiary: not when a
    /// positive verification is on record.
    pub fn needs_proof(&self, beneficiary_id: &String) -> (needed: bool)
        requires
            self.wf(),
        ensures
            needed == !self@.is_verified(beneficiary_id@),
    {
        proof {
            self.lemma_unfold();
        }
        match self.verified_beneficiaries.get(beneficiary_id) {
            Some(verified) => !*verified,
            None => true,
        }
    }

    /// Verifies the beneficiary against what the fetch of the proof brought
    /// (`Ok` with the proof's text, `Err` with the transport's complaint) and
    /// returns whether the beneficiary is verified.
    ///
    /// A beneficiary on record is verified at once, and `fetched` is not
    /// looked at. A positive outcome is recorded; a negative one is not, so
    /// that a later proof can still succeed.
    pub fn internal_verify_beneficiary(
        &mut self,
        beneficiary_id: String,
        fetched: Result<String, String>,
    ) -> (result: Result<bool, Error>)
        requires
            old(self).wf(),
        ensures
            final(self).wf(),
            result == old(self)@.verification(beneficiary_id@, fetched),
            final(self)@ == old(self)@.after_verification(beneficiary_id@, fetched),
    {
        proof {
            self.lemma_unfold();
        }
        if !self.needs_proof(&beneficiary_id) {
            return Ok(true);
        }
        let body = match fetched {
            Err(_) => {
                return Err(Error::TransportError);
            },
            Ok(body) => body,
        };
        if body.as_str().is_empty() {
            return Err(Error::EmptyProof);
        }
        let is_verified = accepts_proof(body.as_str());
        if is_verified {
            self.verified_beneficiaries.insert(beneficiary_id, true);
            proof {
                self.lemma_unfold();
                lemma_with_verified_keeps_inv(old(self)@, beneficiary_id@);
            }
        }
        Ok(is_verified)
    }
}

} // verus!
