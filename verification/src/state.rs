//! The CSRF state of a login attempt: how it is made from entropy, and how a
//! received value is held against it.

use vstd::prelude::*;

use crate::form::{form_encode, is_plain, is_plain_text, lemma_plain_text_stays};
use crate::text::str_eq;

verus! {

/// The least entropy that a state is made from: 16 bytes, 128 bits.
pub const MIN_ENTROPY_BYTES: usize = 16;

/// The lower-case hexadecimal digit for a value below sixteen.
pub open spec fn lower_hex_digit(nibble: u8) -> char
    recommends
        nibble < 16,
{
    if nibble < 10 {
        (0x30 + nibble) as u8 as char
    } else {
        (0x57 + nibble) as u8 as char
    }
}

/// Bytes written as lower-case hexadecimal digits, two for each byte, the
/// high half first.
pub open spec fn hex_encode(bytes: Seq<u8>) -> Seq<char> {
    Seq::new(
        2 * bytes.len(),
        |i: int|
            if i % 2 == 0 {
                lower_hex_digit(bytes[i / 2] / 16)
            } else {
                lower_hex_digit(bytes[i / 2] % 16)
            },
    )
}

/// A hexadecimal encoding is URL-safe: it holds plain characters only, so it
/// stands in a URL or a form as it is.
pub proof fn lemma_hex_is_url_safe(bytes: Seq<u8>)
    ensures
        is_plain_text(hex_encode(bytes)),
        form_encode(hex_encode(bytes)) == hex_encode(bytes),
{
    assert forall|i: int| 0 <= i < hex_encode(bytes).len() implies is_plain(
        #[trigger] hex_encode(bytes)[i],
    ) by {
        let byte = bytes[i / 2];
        lemma_digit_is_plain((byte / 16) as u8);
        lemma_digit_is_plain((byte % 16) as u8);
    }
    lemma_plain_text_stays(hex_encode(bytes));
}

proof fn lemma_digit_is_plain(nibble: u8)
    requires
        nibble < 16,
    ensures
        is_plain(lower_hex_digit(nibble)),
        '0' <= lower_hex_digit(nibble) <= '9' <==> nibble < 10,
        nibble < 10 ==> lower_hex_digit(nibble) as u8 == 0x30 + nibble,
        nibble >= 10 ==> lower_hex_digit(nibble) as u8 == 0x57 + nibble,
{
}

/// Different bytes never give the same hexadecimal encoding: states made from
/// different entropy differ.
pub proof fn lemma_hex_is_injective(a: Seq<u8>, b: Seq<u8>)
    requires
        hex_encode(a) == hex_encode(b),
    ensures
        a == b,
{
    assert(hex_encode(a).len() == 2 * a.len());
    assert(hex_encode(b).len() == 2 * b.len());
    assert forall|k: int| 0 <= k < a.len() implies a[k] == b[k] by {
        let x = a[k];
        let y = b[k];
        assert(hex_encode(a)[2 * k] == lower_hex_digit(a[(2 * k) / 2] / 16));
        assert(hex_encode(b)[2 * k] == lower_hex_digit(b[(2 * k) / 2] / 16));
        assert(hex_encode(a)[2 * k + 1] == lower_hex_digit(a[(2 * k + 1) / 2] % 16));
        assert(hex_encode(b)[2 * k + 1] == lower_hex_digit(b[(2 * k + 1) / 2] % 16));
        lemma_digit_is_plain((x / 16) as u8);
        lemma_digit_is_plain((y / 16) as u8);
        lemma_digit_is_plain((x % 16) as u8);
        lemma_digit_is_plain((y % 16) as u8);
        assert(x / 16 == y / 16);
        assert(x % 16 == y % 16);
    }
    assert(a =~= b);
}

fn hex_digit(nibble: u8) -> (digit: &'static str)
    requires
        nibble < 16,
    ensures
        digit@ == seq![lower_hex_digit(nibble)],
{
    proof {
        reveal_strlit("0");
        reveal_strlit("1");
        reveal_strlit("2");
        reveal_strlit("3");
        reveal_strlit("4");
        reveal_strlit("5");
        reveal_strlit("6");
        reveal_strlit("7");
        reveal_strlit("8");
        reveal_strlit("9");
        reveal_strlit("a");
        reveal_strlit("b");
        reveal_strlit("c");
        reveal_strlit("d");
        reveal_strlit("e");
        reveal_strlit("f");
    }
    let digit = match nibble {
        0 => "0",
        1 => "1",
        2 => "2",
        3 => "3",
        4 => "4",
        5 => "5",
        6 => "6",
        7 => "7",
        8 => "8",
        9 => "9",
        10 => "a",
        11 => "b",
        12 => "c",
        13 => "d",
        14 => "e",
        _ => "f",
    };
    assert(digit@ =~= seq![lower_hex_digit(nibble)]);
    digit
}

/// The opaque value that binds an authorization request to its callback.
#[derive(Debug, Clone, PartialEq, Eq)]
pub struct CsrfState {
    token: String,
}

impl View for CsrfState {
    type V = Seq<char>;

    closed spec fn view(&self) -> Seq<char> {
        self.token@
    }
}

impl CsrfState {
    /// Makes a state from entropy, which the caller draws from a
    /// cryptographically secure source. With fewer than 16 bytes there is no
    /// state; otherwise the state is the entropy in hexadecimal.
    pub fn from_entropy(entropy: &[u8]) -> (made: Option<CsrfState>)
        ensures
            entropy@.len() >= MIN_ENTROPY_BYTES ==> (made matches Some(state) && state@
                == hex_encode(entropy@)),
            entropy@.len() < MIN_ENTROPY_BYTES ==> made is None,
    {
        if entropy.len() < MIN_ENTROPY_BYTES {
            return None;
        }
        let mut token = String::new();
        let mut i: usize = 0;
        while i < entropy.len()
            invariant
                i <= entropy@.len(),
                token@ == hex_encode(entropy@.take(i as int)),
            decreases entropy@.len() - i,
        {
            let byte = entropy[i];
            token.append(hex_digit(byte / 16));
            token.append(hex_digit(byte % 16));
            assert(token@ =~= hex_encode(entropy@.take(i + 1)));
            i += 1;
        }
        assert(entropy@.take(i as int) =~= entropy@);
        Some(CsrfState { token })
    }

    /// The state that a session holds, as it was stored.
    pub fn from_stored(token: String) -> (state: CsrfState)
        ensures
            state@ == token@,
    {
        CsrfState { token }
    }

    /// The state as text, for the session and for the authorization URI.
    pub fn as_str(&self) -> (text: &str)
        ensures
            text@ == self@,
    {
        self.token.as_str()
    }

    /// The state as an owned string.
    pub fn into_string(self) -> (text: String)
        ensures
            text@ == self@,
    {
        self.token
    }

    /// Whether a received value is this state. The two must be equal
    /// character by character; a prefix or a part does not count.
    pub fn verify(&self, received: &str) -> (same: bool)
        ensures
            same == (self@ == received@),
    {
        str_eq(self.token.as_str(), received)
    }
}

} // verus!
