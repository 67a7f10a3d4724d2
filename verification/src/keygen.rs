use vstd::prelude::*;

verus! {

/// Number of characters in every generated short key.
pub const KEY_LENGTH: usize = 10;

/// The fixed 56-character alphabet keys are drawn from: digits and letters
/// with the visually ambiguous characters removed (no `0`, `1`, `I`, `O`,
/// `l`, `o`), to avoid transcription errors when keys are read aloud.
pub open spec fn spec_alphabet() -> Seq<char> {
    seq![
        '2', '3', '4', '5', '6', '7', '8', '9', 'A', 'B', 'C', 'D', 'E', 'F', 'G', 'H', 'J',
        'K', 'L', 'M', 'N', 'P', 'Q', 'R', 'S', 'T', 'U', 'V', 'W', 'X', 'Y', 'Z', 'a', 'b',
        'c', 'd', 'e', 'f', 'g', 'h', 'i', 'j', 'k', 'm', 'n', 'p', 'q', 'r', 's', 't', 'u',
        'v', 'w', 'x', 'y', 'z'
    ]
}

/// Membership in the key alphabet.
pub open spec fn in_alphabet(c: char) -> bool {
    spec_alphabet().contains(c)
}

/// A well-formed short key: exactly `KEY_LENGTH` characters, each drawn
/// from the alphabet.
pub open spec fn valid_key(s: Seq<char>) -> bool {
    &&& s.len() == KEY_LENGTH
    &&& forall|i: int| 0 <= i < s.len() ==> in_alphabet(#[trigger] s[i])
}

/// The alphabet as an executable table, in the order used for sampling.
pub fn alphabet() -> (v: Vec<char>)
    ensures
        v@ == spec_alphabet(),
        forall|i: int| 0 <= i < v@.len() ==> ((#[trigger] v@[i]) as u32) < 128,
{
    let v: Vec<char> = vec![
        '2', '3', '4', '5', '6', '7', '8', '9', 'A', 'B', 'C', 'D', 'E', 'F', 'G', 'H', 'J',
        'K', 'L', 'M', 'N', 'P', 'Q', 'R', 'S', 'T', 'U', 'V', 'W', 'X', 'Y', 'Z', 'a', 'b',
        'c', 'd', 'e', 'f', 'g', 'h', 'i', 'j', 'k', 'm', 'n', 'p', 'q', 'r', 's', 't', 'u',
        'v', 'w', 'x', 'y', 'z'
    ];
    proof {
        assert(v@ =~= spec_alphabet());
    }
    v
}

/// Relies on `nanoid::format`, driven by `nanoid::rngs::default` (the OS
/// random source): returns a string of exactly `size` characters, each
/// sampled from `alphabet`. The bounds keep `format` away from its panic
/// (an alphabet longer than a byte) and from the settings on which it
/// would never return (an empty alphabet, a zero size, or a multi-byte
/// character upsetting its byte-length stop condition).
#[verifier::external_body]
fn nanoid_format(alphabet: &Vec<char>, size: usize) -> (r: String)
    requires
        1 <= alphabet@.len() <= 255,
        1 <= size,
        forall|i: int| 0 <= i < alphabet@.len() ==> ((#[trigger] alphabet@[i]) as u32) < 128,
    ensures
        r@.len() == size,
        forall|i: int| 0 <= i < r@.len() ==> alphabet@.contains(#[trigger] r@[i]),
{
    nanoid::format(nanoid::rngs::default, alphabet.as_slice(), size)
}

/// Produce a fresh short key: `KEY_LENGTH` characters drawn uniformly at
/// random (with replacement) from the alphabet, independent of any stored
/// state. Only the shape of the key is promised; which key comes out
/// depends on the random source alone.
pub fn generate_key() -> (k: String)
    ensures
        valid_key(k@),
{
    let alpha = alphabet();
    let k = nanoid_format(&alpha, KEY_LENGTH);
    proof {
        assert forall|i: int| 0 <= i < k@.len() implies in_alphabet(#[trigger] k@[i]) by {
            assert(alpha@.contains(k@[i]));
        }
    }
    k
}

} // verus!
