//! Content hashing: each stored clip is keyed by the lowercase hexadecimal
//! form of the SHA-256 digest of its UTF-8 bytes.
use sha2::Digest;
use vstd::prelude::*;

verus! {

/// The SHA-256 digest of a byte sequence.
pub uninterp spec fn sha256_digest(data: Seq<u8>) -> Seq<u8>;

/// The lowercase hexadecimal digit for a value below sixteen.
pub open spec fn hex_digit(n: u8) -> char {
    if n < 10 {
        (48 + n) as char
    } else {
        (87 + n) as char
    }
}

/// Lowercase hexadecimal text of a byte sequence: two digits per byte,
/// high nibble first.
pub open spec fn hex_lower(bytes: Seq<u8>) -> Seq<char> {
    Seq::new(
        2 * bytes.len(),
        |i: int|
            if i % 2 == 0 {
                hex_digit(bytes[i / 2] / 16)
            } else {
                hex_digit(bytes[i / 2] % 16)
            },
    )
}

/// A character that `hex_lower` can produce.
pub open spec fn is_lower_hex_char(c: char) -> bool {
    ('0' <= c && c <= '9') || ('a' <= c && c <= 'f')
}

/// The key under which a clip with the given text is stored.
pub open spec fn content_hash_spec(content: Seq<char>) -> Seq<char> {
    hex_lower(sha256_digest(vstd::utf8::encode_utf8(content)))
}

/// Calls `sha2::Sha256::digest` (the `Digest` trait's one-shot form of
/// `new`, `update`, `finalize`). Trusted: the result is the digest named by
/// `sha256_digest`, and SHA-256 output is always 32 bytes long.
#[verifier::external_body]
fn sha256(data: &[u8]) -> (digest: Vec<u8>)
    ensures
        digest@ == sha256_digest(data@),
        digest@.len() == 32,
{
    sha2::Sha256::digest(data).to_vec()
}

/// The one-character text of the hex digit for `n`.
fn hex_digit_text(n: u8) -> (digit: &'static str)
    requires
        n < 16,
    ensures
        digit@ == seq![hex_digit(n)],
{
    match n {
        0 => {
            proof {
                reveal_strlit("0");
            }
            "0"
        },
        1 => {
            proof {
                reveal_strlit("1");
            }
            "1"
        },
        2 => {
            proof {
                reveal_strlit("2");
            }
            "2"
        },
        3 => {
            proof {
                reveal_strlit("3");
            }
            "3"
        },
        4 => {
            proof {
                reveal_strlit("4");
            }
            "4"
        },
        5 => {
            proof {
                reveal_strlit("5");
            }
            "5"
        },
        6 => {
            proof {
                reveal_strlit("6");
            }
            "6"
        },
        7 => {
            proof {
                reveal_strlit("7");
            }
            "7"
        },
        8 => {
            proof {
                reveal_strlit("8");
            }
            "8"
        },
        9 => {
            proof {
                reveal_strlit("9");
            }
            "9"
        },
        10 => {
            proof {
                reveal_strlit("a");
            }
            "a"
        },
        11 => {
            proof {
                reveal_strlit("b");
            }
            "b"
        },
        12 => {
            proof {
                reveal_strlit("c");
            }
            "c"
        },
        13 => {
            proof {
                reveal_strlit("d");
            }
            "d"
        },
        14 => {
            proof {
                reveal_strlit("e");
            }
            "e"
        },
        _ => {
            proof {
                reveal_strlit("f");
            }
            "f"
        },
    }
}

/// Lowercase hexadecimal text of `data`, high nibble first.
fn hex_encode(data: &[u8]) -> (text: String)
    ensures
        text@ == hex_lower(data@),
{
    let mut text = String::new();
    let mut i: usize = 0;
    while i < data.len()
        invariant
            i <= data@.len(),
            text@.len() == 2 * i,
            forall|k: int| 0 <= k < 2 * i ==> #[trigger] text@[k] == hex_lower(data@)[k],
        decreases data@.len() - i,
    {
        let b: u8 = data[i];
        let ghost before = text@;
        text.append(hex_digit_text(b / 16));
        text.append(hex_digit_text(b % 16));
        proof {
            assert forall|k: int| 0 <= k < 2 * (i + 1) implies #[trigger] text@[k] == hex_lower(
                data@,
            )[k] by {
                if k >= 2 * i {
                    assert(k / 2 == i as int);
                } else {
                    assert(text@[k] == before[k]);
                }
            }
        }
        i = i + 1;
    }
    assert(text@ =~= hex_lower(data@));
    text
}

/// The storage key of a clip: lowercase hex of the SHA-256 of its UTF-8
/// bytes; always 64 lowercase hexadecimal characters.
pub fn content_hash(content: &str) -> (hash: String)
    ensures
        hash@ == content_hash_spec(content@),
        hash@.len() == 64,
        forall|i: int| 0 <= i < hash@.len() ==> is_lower_hex_char(#[trigger] hash@[i]),
{
    let digest = sha256(content.as_bytes());
    let hash = hex_encode(digest.as_slice());
    proof {
        lemma_hex_lower_chars(digest@);
    }
    hash
}

/// Every character of `hex_lower` output is a lowercase hex digit.
pub proof fn lemma_hex_lower_chars(bytes: Seq<u8>)
    ensures
        hex_lower(bytes).len() == 2 * bytes.len(),
        forall|i: int|
            0 <= i < hex_lower(bytes).len() ==> is_lower_hex_char(#[trigger] hex_lower(bytes)[i]),
{
    assert forall|i: int| 0 <= i < hex_lower(bytes).len() implies is_lower_hex_char(
        #[trigger] hex_lower(bytes)[i],
    ) by {
        let b = bytes[i / 2];
        let n: u8 = if i % 2 == 0 { b / 16 } else { b % 16 };
        assert(n < 16);
        assert(hex_lower(bytes)[i] == hex_digit(n));
    }
}

/// Hex digits of values below sixteen are distinct.
proof fn lemma_hex_digit_injective(a: u8, b: u8)
    requires
        a < 16,
        b < 16,
        hex_digit(a) == hex_digit(b),
    ensures
        a == b,
{
}

/// Law: hex text determines the bytes it was made from.
pub proof fn law_hex_lower_injective(x: Seq<u8>, y: Seq<u8>)
    requires
        hex_lower(x) == hex_lower(y),
    ensures
        x == y,
{
    assert(x.len() == y.len()) by {
        assert(hex_lower(x).len() == 2 * x.len());
        assert(hex_lower(y).len() == 2 * y.len());
    }
    assert forall|i: int| 0 <= i < x.len() implies x[i] == y[i] by {
        let hi = 2 * i;
        let lo = 2 * i + 1;
        assert(hi / 2 == i && hi % 2 == 0);
        assert(lo / 2 == i && lo % 2 == 1);
        assert(hex_lower(x)[hi] == hex_digit(x[i] / 16));
        assert(hex_lower(y)[hi] == hex_digit(y[i] / 16));
        assert(hex_lower(x)[lo] == hex_digit(x[i] % 16));
        assert(hex_lower(y)[lo] == hex_digit(y[i] % 16));
        lemma_hex_digit_injective(x[i] / 16, y[i] / 16);
        lemma_hex_digit_injective(x[i] % 16, y[i] % 16);
    }
    assert(x =~= y);
}

/// Law: two texts get the same key exactly when the SHA-256 digests of all
/// their UTF-8 bytes are equal, and a key is the hex of that whole digest.
pub proof fn law_key_is_digest_of_all_bytes(c1: Seq<char>, c2: Seq<char>)
    ensures
        content_hash_spec(c1) == hex_lower(sha256_digest(vstd::utf8::encode_utf8(c1))),
        content_hash_spec(c1) == content_hash_spec(c2) <==> sha256_digest(
            vstd::utf8::encode_utf8(c1),
        ) == sha256_digest(vstd::utf8::encode_utf8(c2)),
{
    if content_hash_spec(c1) == content_hash_spec(c2) {
        law_hex_lower_injective(
            sha256_digest(vstd::utf8::encode_utf8(c1)),
            sha256_digest(vstd::utf8::encode_utf8(c2)),
        );
    }
}

} // verus!
