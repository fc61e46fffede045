//! SHA-256 digests and their lowercase hexadecimal rendering.

use sha2::Digest;
use vstd::prelude::*;
use vstd::string::*;

verus! {

/// The SHA-256 digest of `data`, as computed by the `sha2` crate.
pub uninterp spec fn sha256_digest(data: Seq<u8>) -> Seq<u8>;

/// Number of bytes in a SHA-256 digest.
pub const DIGEST_LEN: usize = 32;

/// The lowercase hexadecimal digit for a value below sixteen.
pub open spec fn hex_digit(n: int) -> char {
    if n == 0 {
        '0'
    } else if n == 1 {
        '1'
    } else if n == 2 {
        '2'
    } else if n == 3 {
        '3'
    } else if n == 4 {
        '4'
    } else if n == 5 {
        '5'
    } else if n == 6 {
        '6'
    } else if n == 7 {
        '7'
    } else if n == 8 {
        '8'
    } else if n == 9 {
        '9'
    } else if n == 10 {
        'a'
    } else if n == 11 {
        'b'
    } else if n == 12 {
        'c'
    } else if n == 13 {
        'd'
    } else if n == 14 {
        'e'
    } else {
        'f'
    }
}

/// Two lowercase hexadecimal digits per byte, high nibble first.
pub open spec fn hex_text(bytes: Seq<u8>) -> Seq<char>
    decreases bytes.len(),
{
    if bytes.len() == 0 {
        Seq::<char>::empty()
    } else {
        hex_text(bytes.drop_last()).push(hex_digit(bytes.last() as int / 16)).push(
            hex_digit(bytes.last() as int % 16),
        )
    }
}

/// The hexadecimal SHA-256 fingerprint of `data`.
pub open spec fn fingerprint(data: Seq<u8>) -> Seq<char> {
    hex_text(sha256_digest(data))
}

/// `hex_text` yields exactly two characters per byte.
pub proof fn lemma_hex_text_len(bytes: Seq<u8>)
    ensures
        hex_text(bytes).len() == 2 * bytes.len(),
    decreases bytes.len(),
{
    if bytes.len() > 0 {
        lemma_hex_text_len(bytes.drop_last());
    }
}

/// Whether `c` is a lowercase hexadecimal digit.
pub open spec fn is_hex_char(c: char) -> bool {
    ('0' <= c <= '9') || ('a' <= c <= 'f')
}

/// `hex_text` yields lowercase hexadecimal digits only.
pub proof fn lemma_hex_text_chars(bytes: Seq<u8>)
    ensures
        forall|i: int| 0 <= i < hex_text(bytes).len() ==> is_hex_char(#[trigger] hex_text(bytes)[i]),
    decreases bytes.len(),
{
    if bytes.len() > 0 {
        lemma_hex_text_chars(bytes.drop_last());
        lemma_hex_text_len(bytes.drop_last());
        let front = hex_text(bytes.drop_last());
        assert forall|i: int| 0 <= i < hex_text(bytes).len() implies is_hex_char(
            #[trigger] hex_text(bytes)[i],
        ) by {
            if i < front.len() {
                assert(hex_text(bytes)[i] == front[i]);
            }
        }
    }
}

/// Calls `sha2::Sha256::digest` on `data` and copies the output array into
/// a vector. Trusted: the result is the SHA-256 digest of exactly these
/// bytes, which is always thirty-two bytes long.
#[verifier::external_body]
fn sha256(data: &[u8]) -> (out: Vec<u8>)
    ensures
        out@ == sha256_digest(data@),
        out@.len() == DIGEST_LEN,
{
    sha2::Sha256::digest(data).to_vec()
}

pub(crate) fn hex_digit_str(n: u8) -> (s: &'static str)
    requires
        n < 16,
    ensures
        s@ == seq![hex_digit(n as int)],
{
    proof {
        reveal_strlit("0");
        reveal_strlit("1");
        reveal_strlit("2");
        reveal_strlit("3");
        reveal_strlit("4");
        reveal_strlit("5");
        reveal_strlit("6");
        reveal_strlit("7");
        reveal_strlit("8");
        reveal_strlit("9");
        reveal_strlit("a");
        reveal_strlit("b");
        reveal_strlit("c");
        reveal_strlit("d");
        reveal_strlit("e");
        reveal_strlit("f");
    }
    let s = match n {
        0 => "0",
        1 => "1",
        2 => "2",
        3 => "3",
        4 => "4",
        5 => "5",
        6 => "6",
        7 => "7",
        8 => "8",
        9 => "9",
        10 => "a",
        11 => "b",
        12 => "c",
        13 => "d",
        14 => "e",
        _ => "f",
    };
    assert(s@ =~= seq![hex_digit(n as int)]);
    s
}

/// Renders `hash` as lowercase hexadecimal text.
pub fn hexify_hash(hash: &[u8]) -> (text: String)
    ensures
        text@ == hex_text(hash@),
{
    let mut text = String::new();
    let mut i: usize = 0;
    while i < hash.len()
        invariant
            i <= hash.len(),
            text@ == hex_text(hash@.take(i as int)),
        decreases hash.len() - i,
    {
        let b: u8 = hash[i];
        text.append(hex_digit_str(b / 16));
        text.append(hex_digit_str(b % 16));
        proof {
            let next = hash@.take(i as int + 1);
            assert(next.drop_last() =~= hash@.take(i as int));
            assert(next.last() == b);
            assert(text@ =~= hex_text(next));
        }
        i += 1;
    }
    proof {
        assert(hash@.take(i as int) =~= hash@);
    }
    text
}

/// Appends `more` to `data`.
pub fn append_bytes(data: &mut Vec<u8>, more: &[u8])
    ensures
        final(data)@ == old(data)@ + more@,
{
    let mut i: usize = 0;
    while i < more.len()
        invariant
            i <= more.len(),
            data@ == old(data)@ + more@.take(i as int),
        decreases more.len() - i,
    {
        data.push(more[i]);
        proof {
            assert(more@.take(i as int + 1) =~= more@.take(i as int).push(more@[i as int]));
            assert(data@ =~= old(data)@ + more@.take(i as int + 1));
        }
        i += 1;
    }
    proof {
        assert(more@.take(i as int) =~= more@);
    }
}

/// The hexadecimal SHA-256 fingerprint of `data`.
pub fn sha256_hex(data: &[u8]) -> (text: String)
    ensures
        text@ == fingerprint(data@),
        text@.len() == 2 * DIGEST_LEN,
{
    let raw = sha256(data);
    proof {
        lemma_hex_text_len(raw@);
    }
    hexify_hash(raw.as_slice())
}

} // verus!
