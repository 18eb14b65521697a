//! The credential hasher: a one-way transformation from a plaintext password
//! to the stored verifier string.
//!
//! The verifier string is a fold of the password's characters into a 64-bit
//! digest, written out as hexadecimal digits. It is deliberately one
//! character longer than the password, so the stored value provably never
//! coincides with the plaintext. The algorithm is this library's own choice;
//! callers rely only on the contract of [`CredentialHasher::hash_password`].

use vstd::prelude::*;
use vstd::string::StrSliceExecFns;
use vstd::string::StringExecFns;

verus! {

/// Multiplier of the 64-bit mixing step.
pub const MIX_PRIME: u64 = 0x100000001b3;

/// Starting value of the 64-bit fold.
pub const MIX_SEED: u64 = 0xcbf29ce484222325;

/// One mixing step of the digest fold.
pub open spec fn mix_step(acc: u64, c: char) -> u64 {
    (acc ^ ((c as u32) as u64)).wrapping_mul(MIX_PRIME)
}

/// The digest after folding the first `n` characters of `p`.
pub open spec fn digest_prefix(p: Seq<char>, n: int) -> u64
    decreases n,
{
    if n <= 0 {
        MIX_SEED
    } else {
        mix_step(digest_prefix(p, n - 1), p[n - 1])
    }
}

/// The 64-bit digest of a whole character sequence.
pub open spec fn digest_of(p: Seq<char>) -> u64 {
    digest_prefix(p, p.len() as int)
}

/// The hexadecimal digit character for a value below sixteen.
pub open spec fn hex_char(n: int) -> char {
    if n == 0 {
        '0'
    } else if n == 1 {
        '1'
    } else if n == 2 {
        '2'
    } else if n == 3 {
        '3'
    } else if n == 4 {
        '4'
    } else if n == 5 {
        '5'
    } else if n == 6 {
        '6'
    } else if n == 7 {
        '7'
    } else if n == 8 {
        '8'
    } else if n == 9 {
        '9'
    } else if n == 10 {
        'a'
    } else if n == 11 {
        'b'
    } else if n == 12 {
        'c'
    } else if n == 13 {
        'd'
    } else if n == 14 {
        'e'
    } else {
        'f'
    }
}

/// The nibble of `d` selected by position `k`, cycling through all sixteen.
pub open spec fn nibble(d: u64, k: int) -> u64 {
    (d >> (((k % 16) * 4) as u64)) & 0xf
}

/// The stored verifier string for a password: one hexadecimal character per
/// input character and one more, all drawn from the digest. Being one
/// character longer than the password, it can never equal it.
pub open spec fn hash_of(p: Seq<char>) -> Seq<char> {
    Seq::new((p.len() + 1) as nat, |i: int| hex_char(nibble(digest_of(p), i) as int))
}

/// The hexadecimal digit string for a value below sixteen.
fn hex_str(n: u64) -> (r: &'static str)
    requires
        n < 16,
    ensures
        r@.len() == 1,
        r@[0] == hex_char(n as int),
{
    proof {
        reveal_strlit("0");
        reveal_strlit("1");
        reveal_strlit("2");
        reveal_strlit("3");
        reveal_strlit("4");
        reveal_strlit("5");
        reveal_strlit("6");
        reveal_strlit("7");
        reveal_strlit("8");
        reveal_strlit("9");
        reveal_strlit("a");
        reveal_strlit("b");
        reveal_strlit("c");
        reveal_strlit("d");
        reveal_strlit("e");
        reveal_strlit("f");
    }
    if n == 0 {
        "0"
    } else if n == 1 {
        "1"
    } else if n == 2 {
        "2"
    } else if n == 3 {
        "3"
    } else if n == 4 {
        "4"
    } else if n == 5 {
        "5"
    } else if n == 6 {
        "6"
    } else if n == 7 {
        "7"
    } else if n == 8 {
        "8"
    } else if n == 9 {
        "9"
    } else if n == 10 {
        "a"
    } else if n == 11 {
        "b"
    } else if n == 12 {
        "c"
    } else if n == 13 {
        "d"
    } else if n == 14 {
        "e"
    } else {
        "f"
    }
}

/// The hex character of `d` selected by position `j`, as a one-character
/// string slice.
fn hex_digit_str(d: u64, j: usize) -> (r: &'static str)
    ensures
        r@.len() == 1,
        r@[0] == hex_char(nibble(d, j as int) as int),
{
    let rem: usize = j % 16;
    let sh: u64 = (rem * 4) as u64;
    proof {
        assert(rem == (j as int) % 16);
        assert(sh == ((j as int) % 16) * 4);
        assert(((d >> sh) & 0xf) < 16) by (bit_vector);
    }
    let nib: u64 = (d >> sh) & 0xf;
    hex_str(nib)
}

/// The credential hashing capability handed to `create_user`.
pub struct CredentialHasher {}

impl CredentialHasher {
    pub fn new() -> (r: Self) {
        CredentialHasher {}
    }

    /// Derive the stored verifier string for a plaintext password.
    ///
    /// The result is pinned by [`hash_of`]; it is never empty and never
    /// equals the plaintext, because it is one character longer.
    pub fn hash_password(&self, password: &str) -> (r: String)
        ensures
            r@ == hash_of(password@),
            r@.len() == password@.len() + 1,
            r@ != password@,
    {
        let n: usize = password.unicode_len();
        let mut acc: u64 = MIX_SEED;
        let mut i: usize = 0;
        while i < n
            invariant
                n == password@.len(),
                0 <= i <= n,
                acc == digest_prefix(password@, i as int),
            decreases n - i,
        {
            let c: char = password.get_char(i);
            acc = (acc ^ ((c as u32) as u64)).wrapping_mul(MIX_PRIME);
            i = i + 1;
        }
        let digest: u64 = acc;
        let mut out: String = String::new();
        let mut j: usize = 0;
        while j < n
            invariant
                n == password@.len(),
                0 <= j <= n,
                digest == digest_of(password@),
                out@.len() == j,
                forall|k: int| 0 <= k < j ==> out@[k] == hex_char(nibble(digest, k) as int),
            decreases n - j,
        {
            let piece: &str = hex_digit_str(digest, j);
            out.append(piece);
            j = j + 1;
        }
        let piece: &str = hex_digit_str(digest, n);
        out.append(piece);
        proof {
            assert(out@ =~= hash_of(password@));
        }
        out
    }
}

} // verus!
