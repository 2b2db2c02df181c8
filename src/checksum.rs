//! The Internet checksum (RFC 1071): the one's-complement of the
//! one's-complement sum of a message read as big-endian 16-bit words.
use vstd::prelude::*;

verus! {

/// The `k`-th big-endian 16-bit word of `s`; a missing last byte counts as zero.
pub open spec fn word_at(s: Seq<u8>, k: int) -> nat {
    (s[2 * k] as nat) * 256 + if 2 * k + 1 < s.len() {
        s[2 * k + 1] as nat
    } else {
        0nat
    }
}

/// How many 16-bit words `s` makes once an odd length is padded by one zero byte.
pub open spec fn word_count(s: Seq<u8>) -> nat {
    s.len() / 2 + s.len() % 2
}

/// The plain sum of the first `k` words of `s`.
pub open spec fn sum_words(s: Seq<u8>, k: nat) -> nat
    decreases k,
{
    if k == 0 {
        0
    } else {
        sum_words(s, (k - 1) as nat) + word_at(s, k - 1)
    }
}

/// A sum folded into 16 bits with end-around carry: zero stays zero, any other
/// value lands in `1..=0xFFFF` and keeps its remainder modulo `0xFFFF`.
pub open spec fn ones_fold(x: nat) -> nat {
    if x == 0 {
        0
    } else {
        ((x - 1) % 65535 + 1) as nat
    }
}

/// The checksum of a whole message.
pub open spec fn internet_checksum(s: Seq<u8>) -> u16 {
    (65535 - ones_fold(sum_words(s, word_count(s)))) as u16
}

/// Adding one word to a folded sum with end-around carry folds the longer sum.
proof fn lemma_fold_add(x: nat, w: nat)
    requires
        w <= 65535,
    ensures
        ones_fold(x + w) as int == (if ones_fold(x) + w > 65535 {
            ones_fold(x) + w - 65535
        } else {
            ones_fold(x) + w as int
        }),
{
    if x > 0 {
        let q = (x - 1) / 65535;
        let r = (x - 1) % 65535;
        assert((x - 1) == q * 65535 + r) by (nonlinear_arith)
            requires q == (x - 1) / 65535, r == (x - 1) % 65535;
        if r + w < 65535 {
            vstd::arithmetic::div_mod::lemma_fundamental_div_mod_converse(
                x + w - 1, 65535, q, r + w);
        } else {
            vstd::arithmetic::div_mod::lemma_fundamental_div_mod_converse(
                x + w - 1, 65535, q + 1, r + w - 65535);
        }
    } else {
        if w > 0 {
            vstd::arithmetic::div_mod::lemma_fundamental_div_mod_converse(
                (w - 1) as int, 65535, 0, (w - 1) as int);
        }
    }
}

/// Computes the Internet checksum of `data`.
pub fn checksum(data: &[u8]) -> (r: u16)
    ensures
        r == internet_checksum(data@),
{
    let n = data.len();
    let words: usize = n / 2 + n % 2;
    let mut acc: u32 = 0;
    let mut k: usize = 0;
    while k < words
        invariant
            n == data@.len(),
            words == word_count(data@),
            k <= words,
            acc == ones_fold(sum_words(data@, k as nat)),
        decreases words - k,
    {
        let i: usize = 2 * k;
        let hi = data[i] as u32;
        let lo: u32 = if i + 1 < n {
            data[i + 1] as u32
        } else {
            0
        };
        let w: u32 = hi * 256 + lo;
        assert(w as nat == word_at(data@, k as int));
        proof {
            lemma_fold_add(sum_words(data@, k as nat), w as nat);
        }
        acc = if acc + w > 65535 {
            acc + w - 65535
        } else {
            acc + w
        };
        k = k + 1;
    }
    (65535 - acc) as u16
}

} // verus!
