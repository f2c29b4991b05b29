//! Deterministic import id: the ledger's idempotency key.
//!
//! `import_id` is a pure function of `(provider_id, external_id)` alone: no
//! randomness, no clock, no local state.  It can therefore be recomputed
//! independently on every run, and the ledger's dedup on it makes the whole
//! pipeline safely re-runnable after a crash at any point.  The id is the
//! 64-bit FNV-1a hash of the provider id, a separator, and the external
//! transaction id, rendered as 16 lower-case hex digits.

use vstd::prelude::*;

verus! {

/// FNV-1a 64-bit offset basis.
pub const FNV_OFFSET: u64 = 0xcbf29ce484222325;

/// FNV-1a 64-bit prime.
pub const FNV_PRIME: u64 = 0x00000100000001b3;

/// One FNV-1a round: fold the value `v` into the running hash `h`.
pub open spec fn spec_fnv_step(h: u64, v: u64) -> u64 {
    (h ^ v).wrapping_mul(FNV_PRIME)
}

/// FNV-1a over a sequence of characters (each hashed as its code point),
/// starting from the running hash `h`.
pub open spec fn spec_fnv_chars(h: u64, s: Seq<char>) -> u64
    decreases s.len(),
{
    if s.len() == 0 {
        h
    } else {
        spec_fnv_step(spec_fnv_chars(h, s.drop_last()), s.last() as u64)
    }
}

/// The 64-bit hash behind an import id.
pub open spec fn spec_import_hash(provider_id: Seq<char>, external_id: Seq<char>) -> u64 {
    spec_fnv_chars(spec_fnv_step(spec_fnv_chars(FNV_OFFSET, provider_id), ':' as u64), external_id)
}

/// Hex digit `i` (counted from the most significant) of `h`.
pub open spec fn spec_nibble(h: u64, i: int) -> u64 {
    (h >> ((15 - i) * 4) as u64) & 0xf
}

/// Lower-case hex character for a value under 16.
pub open spec fn spec_hex_digit(d: u64) -> char {
    if d == 0 {
        '0'
    } else if d == 1 {
        '1'
    } else if d == 2 {
        '2'
    } else if d == 3 {
        '3'
    } else if d == 4 {
        '4'
    } else if d == 5 {
        '5'
    } else if d == 6 {
        '6'
    } else if d == 7 {
        '7'
    } else if d == 8 {
        '8'
    } else if d == 9 {
        '9'
    } else if d == 10 {
        'a'
    } else if d == 11 {
        'b'
    } else if d == 12 {
        'c'
    } else if d == 13 {
        'd'
    } else if d == 14 {
        'e'
    } else {
        'f'
    }
}

/// `h` rendered as 16 lower-case hex digits, most significant first.
pub open spec fn spec_hex16(h: u64) -> Seq<char> {
    Seq::new(16, |i: int| spec_hex_digit(spec_nibble(h, i)))
}

/// The import id for a transaction with id `external_id` seen through the
/// provider with id `provider_id`.
pub open spec fn spec_import_id(provider_id: Seq<char>, external_id: Seq<char>) -> Seq<char> {
    spec_hex16(spec_import_hash(provider_id, external_id))
}

/// The import id is a pure function of the `(provider_id, external_id)`
/// pair: any two computations over the same pair — in particular in two
/// separate runs — yield the same id.
pub proof fn lemma_import_id_deterministic(
    provider_a: Seq<char>,
    external_a: Seq<char>,
    provider_b: Seq<char>,
    external_b: Seq<char>,
)
    requires
        provider_a == provider_b,
        external_a == external_b,
    ensures
        spec_import_id(provider_a, external_a) == spec_import_id(provider_b, external_b),
{
}

/// Fold the characters of `s` into the running FNV-1a hash `h`.
fn fnv_str(h: u64, s: &str) -> (r: u64)
    ensures
        r == spec_fnv_chars(h, s@),
{
    let n: usize = s.unicode_len();
    let mut acc: u64 = h;
    let mut i: usize = 0;
    while i < n
        invariant
            n == s@.len(),
            i <= n,
            acc == spec_fnv_chars(h, s@.take(i as int)),
        decreases n - i,
    {
        let c: char = s.get_char(i);
        acc = (acc ^ (c as u64)).wrapping_mul(FNV_PRIME);
        proof {
            let pre = s@.take(i as int);
            let post = s@.take(i + 1 as int);
            assert(post.drop_last() =~= pre);
            assert(post.last() == s@[i as int]);
        }
        i = i + 1;
    }
    proof {
        assert(s@.take(n as int) =~= s@);
    }
    acc
}

/// One-character string for a hex digit value under 16.
fn hex_digit_str(d: u64) -> (r: &'static str)
    requires
        d < 16,
    ensures
        r@ =~= seq![spec_hex_digit(d)],
{
    proof {
        reveal_strlit("0");
        reveal_strlit("1");
        reveal_strlit("2");
        reveal_strlit("3");
        reveal_strlit("4");
        reveal_strlit("5");
        reveal_strlit("6");
        reveal_strlit("7");
        reveal_strlit("8");
        reveal_strlit("9");
        reveal_strlit("a");
        reveal_strlit("b");
        reveal_strlit("c");
        reveal_strlit("d");
        reveal_strlit("e");
        reveal_strlit("f");
    }
    if d == 0 {
        "0"
    } else if d == 1 {
        "1"
    } else if d == 2 {
        "2"
    } else if d == 3 {
        "3"
    } else if d == 4 {
        "4"
    } else if d == 5 {
        "5"
    } else if d == 6 {
        "6"
    } else if d == 7 {
        "7"
    } else if d == 8 {
        "8"
    } else if d == 9 {
        "9"
    } else if d == 10 {
        "a"
    } else if d == 11 {
        "b"
    } else if d == 12 {
        "c"
    } else if d == 13 {
        "d"
    } else if d == 14 {
        "e"
    } else {
        "f"
    }
}

/// Render `h` as 16 lower-case hex digits, most significant first.
fn format_hex16(h: u64) -> (s: String)
    ensures
        s@ == spec_hex16(h),
        s@.len() == 16,
{
    let mut s = String::new();
    let mut i: usize = 0;
    while i < 16
        invariant
            i <= 16,
            s@ =~= spec_hex16(h).take(i as int),
        decreases 16 - i,
    {
        let shift: u64 = (15 - i as u64) * 4;
        let d: u64 = (h >> shift) & 0xf;
        assert(d < 16) by (bit_vector)
            requires
                d == (h >> shift) & 0xf,
        ;
        assert(d == spec_nibble(h, i as int));
        let digit: &str = hex_digit_str(d);
        s.append(digit);
        proof {
            let full = spec_hex16(h);
            assert(s@ =~= full.take(i + 1 as int));
        }
        i = i + 1;
    }
    proof {
        assert(spec_hex16(h).take(16) =~= spec_hex16(h));
    }
    s
}

/// Compute the import id for `(provider_id, external_id)`; see
/// [`spec_import_id`].
pub fn compute_import_id(provider_id: &str, external_id: &str) -> (r: String)
    ensures
        r@ == spec_import_id(provider_id@, external_id@),
        r@.len() == 16,
{
    let h0: u64 = fnv_str(FNV_OFFSET, provider_id);
    let h1: u64 = (h0 ^ (':' as u64)).wrapping_mul(FNV_PRIME);
    let h2: u64 = fnv_str(h1, external_id);
    format_hex16(h2)
}

} // verus!
