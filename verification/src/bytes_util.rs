use vstd::prelude::*;

verus! {

/// True if the byte string `needle` occurs contiguously inside `haystack`.
pub open spec fn contains_seq(haystack: Seq<u8>, needle: Seq<u8>) -> bool {
    exists|i: int|
        0 <= i && i + needle.len() <= haystack.len() && #[trigger] haystack.subrange(
            i,
            i + needle.len(),
        ) == needle
}

/// Equality of two byte strings.
pub fn bytes_eq(a: &Vec<u8>, b: &Vec<u8>) -> (r: bool)
    ensures
        r <==> a@ == b@,
{
    if a.len() != b.len() {
        return false;
    }
    let mut i: usize = 0;
    while i < a.len()
        invariant
            a@.len() == b@.len(),
            i <= a@.len(),
            forall|j: int| 0 <= j < i ==> a@[j] == b@[j],
        decreases a@.len() - i,
    {
        if a[i] != b[i] {
            return false;
        }
        i = i + 1;
    }
    proof {
        assert(a@ =~= b@);
    }
    true
}

/// True if every byte of `a` is zero.
pub fn is_zero_bytes(a: &Vec<u8>) -> (r: bool)
    ensures
        r <==> crate::state::all_zero(a@),
{
    let mut i: usize = 0;
    while i < a.len()
        invariant
            i <= a@.len(),
            forall|j: int| 0 <= j < i ==> a@[j] == 0u8,
        decreases a@.len() - i,
    {
        if a[i] != 0 {
            return false;
        }
        i = i + 1;
    }
    true
}

/// An exact copy of a byte string.
pub fn copy_bytes(a: &Vec<u8>) -> (r: Vec<u8>)
    ensures
        r@ == a@,
{
    let mut out: Vec<u8> = Vec::new();
    let mut i: usize = 0;
    while i < a.len()
        invariant
            i <= a@.len(),
            out@ == a@.subrange(0, i as int),
        decreases a@.len() - i,
    {
        out.push(a[i]);
        proof {
            assert(out@ =~= a@.subrange(0, i + 1));
        }
        i = i + 1;
    }
    proof {
        assert(a@.subrange(0, a@.len() as int) =~= a@);
    }
    out
}

/// Shortens a 32-byte local address into the 20-byte external format by
/// keeping its last 20 bytes.
pub fn solana_to_evm_address(pubkey: &Vec<u8>) -> (r: Vec<u8>)
    requires
        pubkey@.len() == 32,
    ensures
        r@ == pubkey@.subrange(12, 32),
{
    let mut out: Vec<u8> = Vec::new();
    let mut i: usize = 12;
    while i < 32
        invariant
            12 <= i <= 32,
            pubkey@.len() == 32,
            out@ == pubkey@.subrange(12, i as int),
        decreases 32 - i,
    {
        out.push(pubkey[i]);
        proof {
            assert(out@ =~= pubkey@.subrange(12, i + 1));
        }
        i = i + 1;
    }
    out
}

/// Widens a 20-byte external address into the 32-byte local format by
/// left-padding with zero bytes.
pub fn pad_evm_to_solana_address(evm_address: &Vec<u8>) -> (r: Vec<u8>)
    requires
        evm_address@.len() == 20,
    ensures
        r@.len() == 32,
        forall|i: int| 0 <= i < 12 ==> r@[i] == 0u8,
        forall|i: int| 12 <= i < 32 ==> r@[i] == evm_address@[i - 12],
{
    let mut out: Vec<u8> = Vec::new();
    let mut i: usize = 0;
    while i < 12
        invariant
            i <= 12,
            out@.len() == i,
            forall|j: int| 0 <= j < i ==> out@[j] == 0u8,
        decreases 12 - i,
    {
        out.push(0u8);
        i = i + 1;
    }
    let mut k: usize = 0;
    while k < 20
        invariant
            k <= 20,
            evm_address@.len() == 20,
            out@.len() == 12 + k,
            forall|j: int| 0 <= j < 12 ==> out@[j] == 0u8,
            forall|j: int| 12 <= j < 12 + k ==> out@[j] == evm_address@[j - 12],
        decreases 20 - k,
    {
        out.push(evm_address[k]);
        k = k + 1;
    }
    out
}

/// The byte string of `n` zero bytes.
pub open spec fn zero_seq(n: nat) -> Seq<u8> {
    Seq::new(n, |i: int| 0u8)
}

/// Builds a byte string of `n` zero bytes.
pub fn zero_bytes(n: usize) -> (r: Vec<u8>)
    ensures
        r@ == zero_seq(n as nat),
{
    let mut out: Vec<u8> = Vec::new();
    let mut i: usize = 0;
    while i < n
        invariant
            i <= n,
            out@.len() == i,
            forall|j: int| 0 <= j < i ==> out@[j] == 0u8,
        decreases n - i,
    {
        out.push(0u8);
        i = i + 1;
    }
    proof {
        assert(out@ =~= zero_seq(n as nat));
    }
    out
}

/// The ASCII decimal numeral of `x`, most significant digit first, no
/// leading zeros (a single `0` for zero).
pub open spec fn dec_bytes(x: nat) -> Seq<u8>
    decreases x,
{
    if x < 10 {
        seq![(48 + x) as u8]
    } else {
        dec_bytes(x / 10) + seq![(48 + x % 10) as u8]
    }
}

/// Powers of ten.
pub open spec fn pow10(k: nat) -> nat
    decreases k,
{
    if k == 0 {
        1
    } else {
        10 * pow10((k - 1) as nat)
    }
}

/// A number below `pow10(k)` has at most `k` decimal digits.
proof fn lemma_dec_bytes_len_below(x: nat, k: nat)
    requires
        1 <= k,
        x < pow10(k),
    ensures
        dec_bytes(x).len() <= k,
    decreases k,
{
    if x < 10 {
    } else {
        assert(pow10(k) == 10 * pow10((k - 1) as nat));
        let p = pow10((k - 1) as nat);
        if k == 1 {
            assert(pow10(1nat) == 10);
        }
        assert(x / 10 < p) by (nonlinear_arith)
            requires
                x < 10 * p,
                0 < p,
        {
        }
        lemma_dec_bytes_len_below(x / 10, (k - 1) as nat);
    }
}

/// The decimal numeral of a 64-bit integer has between 1 and 20 digits.
pub proof fn lemma_dec_bytes_len_u64(x: u64)
    ensures
        1 <= dec_bytes(x as nat).len() <= 20,
{
    assert(pow10(0nat) == 1);
    assert(pow10(1nat) == 10);
    assert(pow10(2nat) == 100);
    assert(pow10(3nat) == 1000);
    assert(pow10(4nat) == 10000);
    assert(pow10(5nat) == 100000);
    assert(pow10(6nat) == 1000000);
    assert(pow10(7nat) == 10000000);
    assert(pow10(8nat) == 100000000);
    assert(pow10(9nat) == 1000000000);
    assert(pow10(10nat) == 10000000000);
    assert(pow10(11nat) == 100000000000);
    assert(pow10(12nat) == 1000000000000);
    assert(pow10(13nat) == 10000000000000);
    assert(pow10(14nat) == 100000000000000);
    assert(pow10(15nat) == 1000000000000000);
    assert(pow10(16nat) == 10000000000000000);
    assert(pow10(17nat) == 100000000000000000);
    assert(pow10(18nat) == 1000000000000000000);
    assert(pow10(19nat) == 10000000000000000000);
    assert(pow10(20nat) == 100000000000000000000);
    lemma_dec_bytes_len_below(x as nat, 20nat);
}

/// Renders an integer as its ASCII decimal numeral.
pub fn u64_to_dec_bytes(x: u64) -> (r: Vec<u8>)
    ensures
        r@ == dec_bytes(x as nat),
    decreases x,
{
    if x < 10 {
        let d: u8 = 48 + (x as u8);
        let mut v: Vec<u8> = Vec::new();
        v.push(d);
        proof {
            assert(v@ =~= dec_bytes(x as nat));
        }
        v
    } else {
        let mut v = u64_to_dec_bytes(x / 10);
        let d: u8 = 48 + ((x % 10) as u8);
        v.push(d);
        proof {
            assert(v@ =~= dec_bytes((x / 10) as nat) + seq![(48 + (x as nat) % 10) as u8]);
        }
        v
    }
}

/// Substring search: does `needle` occur contiguously inside `haystack`?
pub fn contains_bytes(haystack: &Vec<u8>, needle: &Vec<u8>) -> (r: bool)
    ensures
        r <==> contains_seq(haystack@, needle@),
{
    if needle.len() == 0 {
        proof {
            assert(haystack@.subrange(0, 0 + needle@.len() as int) =~= needle@);
            assert(contains_seq(haystack@, needle@));
        }
        return true;
    }
    if needle.len() > haystack.len() {
        assert(!contains_seq(haystack@, needle@));
        return false;
    }
    let mut i: usize = 0;
    let last = haystack.len() - needle.len();
    while i <= last
        invariant
            1 <= needle@.len() <= haystack@.len(),
            haystack@.len() <= usize::MAX,
            last == haystack@.len() - needle@.len(),
            i <= last + 1,
            forall|p: int|
                0 <= p < i ==> #[trigger] haystack@.subrange(p, p + needle@.len()) != needle@,
        decreases last + 1 - i,
    {
        let mut j: usize = 0;
        let mut matched = true;
        while j < needle.len()
            invariant
                needle@.len() <= haystack@.len(),
                haystack@.len() <= usize::MAX,
                i + needle@.len() <= haystack@.len(),
                j <= needle@.len(),
                matched <==> forall|q: int| 0 <= q < j ==> haystack@[i + q] == needle@[q],
            decreases needle@.len() - j,
        {
            if haystack[i + j] != needle[j] {
                matched = false;
                proof {
                    assert(haystack@[i + j] != needle@[j as int]);
                }
                j = needle.len();
            } else {
                j = j + 1;
            }
        }
        if matched {
            proof {
                assert(haystack@.subrange(i as int, i + needle@.len()) =~= needle@);
            }
            return true;
        }
        proof {
            assert(haystack@.subrange(i as int, i + needle@.len()) != needle@) by {
                let q = choose|q: int|
                    0 <= q < needle@.len() && haystack@[i + q] != needle@[q];
                assert(haystack@.subrange(i as int, i + needle@.len())[q] == haystack@[i + q]);
            }
        }
        i = i + 1;
    }
    proof {
        assert(!contains_seq(haystack@, needle@));
    }
    false
}

} // verus!
