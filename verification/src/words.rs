//! Byte-level values of the EVM ABI: 32-byte big-endian words, 20-byte
//! addresses, and the arithmetic on 256-bit words that the hooks need.
use revm::primitives::U256;
use vstd::prelude::*;

verus! {

/// A 20-byte account address.
pub type Address = [u8; 20];

/// A 32-byte word (an ABI slot, a hash, or a big-endian 256-bit number).
pub type Word = [u8; 32];

/// The number that a byte string denotes when read big-endian.
pub open spec fn be_value(s: Seq<u8>) -> nat
    decreases s.len(),
{
    if s.len() == 0 {
        0
    } else {
        be_value(s.drop_last()) * 256 + s.last() as nat
    }
}

/// `n` zero bytes.
pub open spec fn zeros(n: nat) -> Seq<u8> {
    Seq::new(n, |i: int| 0u8)
}

/// Whether every byte of `s` is zero.
pub open spec fn all_zero_spec(s: Seq<u8>) -> bool {
    forall|i: int| 0 <= i < s.len() ==> s[i] == 0
}

/// A word with only its last byte set.
pub open spec fn small_word(b: u8) -> Seq<u8> {
    zeros(31).push(b)
}

/// The hash that `keccak256` gives of a byte string.
pub uninterp spec fn keccak256_of(data: Seq<u8>) -> Seq<u8>;

/// Zero bytes denote zero.
pub proof fn lemma_be_value_all_zero(z: Seq<u8>)
    requires
        all_zero_spec(z),
    ensures
        be_value(z) == 0,
    decreases z.len(),
{
    if z.len() > 0 {
        lemma_be_value_all_zero(z.drop_last());
    }
}

/// Leading zero bytes do not change the value of a big-endian number.
pub proof fn lemma_be_value_zero_prefix(z: Seq<u8>, t: Seq<u8>)
    requires
        all_zero_spec(z),
    ensures
        be_value(z + t) == be_value(t),
    decreases t.len(),
{
    if t.len() == 0 {
        assert(z + t =~= z);
        lemma_be_value_all_zero(z);
    } else {
        assert((z + t).drop_last() =~= z + t.drop_last());
        lemma_be_value_zero_prefix(z, t.drop_last());
    }
}

/// A word that holds a single low byte denotes that byte.
pub proof fn lemma_small_word_value(b: u8)
    ensures
        be_value(small_word(b)) == b as nat,
        small_word(b).len() == 32,
{
    let s = small_word(b);
    assert(s =~= zeros(31) + seq![b]);
    lemma_be_value_zero_prefix(zeros(31), seq![b]);
    assert(seq![b].drop_last() =~= Seq::<u8>::empty());
    assert(be_value(seq![b]) == be_value(Seq::<u8>::empty()) * 256 + b as nat);
}

/// Copies the 32 bytes of `data` that start at `at`.
pub fn read_word(data: &[u8], at: usize) -> (w: Word)
    requires
        at + 32 <= data@.len(),
    ensures
        w@ == data@.subrange(at as int, at + 32),
{
    let mut w: Word = [0u8; 32];
    let len = data.len();
    let mut i: usize = 0;
    while i < 32
        invariant
            i <= 32,
            len == data@.len(),
            at + 32 <= data@.len(),
            forall|j: int| 0 <= j < i ==> w@[j] == data@[at + j],
        decreases 32 - i,
    {
        w[i] = data[at + i];
        i = i + 1;
    }
    assert(w@ =~= data@.subrange(at as int, at + 32));
    w
}

/// Copies the 20 bytes of `data` that start at `at`.
pub fn read_address(data: &[u8], at: usize) -> (a: Address)
    requires
        at + 20 <= data@.len(),
    ensures
        a@ == data@.subrange(at as int, at + 20),
{
    let mut a: Address = [0u8; 20];
    let len = data.len();
    let mut i: usize = 0;
    while i < 20
        invariant
            i <= 20,
            len == data@.len(),
            at + 20 <= data@.len(),
            forall|j: int| 0 <= j < i ==> a@[j] == data@[at + j],
        decreases 20 - i,
    {
        a[i] = data[at + i];
        i = i + 1;
    }
    assert(a@ =~= data@.subrange(at as int, at + 20));
    a
}

/// Whether the bytes of `data` in `from..to` are all zero.
pub fn all_zero(data: &[u8], from: usize, to: usize) -> (r: bool)
    requires
        from <= to <= data@.len(),
    ensures
        r == all_zero_spec(data@.subrange(from as int, to as int)),
{
    let mut i: usize = from;
    while i < to
        invariant
            from <= i <= to <= data@.len(),
            forall|j: int| from <= j < i ==> data@[j] == 0,
        decreases to - i,
    {
        if data[i] != 0 {
            assert(data@.subrange(from as int, to as int)[i - from] != 0);
            return false;
        }
        i = i + 1;
    }
    true
}

/// Appends the bytes of `s` to `v`.
pub fn push_slice(v: &mut Vec<u8>, s: &[u8])
    ensures
        final(v)@ == old(v)@ + s@,
{
    let mut i: usize = 0;
    while i < s.len()
        invariant
            i <= s@.len(),
            v@ == old(v)@ + s@.subrange(0, i as int),
        decreases s@.len() - i,
    {
        v.push(s[i]);
        i = i + 1;
        assert(s@.subrange(0, i as int) =~= s@.subrange(0, i - 1).push(s@[i - 1]));
    }
    assert(s@.subrange(0, s@.len() as int) =~= s@);
}

/// Appends `n` zero bytes to `v`.
pub fn push_zeros(v: &mut Vec<u8>, n: usize)
    ensures
        final(v)@ == old(v)@ + zeros(n as nat),
{
    let mut i: usize = 0;
    while i < n
        invariant
            i <= n,
            v@ == old(v)@ + zeros(i as nat),
        decreases n - i,
    {
        v.push(0u8);
        i = i + 1;
        assert(zeros(i as nat) =~= zeros((i - 1) as nat).push(0u8));
    }
}

/// A word holding only the byte `b` in its last position.
pub fn small_word_exec(b: u8) -> (w: Word)
    ensures
        w@ == small_word(b),
{
    let mut w: Word = [0u8; 32];
    w[31] = b;
    assert(w@ =~= small_word(b));
    w
}

/// The word that left-pads an address with twelve zero bytes.
pub fn b160_to_b256(a: &Address) -> (w: Word)
    ensures
        w@ == zeros(12) + a@,
{
    let mut w: Word = [0u8; 32];
    let mut i: usize = 0;
    while i < 20
        invariant
            i <= 20,
            forall|j: int| 0 <= j < 12 ==> w@[j] == 0,
            forall|j: int| 0 <= j < i ==> w@[12 + j] == a@[j],
        decreases 20 - i,
    {
        w[12 + i] = a[i];
        i = i + 1;
    }
    assert(w@ =~= zeros(12) + a@);
    w
}

/// Whether two addresses are the same.
pub fn same_address(a: &Address, b: &Address) -> (r: bool)
    ensures
        r == (a@ == b@),
        r == (*a == *b),
{
    let mut i: usize = 0;
    while i < 20
        invariant
            i <= 20,
            forall|j: int| 0 <= j < i ==> a@[j] == b@[j],
        decreases 20 - i,
    {
        if a[i] != b[i] {
            return false;
        }
        i = i + 1;
    }
    assert(a@ =~= b@);
    proof {
        broadcast use vstd::array::axiom_array_ext_equal;
        assert(*a =~= *b);
    }
    true
}

/// `U256::from_be_slice` then `u32::try_from` (ruint, re-exported by revm):
/// the big-endian number of `bytes` if it fits in 32 bits, else `None`.
#[verifier::external_body]
pub(crate) fn word_to_u32(bytes: &[u8]) -> (r: Option<u32>)
    requires
        bytes@.len() <= 32,
    ensures
        r == (if be_value(bytes@) <= u32::MAX as nat {
            Some(be_value(bytes@) as u32)
        } else {
            None::<u32>
        }),
{
    match u32::try_from(U256::from_be_slice(bytes)) {
        Ok(v) => Some(v),
        Err(_) => None,
    }
}

/// `U256::from_be_slice` then `usize::try_from` (ruint, re-exported by revm):
/// the big-endian number of `bytes` if it fits in a `usize`, else `None`.
#[verifier::external_body]
pub(crate) fn word_to_usize(bytes: &[u8]) -> (r: Option<usize>)
    requires
        bytes@.len() <= 32,
    ensures
        r == (if be_value(bytes@) <= usize::MAX as nat {
            Some(be_value(bytes@) as usize)
        } else {
            None::<usize>
        }),
{
    match usize::try_from(U256::from_be_slice(bytes)) {
        Ok(v) => Some(v),
        Err(_) => None,
    }
}

/// `U256::from_be_slice(bytes)` turned into its 32 big-endian bytes: the
/// bytes left-padded to a word, which denotes the same number.
#[verifier::external_body]
pub(crate) fn word_from_be_slice(bytes: &[u8]) -> (w: Word)
    requires
        bytes@.len() <= 32,
    ensures
        be_value(w@) == be_value(bytes@),
{
    U256::from_be_slice(bytes).to_be_bytes::<32>()
}

/// `U256::from(x).to_be_bytes::<32>()`: the word that denotes `x`.
#[verifier::external_body]
pub(crate) fn word_from_u64(x: u64) -> (w: Word)
    ensures
        be_value(w@) == x as nat,
{
    U256::from(x).to_be_bytes::<32>()
}

/// `U256::checked_sub` on the numbers two words denote: the difference as a
/// word when `a >= b`, else `None`.
#[verifier::external_body]
pub(crate) fn word_checked_sub(a: &Word, b: &Word) -> (r: Option<Word>)
    ensures
        match r {
            Some(d) => be_value(a@) >= be_value(b@) && be_value(d@) == be_value(a@) - be_value(b@),
            None => be_value(a@) < be_value(b@),
        },
{
    match U256::from_be_bytes(*a).checked_sub(U256::from_be_bytes(*b)) {
        Some(d) => Some(d.to_be_bytes::<32>()),
        None => None,
    }
}

/// `U256::is_zero` on the number a word denotes.
#[verifier::external_body]
pub(crate) fn word_is_zero(a: &Word) -> (r: bool)
    ensures
        r == (be_value(a@) == 0),
{
    U256::from_be_bytes(*a).is_zero()
}

/// `keccak256` of alloy-primitives (re-exported by revm) on a byte string.
#[verifier::external_body]
pub(crate) fn keccak256(data: &[u8]) -> (h: Word)
    ensures
        h@ == keccak256_of(data@),
{
    revm::primitives::keccak256(data).0
}

} // verus!
