//! The canonical 256-bit word: 32 raw bytes in native order, with
//! endian-aware conversions, narrowing integer conversions, and address
//! extraction.
//!
//! The crate fixes the native byte order as little-endian, the layout under
//! which the word is bit-identical to the virtual machine's native 256-bit
//! unsigned integer type; big-endian conversions are full byte reversals.

use vstd::prelude::*;

verus! {

/// Number of bytes in a word.
pub const WORD_BYTES: usize = 32;

/// Number of bytes in an address.
pub const ADDRESS_BYTES: usize = 20;

/// The value of a byte sequence read as a little-endian unsigned integer.
pub open spec fn le_val(s: Seq<u8>) -> nat
    decreases s.len(),
{
    if s.len() == 0 {
        0
    } else {
        s[0] as nat + 256 * le_val(s.skip(1))
    }
}

/// 256 raised to the power `n`: the number of values a byte string of
/// length `n` can take.
pub open spec fn pow256(n: nat) -> nat
    decreases n,
{
    if n == 0 {
        1
    } else {
        256 * pow256((n - 1) as nat)
    }
}

/// The byte sequence `s` reversed.
pub open spec fn swapped(s: Seq<u8>) -> Seq<u8> {
    Seq::new(s.len(), |i: int| s[s.len() - 1 - i])
}

/// The all-zero byte sequence of word length.
pub open spec fn zero_word() -> Seq<u8> {
    Seq::new(WORD_BYTES as nat, |i: int| 0u8)
}

/// A native-endian 256-bit unsigned integer: 32 raw bytes.
///
/// An immutable value type; every operation returns a fresh word.
#[derive(Debug)]
pub struct EvmWord {
    bytes: Vec<u8>,
}

impl View for EvmWord {
    type V = Seq<u8>;

    closed spec fn view(&self) -> Seq<u8> {
        self.bytes@
    }
}

impl EvmWord {
    #[verifier::type_invariant]
    spec fn len_inv(self) -> bool {
        self.bytes@.len() == WORD_BYTES
    }

    /// The abstract value of this word.
    pub open spec fn value(self) -> nat {
        le_val(self@)
    }

    /// The zero word.
    pub fn zero() -> (r: Self)
        ensures
            r@ == zero_word(),
    {
        let mut bytes: Vec<u8> = Vec::new();
        let mut i: usize = 0;
        while i < WORD_BYTES
            invariant
                i <= WORD_BYTES,
                bytes@.len() == i,
                forall|j: int| 0 <= j < i ==> bytes@[j] == 0u8,
            decreases WORD_BYTES - i,
        {
            bytes.push(0u8);
            i = i + 1;
        }
        proof {
            assert(bytes@ =~= zero_word());
        }
        EvmWord { bytes }
    }

    /// Creates a word from native-endian bytes.
    pub fn from_ne_bytes(x: Vec<u8>) -> (r: Self)
        requires
            x@.len() == WORD_BYTES,
        ensures
            r@ == x@,
    {
        EvmWord { bytes: x }
    }

    /// Creates a word from big-endian bytes.
    pub fn from_be_bytes(x: Vec<u8>) -> (r: Self)
        requires
            x@.len() == WORD_BYTES,
        ensures
            r@ == swapped(x@),
    {
        Self::from_be(EvmWord { bytes: x })
    }

    /// Creates a word from little-endian bytes.
    pub fn from_le_bytes(x: Vec<u8>) -> (r: Self)
        requires
            x@.len() == WORD_BYTES,
        ensures
            r@ == x@,
    {
        Self::from_le(EvmWord { bytes: x })
    }

    /// Converts a word from big-endian to the native byte order: a full
    /// byte reversal.
    pub fn from_be(x: Self) -> (r: Self)
        ensures
            r@ == swapped(x@),
    {
        x.swap_bytes()
    }

    /// Converts a word from little-endian to the native byte order: a no-op.
    pub fn from_le(x: Self) -> (r: Self)
        ensures
            r@ == x@,
    {
        x
    }

    /// The bytes of this word in big-endian order.
    pub fn to_be_bytes(&self) -> (r: Vec<u8>)
        ensures
            r@ == swapped(self@),
            r@.len() == WORD_BYTES,
    {
        proof {
            use_type_invariant(self);
        }
        self.to_be().bytes
    }

    /// The bytes of this word in little-endian order.
    pub fn to_le_bytes(&self) -> (r: Vec<u8>)
        ensures
            r@ == self@,
            r@.len() == WORD_BYTES,
    {
        proof {
            use_type_invariant(self);
        }
        self.to_le().bytes
    }

    /// The bytes of this word in native order.
    pub fn to_ne_bytes(&self) -> (r: Vec<u8>)
        ensures
            r@ == self@,
            r@.len() == WORD_BYTES,
    {
        proof {
            use_type_invariant(self);
        }
        self.clone().bytes
    }

    /// Converts this word to big-endian from the native byte order: a full
    /// byte reversal.
    pub fn to_be(&self) -> (r: Self)
        ensures
            r@ == swapped(self@),
    {
        self.swap_bytes()
    }

    /// Converts this word to little-endian from the native byte order: a
    /// no-op.
    pub fn to_le(&self) -> (r: Self)
        ensures
            r@ == self@,
    {
        self.clone()
    }

    /// Reverses the byte order of this word.
    pub fn swap_bytes(&self) -> (r: Self)
        ensures
            r@ == swapped(self@),
    {
        proof {
            use_type_invariant(self);
        }
        let mut bytes: Vec<u8> = Vec::new();
        let mut i: usize = 0;
        while i < WORD_BYTES
            invariant
                self@.len() == WORD_BYTES,
                i <= WORD_BYTES,
                bytes@.len() == i,
                forall|j: int| 0 <= j < i ==> bytes@[j] == self@[WORD_BYTES - 1 - j],
            decreases WORD_BYTES - i,
        {
            bytes.push(self.bytes[WORD_BYTES - 1 - i]);
            i = i + 1;
        }
        proof {
            assert(bytes@ =~= swapped(self@));
        }
        EvmWord { bytes }
    }
}

impl EvmWord {
    /// Whether every byte from position `k` on is zero: whether the value
    /// fits in the low `k` bytes.
    fn high_bytes_zero(&self, k: usize) -> (r: bool)
        requires
            k <= WORD_BYTES,
        ensures
            r <==> (forall|i: int| k <= i < WORD_BYTES ==> self@[i] == 0u8),
    {
        proof {
            use_type_invariant(self);
        }
        let mut i: usize = k;
        while i < WORD_BYTES
            invariant
                k <= i <= WORD_BYTES,
                self@.len() == WORD_BYTES,
                forall|j: int| k <= j < i ==> self@[j] == 0u8,
            decreases WORD_BYTES - i,
        {
            if self.bytes[i] != 0 {
                return false;
            }
            i = i + 1;
        }
        true
    }

    /// The value of the low `k` bytes, read as a little-endian integer.
    fn le_prefix_value(&self, k: usize) -> (r: u128)
        requires
            k <= 16,
        ensures
            r as nat == le_val(self@.take(k as int)),
    {
        proof {
            use_type_invariant(self);
            lemma_pow256_values();
        }
        let mut acc: u128 = 0;
        let mut i: usize = k;
        while i > 0
            invariant
                i <= k <= 16,
                self@.len() == WORD_BYTES,
                acc as nat == le_val(self@.subrange(i as int, k as int)),
            decreases i,
        {
            let ghost pre = self@.subrange(i as int, k as int);
            let ghost cur = self@.subrange(i - 1, k as int);
            proof {
                lemma_pow256_values();
                lemma_le_val_bound(pre);
                lemma_pow256_mono(pre.len(), 15);
                assert(acc as nat <= pow256(15) - 1);
                assert(cur[0] == self@[i - 1]);
                assert(cur.skip(1) =~= pre);
                assert(le_val(cur) == self@[i - 1] + 256 * le_val(pre));
            }
            acc = acc * 256 + (self.bytes[i - 1] as u128);
            i = i - 1;
        }
        proof {
            assert(self@.subrange(0, k as int) =~= self@.take(k as int));
        }
        acc
    }

    /// Creates a word holding the value `v`: `v` in the low 16 bytes,
    /// little-endian, zeroes above.
    pub fn from_u128(v: u128) -> (r: Self)
        ensures
            r.value() == v as nat,
            r@.len() == WORD_BYTES,
    {
        proof {
            lemma_pow256_values();
        }
        let mut bytes: Vec<u8> = Vec::new();
        let mut rem: u128 = v;
        let mut i: usize = 0;
        while i < 16
            invariant
                i <= 16,
                bytes@.len() == i,
                le_val(bytes@) + (rem as nat) * pow256(i as nat) == v as nat,
            decreases 16 - i,
        {
            let b: u8 = (rem % 256) as u8;
            let ghost p: nat = pow256(i as nat);
            let ghost q: nat = (rem / 256) as nat;
            proof {
                lemma_le_val_push(bytes@, b);
                assert(rem as nat == 256 * q + (b as nat));
                assert((256 * q + (b as nat)) * p == (b as nat) * p + q * (256 * p))
                    by (nonlinear_arith);
                assert(pow256((i + 1) as nat) == 256 * p);
            }
            bytes.push(b);
            rem = rem / 256;
            i = i + 1;
        }
        proof {
            lemma_pow256_values();
            if rem > 0 {
                assert((rem as nat) * pow256(16) >= pow256(16)) by (nonlinear_arith)
                    requires
                        rem >= 1,
                        pow256(16) >= 1,
                ;
            }
            assert(rem == 0);
        }
        while i < WORD_BYTES
            invariant
                16 <= i <= WORD_BYTES,
                bytes@.len() == i,
                le_val(bytes@) == v as nat,
            decreases WORD_BYTES - i,
        {
            proof {
                lemma_le_val_push(bytes@, 0u8);
            }
            bytes.push(0u8);
            i = i + 1;
        }
        EvmWord { bytes }
    }

    /// Creates a word holding the value `v`.
    pub fn from_u64(v: u64) -> (r: Self)
        ensures
            r.value() == v as nat,
            r@.len() == WORD_BYTES,
    {
        Self::from_u128(v as u128)
    }

    /// Creates a word holding the value `v`.
    pub fn from_u32(v: u32) -> (r: Self)
        ensures
            r.value() == v as nat,
            r@.len() == WORD_BYTES,
    {
        Self::from_u128(v as u128)
    }

    /// Creates a word holding the value `v`.
    pub fn from_u16(v: u16) -> (r: Self)
        ensures
            r.value() == v as nat,
            r@.len() == WORD_BYTES,
    {
        Self::from_u128(v as u128)
    }

    /// Creates a word holding the value `v`.
    pub fn from_u8(v: u8) -> (r: Self)
        ensures
            r.value() == v as nat,
            r@.len() == WORD_BYTES,
    {
        Self::from_u128(v as u128)
    }

    /// Creates a word holding the value `v`.
    pub fn from_usize(v: usize) -> (r: Self)
        ensures
            r.value() == v as nat,
            r@.len() == WORD_BYTES,
    {
        Self::from_u128(v as u128)
    }

    /// Creates a word holding one for true, zero for false.
    pub fn from_bool(v: bool) -> (r: Self)
        ensures
            r.value() == (if v {
                1nat
            } else {
                0nat
            }),
            r@.len() == WORD_BYTES,
    {
        Self::from_u128(if v {
            1
        } else {
            0
        })
    }

    /// Narrows this word to a 128-bit integer; fails exactly when the value
    /// does not fit.
    pub fn try_to_u128(&self) -> (r: Option<u128>)
        ensures
            r is Some <==> self.value() < pow256(16),
            r matches Some(x) ==> x as nat == self.value(),
    {
        proof {
            use_type_invariant(self);
            lemma_value_fits_iff_high_zero(self@, 16);
        }
        if self.high_bytes_zero(16) {
            proof {
                lemma_le_val_split(self@, 16);
                lemma_le_val_zero(self@.skip(16));
            }
            Some(self.le_prefix_value(16))
        } else {
            None
        }
    }

    /// Narrows this word to a 64-bit integer; fails exactly when the value
    /// does not fit.
    pub fn try_to_u64(&self) -> (r: Option<u64>)
        ensures
            r is Some <==> self.value() < pow256(8),
            r matches Some(x) ==> x as nat == self.value(),
    {
        proof {
            use_type_invariant(self);
            lemma_value_fits_iff_high_zero(self@, 8);
            lemma_pow256_values();
        }
        if self.high_bytes_zero(8) {
            proof {
                lemma_le_val_split(self@, 8);
                lemma_le_val_zero(self@.skip(8));
                lemma_le_val_bound(self@.take(8));
            }
            Some(self.le_prefix_value(8) as u64)
        } else {
            None
        }
    }

    /// Narrows this word to a 32-bit integer; fails exactly when the value
    /// does not fit.
    pub fn try_to_u32(&self) -> (r: Option<u32>)
        ensures
            r is Some <==> self.value() < pow256(4),
            r matches Some(x) ==> x as nat == self.value(),
    {
        proof {
            use_type_invariant(self);
            lemma_value_fits_iff_high_zero(self@, 4);
            lemma_pow256_values();
        }
        if self.high_bytes_zero(4) {
            proof {
                lemma_le_val_split(self@, 4);
                lemma_le_val_zero(self@.skip(4));
                lemma_le_val_bound(self@.take(4));
            }
            Some(self.le_prefix_value(4) as u32)
        } else {
            None
        }
    }

    /// Narrows this word to a 16-bit integer; fails exactly when the value
    /// does not fit.
    pub fn try_to_u16(&self) -> (r: Option<u16>)
        ensures
            r is Some <==> self.value() < pow256(2),
            r matches Some(x) ==> x as nat == self.value(),
    {
        proof {
            use_type_invariant(self);
            lemma_value_fits_iff_high_zero(self@, 2);
            lemma_pow256_values();
        }
        if self.high_bytes_zero(2) {
            proof {
                lemma_le_val_split(self@, 2);
                lemma_le_val_zero(self@.skip(2));
                lemma_le_val_bound(self@.take(2));
            }
            Some(self.le_prefix_value(2) as u16)
        } else {
            None
        }
    }

    /// Narrows this word to a byte; fails exactly when the value does not
    /// fit.
    pub fn try_to_u8(&self) -> (r: Option<u8>)
        ensures
            r is Some <==> self.value() < pow256(1),
            r matches Some(x) ==> x as nat == self.value(),
    {
        proof {
            use_type_invariant(self);
            lemma_value_fits_iff_high_zero(self@, 1);
            lemma_pow256_values();
        }
        if self.high_bytes_zero(1) {
            proof {
                lemma_le_val_split(self@, 1);
                lemma_le_val_zero(self@.skip(1));
                lemma_le_val_bound(self@.take(1));
            }
            Some(self.le_prefix_value(1) as u8)
        } else {
            None
        }
    }

    /// Narrows this word to a pointer-sized integer; fails exactly when the
    /// value does not fit.
    pub fn try_to_usize(&self) -> (r: Option<usize>)
        ensures
            r is Some <==> self.value() <= usize::MAX as nat,
            r matches Some(x) ==> x as nat == self.value(),
    {
        proof {
            lemma_pow256_values();
        }
        match self.try_to_u128() {
            Some(x) => {
                if x <= usize::MAX as u128 {
                    Some(x as usize)
                } else {
                    None
                }
            },
            Option::None => None,
        }
    }

    /// Narrows this word to a boolean; fails exactly when the value is
    /// above one.
    pub fn try_to_bool(&self) -> (r: Option<bool>)
        ensures
            r is Some <==> self.value() <= 1,
            r matches Some(x) ==> (x <==> self.value() == 1),
    {
        proof {
            lemma_pow256_values();
        }
        match self.try_to_u8() {
            Some(b) => {
                if b <= 1 {
                    Some(b == 1)
                } else {
                    None
                }
            },
            Option::None => None,
        }
    }
}

impl Clone for EvmWord {
    fn clone(&self) -> (r: Self)
        ensures
            r@ == self@,
    {
        proof {
            use_type_invariant(self);
        }
        let mut bytes: Vec<u8> = Vec::new();
        let mut i: usize = 0;
        while i < WORD_BYTES
            invariant
                self@.len() == WORD_BYTES,
                i <= WORD_BYTES,
                bytes@.len() == i,
                forall|j: int| 0 <= j < i ==> bytes@[j] == self@[j],
            decreases WORD_BYTES - i,
        {
            bytes.push(self.bytes[i]);
            i = i + 1;
        }
        proof {
            assert(bytes@ =~= self@);
        }
        EvmWord { bytes }
    }
}

impl PartialEq for EvmWord {
    fn eq(&self, other: &Self) -> bool {
        proof {
            use_type_invariant(self);
            use_type_invariant(other);
        }
        let mut i: usize = 0;
        while i < WORD_BYTES
            invariant
                i <= WORD_BYTES,
                self@.len() == WORD_BYTES,
                other@.len() == WORD_BYTES,
                forall|j: int| 0 <= j < i ==> self@[j] == other@[j],
            decreases WORD_BYTES - i,
        {
            if self.bytes[i] != other.bytes[i] {
                return false;
            }
            i = i + 1;
        }
        proof {
            assert(self@ =~= other@);
        }
        true
    }
}

impl Eq for EvmWord {

}

impl vstd::std_specs::cmp::PartialEqSpecImpl for EvmWord {
    open spec fn obeys_eq_spec() -> bool {
        true
    }

    open spec fn eq_spec(&self, other: &EvmWord) -> bool {
        self@ == other@
    }
}

/// A 20-byte account address.
#[derive(Debug)]
pub struct Address {
    bytes: Vec<u8>,
}

impl View for Address {
    type V = Seq<u8>;

    closed spec fn view(&self) -> Seq<u8> {
        self.bytes@
    }
}

impl Address {
    #[verifier::type_invariant]
    spec fn len_inv(self) -> bool {
        self.bytes@.len() == ADDRESS_BYTES
    }

    /// Creates an address from its 20 bytes.
    pub fn from_bytes(x: Vec<u8>) -> (r: Self)
        requires
            x@.len() == ADDRESS_BYTES,
        ensures
            r@ == x@,
    {
        Address { bytes: x }
    }

    /// The bytes of this address.
    pub fn to_bytes(&self) -> (r: Vec<u8>)
        ensures
            r@ == self@,
    {
        self.clone().bytes
    }
}

impl Clone for Address {
    fn clone(&self) -> (r: Self)
        ensures
            r@ == self@,
    {
        proof {
            use_type_invariant(self);
        }
        let mut bytes: Vec<u8> = Vec::new();
        let mut i: usize = 0;
        while i < ADDRESS_BYTES
            invariant
                self@.len() == ADDRESS_BYTES,
                i <= ADDRESS_BYTES,
                bytes@.len() == i,
                forall|j: int| 0 <= j < i ==> bytes@[j] == self@[j],
            decreases ADDRESS_BYTES - i,
        {
            bytes.push(self.bytes[i]);
            i = i + 1;
        }
        proof {
            assert(bytes@ =~= self@);
        }
        Address { bytes }
    }
}

impl PartialEq for Address {
    fn eq(&self, other: &Self) -> bool {
        proof {
            use_type_invariant(self);
            use_type_invariant(other);
        }
        let mut i: usize = 0;
        while i < ADDRESS_BYTES
            invariant
                i <= ADDRESS_BYTES,
                self@.len() == ADDRESS_BYTES,
                other@.len() == ADDRESS_BYTES,
                forall|j: int| 0 <= j < i ==> self@[j] == other@[j],
            decreases ADDRESS_BYTES - i,
        {
            if self.bytes[i] != other.bytes[i] {
                return false;
            }
            i = i + 1;
        }
        proof {
            assert(self@ =~= other@);
        }
        true
    }
}

impl Eq for Address {

}

impl vstd::std_specs::cmp::PartialEqSpecImpl for Address {
    open spec fn obeys_eq_spec() -> bool {
        true
    }

    open spec fn eq_spec(&self, other: &Address) -> bool {
        self@ == other@
    }
}

impl EvmWord {
    /// Extracts the trailing 20 bytes of this word's big-endian form as an
    /// address, discarding the leading 12 bytes unconditionally.
    pub fn to_address(&self) -> (r: Address)
        ensures
            r@ == swapped(self@).subrange(12, WORD_BYTES as int),
    {
        proof {
            use_type_invariant(self);
        }
        let mut bytes: Vec<u8> = Vec::new();
        let mut i: usize = 0;
        while i < ADDRESS_BYTES
            invariant
                self@.len() == WORD_BYTES,
                i <= ADDRESS_BYTES,
                bytes@.len() == i,
                forall|j: int| 0 <= j < i ==> bytes@[j] == self@[ADDRESS_BYTES - 1 - j],
            decreases ADDRESS_BYTES - i,
        {
            bytes.push(self.bytes[ADDRESS_BYTES - 1 - i]);
            i = i + 1;
        }
        proof {
            assert(bytes@ =~= swapped(self@).subrange(12, WORD_BYTES as int));
        }
        Address { bytes }
    }
}

/// Appending a byte raises the value by that byte times the weight of the
/// new position.
pub proof fn lemma_le_val_push(s: Seq<u8>, b: u8)
    ensures
        le_val(s.push(b)) == le_val(s) + b * pow256(s.len()),
    decreases s.len(),
{
    if s.len() == 0 {
        assert(s.push(b).skip(1) =~= Seq::<u8>::empty());
        assert(s.push(b)[0] == b);
        assert(le_val(s.push(b).skip(1)) == 0);
        assert(le_val(s.push(b)) == b + 256 * le_val(s.push(b).skip(1)));
        assert(le_val(s) == 0);
        assert(pow256(s.len()) == 1);
    } else {
        assert(s.push(b).skip(1) =~= s.skip(1).push(b));
        lemma_le_val_push(s.skip(1), b);
        let p: nat = pow256(s.skip(1).len());
        let x: nat = le_val(s.skip(1));
        assert(s.push(b)[0] == s[0]);
        assert(le_val(s.push(b)) == s[0] + 256 * le_val(s.skip(1).push(b)));
        assert(le_val(s.skip(1).push(b)) == x + (b as nat) * p);
        assert(s[0] + 256 * (x + (b as nat) * p) == (s[0] as nat) + 256 * x + (b as nat) * (256
            * p)) by (nonlinear_arith);
        assert(pow256(s.len()) == 256 * p);
        assert(le_val(s) == s[0] + 256 * x);
    }
}

/// A byte sequence's value is below the weight of its length.
pub proof fn lemma_le_val_bound(s: Seq<u8>)
    ensures
        le_val(s) < pow256(s.len()),
    decreases s.len(),
{
    if s.len() == 0 {
    } else {
        lemma_le_val_bound(s.skip(1));
    }
}

/// Every weight is positive.
pub proof fn lemma_pow256_pos(n: nat)
    ensures
        pow256(n) >= 1,
    decreases n,
{
    if n > 0 {
        lemma_pow256_pos((n - 1) as nat);
    }
}

/// Weights grow with the exponent.
pub proof fn lemma_pow256_mono(a: nat, b: nat)
    requires
        a <= b,
    ensures
        pow256(a) <= pow256(b),
    decreases b,
{
    if a < b {
        lemma_pow256_mono(a, (b - 1) as nat);
        lemma_pow256_pos((b - 1) as nat);
    }
}

/// The small weights, written out.
pub proof fn lemma_pow256_values()
    ensures
        pow256(0) == 1,
        pow256(1) == 0x100,
        pow256(2) == 0x10000,
        pow256(4) == 0x100000000,
        pow256(8) == 0x10000000000000000,
        pow256(16) == 0x100000000000000000000000000000000,
    {
        assert(pow256(0) == 1);
        assert(pow256(1) == 0x100);
        assert(pow256(2) == 0x10000);
        assert(pow256(3) == 0x1000000);
        assert(pow256(4) == 0x100000000);
        assert(pow256(5) == 0x10000000000);
        assert(pow256(6) == 0x1000000000000);
        assert(pow256(7) == 0x100000000000000);
        assert(pow256(8) == 0x10000000000000000);
        assert(pow256(9) == 0x1000000000000000000);
        assert(pow256(10) == 0x100000000000000000000);
        assert(pow256(11) == 0x10000000000000000000000);
        assert(pow256(12) == 0x1000000000000000000000000);
        assert(pow256(13) == 0x100000000000000000000000000);
        assert(pow256(14) == 0x10000000000000000000000000000);
        assert(pow256(15) == 0x1000000000000000000000000000000);
        assert(pow256(16) == 0x100000000000000000000000000000000);
    }

/// A value splits at any position into its low prefix plus its weighted
/// high suffix.
pub proof fn lemma_le_val_split(s: Seq<u8>, k: int)
    requires
        0 <= k <= s.len(),
    ensures
        le_val(s) == le_val(s.take(k)) + pow256(k as nat) * le_val(s.skip(k)),
    decreases k,
{
    if k == 0 {
        assert(s.take(0) =~= Seq::<u8>::empty());
        assert(s.skip(0) =~= s);
        assert(le_val(s.take(0)) == 0);
        assert(pow256(0) == 1);
        assert(le_val(s) == le_val(s.take(0)) + pow256(0) * le_val(s.skip(0)));
    } else {
        lemma_le_val_split(s.skip(1), k - 1);
        assert(s.take(k).skip(1) =~= s.skip(1).take(k - 1));
        assert(s.skip(k) =~= s.skip(1).skip(k - 1));
        assert(s.take(k)[0] == s[0]);
        let a: nat = le_val(s.skip(1).take(k - 1));
        let p: nat = pow256((k - 1) as nat);
        let h: nat = le_val(s.skip(k));
        assert(s.take(k).len() == k);
        assert(le_val(s.take(k)) == s.take(k)[0] + 256 * le_val(s.take(k).skip(1)));
        assert(le_val(s.take(k)) == s[0] + 256 * a);
        assert(le_val(s.skip(1)) == a + p * h);
        assert(le_val(s) == s[0] + 256 * le_val(s.skip(1)));
        assert(s[0] + 256 * (a + p * h) == (s[0] as nat) + 256 * a + (256 * p) * h)
            by (nonlinear_arith);
        assert(pow256(k as nat) == 256 * p);
        assert(le_val(s) == le_val(s.take(k)) + (256 * p) * h);
        assert(pow256(k as nat) * h == (256 * p) * h);
    }
}

/// A value is zero exactly when every byte is zero.
pub proof fn lemma_le_val_zero(s: Seq<u8>)
    ensures
        le_val(s) == 0 <==> (forall|i: int| 0 <= i < s.len() ==> s[i] == 0u8),
    decreases s.len(),
{
    if s.len() == 0 {
    } else {
        lemma_le_val_zero(s.skip(1));
        if le_val(s) == 0 {
            assert(forall|i: int|
                0 <= i < s.len() ==> #[trigger] s[i] == (if i == 0 {
                    s[0]
                } else {
                    s.skip(1)[i - 1]
                }));
        }
        if forall|i: int| 0 <= i < s.len() ==> s[i] == 0u8 {
            assert(forall|i: int| 0 <= i < s.skip(1).len() ==> s.skip(1)[i] == 0u8);
        }
    }
}

/// A value fits in the low `k` bytes exactly when every byte from position
/// `k` on is zero: the narrowing conversions succeed on just these words.
pub proof fn lemma_value_fits_iff_high_zero(s: Seq<u8>, k: int)
    requires
        0 <= k <= s.len(),
    ensures
        le_val(s) < pow256(k as nat) <==> (forall|i: int| k <= i < s.len() ==> s[i] == 0u8),
{
    lemma_le_val_split(s, k);
    lemma_le_val_bound(s.take(k));
    lemma_le_val_zero(s.skip(k));
    if le_val(s.skip(k)) == 0 {
        assert(forall|i: int| k <= i < s.len() ==> s[i] == s.skip(k)[i - k]);
    } else {
        lemma_pow256_pos(k as nat);
        let p: nat = pow256(k as nat);
        let h: nat = le_val(s.skip(k));
        assert(p * h >= p) by (nonlinear_arith)
            requires
                p >= 1,
                h >= 1,
        ;
    }
    assert(forall|i: int| k <= i < s.len() ==> s.skip(k)[i - k] == s[i]);
}

/// Two byte sequences of one length with one value are the same sequence:
/// the value abstraction loses nothing.
pub proof fn lemma_le_val_injective(s: Seq<u8>, t: Seq<u8>)
    requires
        s.len() == t.len(),
        le_val(s) == le_val(t),
    ensures
        s == t,
    decreases s.len(),
{
    if s.len() == 0 {
        assert(s =~= t);
    } else {
        vstd::arithmetic::div_mod::lemma_fundamental_div_mod_converse(
            le_val(s) as int,
            256,
            le_val(s.skip(1)) as int,
            s[0] as int,
        );
        vstd::arithmetic::div_mod::lemma_fundamental_div_mod_converse(
            le_val(t) as int,
            256,
            le_val(t.skip(1)) as int,
            t[0] as int,
        );
        lemma_le_val_injective(s.skip(1), t.skip(1));
        assert(forall|i: int|
            0 <= i < s.len() ==> #[trigger] s[i] == (if i == 0 {
                s[0]
            } else {
                s.skip(1)[i - 1]
            }));
        assert(forall|i: int|
            0 <= i < t.len() ==> #[trigger] t[i] == (if i == 0 {
                t[0]
            } else {
                t.skip(1)[i - 1]
            }));
        assert(s =~= t);
    }
}

/// Reversing a byte sequence twice restores it: a word rebuilt from its
/// big-endian bytes is the original word, the round trip promised by
/// `to_be_bytes` followed by `from_be_bytes` (the little-endian and
/// native-order round trips hold directly, those conversions being
/// identities on the view).
pub proof fn lemma_swapped_involutive(s: Seq<u8>)
    ensures
        swapped(swapped(s)) == s,
{
    assert(swapped(swapped(s)) =~= s);
}

} // verus!
