//! A bit-indexed view over a fixed-width unsigned integer, used to read and
//! modify single bits of control and memory-mapped device registers.
use vstd::prelude::*;

verus! {

/// One bit of a register: its position and the value it is to take.
pub type RegisterEntry = (usize, bool);

/// The fixed-width unsigned integers that a [`BinaryStruct`] can wrap.
pub trait BinaryOperations: Sized + Copy {
    /// Number of bits in a value of the type.
    spec fn width() -> nat;

    /// Number of distinct values of the type (two to the power of the width).
    spec fn modulus() -> nat;

    /// The value as a natural number.
    spec fn value(self) -> nat;

    /// Whether bit `i` (counted from the least significant) is one.
    spec fn bit(self, i: nat) -> bool;

    /// The value with bit `bit` set to `set`.
    spec fn set_bit_value(self, bit: nat, set: bool) -> Self;

    proof fn lemma_width_fits()
        ensures
            0 < Self::width() <= 64,
            Self::width() < Self::modulus(),
    ;

    fn bit_size() -> (r: usize)
        ensures
            r as nat == Self::width(),
    ;

    fn one() -> (r: Self)
        ensures
            r.value() == 1,
    ;

    fn zero() -> (r: Self)
        ensures
            r.value() == 0,
            forall|i: nat| i < Self::width() ==> !r.bit(i),
    ;

    fn ten() -> (r: Self)
        ensures
            r.value() == 10,
    ;

    /// Flips every bit.
    fn inverse(self) -> (r: Self)
        ensures
            forall|i: nat| i < Self::width() ==> r.bit(i) == !self.bit(i),
    ;

    /// Converts, keeping the low bits that fit.
    fn from(data: usize) -> (r: Self)
        ensures
            r.value() == data as nat % Self::modulus(),
    ;

    /// The low eight bits.
    fn into_u8(self) -> (r: u8)
        ensures
            r as nat == self.value() % 256,
    ;

    /// Whether the bit at position `bit` is one.
    fn test_bit(self, bit: Self) -> (r: bool)
        requires
            bit.value() < Self::width(),
        ensures
            r == self.bit(bit.value()),
    ;

    /// The value with the bit at position `bit` set to `set` and every other bit kept.
    fn with_bit(self, bit: Self, set: bool) -> (r: Self)
        requires
            bit.value() < Self::width(),
        ensures
            r == self.set_bit_value(bit.value(), set),
            forall|i: nat|
                i < Self::width() ==> #[trigger] r.bit(i) == if i == bit.value() {
                    set
                } else {
                    self.bit(i)
                },
    ;
}

} // verus!

verus! {

impl BinaryOperations for u8 {
    open spec fn width() -> nat {
        8
    }

    open spec fn modulus() -> nat {
        0x100
    }

    open spec fn value(self) -> nat {
        self as nat
    }

    open spec fn bit(self, i: nat) -> bool {
        i < 8 && (self >> i as u8) & 1 == 1
    }

    open spec fn set_bit_value(self, bit: nat, set: bool) -> Self {
        if set {
            self | (1u8 << bit as u8)
        } else {
            self & !(1u8 << bit as u8)
        }
    }

    proof fn lemma_width_fits() {
    }

    fn bit_size() -> (r: usize) {
        u8::BITS as usize
    }

    fn one() -> (r: Self) {
        1
    }

    fn zero() -> (r: Self) {
        assert forall|i: nat| i < 8 implies !#[trigger] 0u8.bit(i) by {
            let j = i as u8;
            assert((0u8 >> j) & 1 == 0) by (bit_vector);
        }
        0
    }

    fn ten() -> (r: Self) {
        10
    }

    fn inverse(self) -> (r: Self) {
        let r = !self;
        assert forall|i: nat| i < 8 implies r.bit(i) == !self.bit(i) by {
            let j = i as u8;
            let x = self;
            assert(((!x >> j) & 1 == 1) == !((x >> j) & 1 == 1)) by (bit_vector)
                requires
                    j < 8,
            ;
        }
        r
    }

    fn from(data: usize) -> (r: Self) {
        (data % 0x100) as u8
    }

    fn into_u8(self) -> (r: u8) {
        self
    }

    fn test_bit(self, bit: Self) -> (r: bool) {
        let x = self;
        assert(((x & (1u8 << bit)) != 0) == ((x >> bit) & 1 == 1)) by (bit_vector)
            requires
                bit < 8,
        ;
        x & (1u8 << bit) != 0
    }

    fn with_bit(self, bit: Self, set: bool) -> (r: Self) {
        let x = self;
        let r = if set {
            x | (1u8 << bit)
        } else {
            x & !(1u8 << bit)
        };
        assert forall|i: nat| i < 8 implies #[trigger] r.bit(i) == if i == bit as nat {
            set
        } else {
            x.bit(i)
        } by {
            let j = i as u8;
            if set {
                assert(((x | (1u8 << bit)) >> j) & 1 == if j == bit { 1u8 } else { (x >> j) & 1 })
                    by (bit_vector)
                    requires
                        bit < 8,
                        j < 8,
                ;
            } else {
                assert(((x & !(1u8 << bit)) >> j) & 1 == if j == bit { 0u8 } else { (x >> j) & 1 })
                    by (bit_vector)
                    requires
                        bit < 8,
                        j < 8,
                ;
            }
        }
        r
    }
}

impl BinaryOperations for u32 {
    open spec fn width() -> nat {
        32
    }

    open spec fn modulus() -> nat {
        0x1_0000_0000
    }

    open spec fn value(self) -> nat {
        self as nat
    }

    open spec fn bit(self, i: nat) -> bool {
        i < 32 && (self >> i as u32) & 1 == 1
    }

    open spec fn set_bit_value(self, bit: nat, set: bool) -> Self {
        if set {
            self | (1u32 << bit as u32)
        } else {
            self & !(1u32 << bit as u32)
        }
    }

    proof fn lemma_width_fits() {
    }

    fn bit_size() -> (r: usize) {
        u32::BITS as usize
    }

    fn one() -> (r: Self) {
        1
    }

    fn zero() -> (r: Self) {
        assert forall|i: nat| i < 32 implies !#[trigger] 0u32.bit(i) by {
            let j = i as u32;
            assert((0u32 >> j) & 1 == 0) by (bit_vector);
        }
        0
    }

    fn ten() -> (r: Self) {
        10
    }

    fn inverse(self) -> (r: Self) {
        let r = !self;
        assert forall|i: nat| i < 32 implies r.bit(i) == !self.bit(i) by {
            let j = i as u32;
            let x = self;
            assert(((!x >> j) & 1 == 1) == !((x >> j) & 1 == 1)) by (bit_vector)
                requires
                    j < 32,
            ;
        }
        r
    }

    fn from(data: usize) -> (r: Self) {
        (data as u64 % 0x1_0000_0000) as u32
    }

    fn into_u8(self) -> (r: u8) {
        (self % 0x100) as u8
    }

    fn test_bit(self, bit: Self) -> (r: bool) {
        let x = self;
        assert(((x & (1u32 << bit)) != 0) == ((x >> bit) & 1 == 1)) by (bit_vector)
            requires
                bit < 32,
        ;
        x & (1u32 << bit) != 0
    }

    fn with_bit(self, bit: Self, set: bool) -> (r: Self) {
        let x = self;
        let r = if set {
            x | (1u32 << bit)
        } else {
            x & !(1u32 << bit)
        };
        assert forall|i: nat| i < 32 implies #[trigger] r.bit(i) == if i == bit as nat {
            set
        } else {
            x.bit(i)
        } by {
            let j = i as u32;
            if set {
                assert(((x | (1u32 << bit)) >> j) & 1 == if j == bit { 1u32 } else { (x >> j) & 1 })
                    by (bit_vector)
                    requires
                        bit < 32,
                        j < 32,
                ;
            } else {
                assert(((x & !(1u32 << bit)) >> j) & 1 == if j == bit { 0u32 } else { (x >> j) & 1 })
                    by (bit_vector)
                    requires
                        bit < 32,
                        j < 32,
                ;
            }
        }
        r
    }
}


impl BinaryOperations for u64 {
    open spec fn width() -> nat {
        64
    }

    open spec fn modulus() -> nat {
        0x1_0000_0000_0000_0000
    }

    open spec fn value(self) -> nat {
        self as nat
    }

    open spec fn bit(self, i: nat) -> bool {
        i < 64 && (self >> i as u64) & 1 == 1
    }

    open spec fn set_bit_value(self, bit: nat, set: bool) -> Self {
        if set {
            self | (1u64 << bit as u64)
        } else {
            self & !(1u64 << bit as u64)
        }
    }

    proof fn lemma_width_fits() {
    }

    fn bit_size() -> (r: usize) {
        u64::BITS as usize
    }

    fn one() -> (r: Self) {
        1
    }

    fn zero() -> (r: Self) {
        assert forall|i: nat| i < 64 implies !#[trigger] 0u64.bit(i) by {
            let j = i as u64;
            assert((0u64 >> j) & 1 == 0) by (bit_vector);
        }
        0
    }

    fn ten() -> (r: Self) {
        10
    }

    fn inverse(self) -> (r: Self) {
        let r = !self;
        assert forall|i: nat| i < 64 implies r.bit(i) == !self.bit(i) by {
            let j = i as u64;
            let x = self;
            assert(((!x >> j) & 1 == 1) == !((x >> j) & 1 == 1)) by (bit_vector)
                requires
                    j < 64,
            ;
        }
        r
    }

    fn from(data: usize) -> (r: Self) {
        data as u64
    }

    fn into_u8(self) -> (r: u8) {
        (self % 0x100) as u8
    }

    fn test_bit(self, bit: Self) -> (r: bool) {
        let x = self;
        assert(((x & (1u64 << bit)) != 0) == ((x >> bit) & 1 == 1)) by (bit_vector)
            requires
                bit < 64,
        ;
        x & (1u64 << bit) != 0
    }

    fn with_bit(self, bit: Self, set: bool) -> (r: Self) {
        let x = self;
        let r = if set {
            x | (1u64 << bit)
        } else {
            x & !(1u64 << bit)
        };
        assert forall|i: nat| i < 64 implies #[trigger] r.bit(i) == if i == bit as nat {
            set
        } else {
            x.bit(i)
        } by {
            let j = i as u64;
            if set {
                assert(((x | (1u64 << bit)) >> j) & 1 == if j == bit { 1u64 } else { (x >> j) & 1 })
                    by (bit_vector)
                    requires
                        bit < 64,
                        j < 64,
                ;
            } else {
                assert(((x & !(1u64 << bit)) >> j) & 1 == if j == bit { 0u64 } else { (x >> j) & 1 })
                    by (bit_vector)
                    requires
                        bit < 64,
                        j < 64,
                ;
            }
        }
        r
    }
}


impl BinaryOperations for usize {
    open spec fn width() -> nat {
        usize::BITS as nat
    }

    open spec fn modulus() -> nat {
        usize::MAX as nat + 1
    }

    open spec fn value(self) -> nat {
        self as nat
    }

    open spec fn bit(self, i: nat) -> bool {
        i < usize::BITS && (self >> i as usize) & 1 == 1
    }

    open spec fn set_bit_value(self, bit: nat, set: bool) -> Self {
        if set {
            self | (1usize << bit as usize)
        } else {
            self & !(1usize << bit as usize)
        }
    }

    proof fn lemma_width_fits() {
        vstd::layout::unsigned_int_max_values();
        vstd::arithmetic::power2::lemma2_to64();
        assert(usize::BITS == 32 || usize::BITS == 64);
    }

    fn bit_size() -> (r: usize) {
        usize::BITS as usize
    }

    fn one() -> (r: Self) {
        1
    }

    fn zero() -> (r: Self) {
        assert forall|i: nat| i < usize::BITS implies !#[trigger] 0usize.bit(i) by {
            let j = i as usize;
            assert((0usize >> j) & 1 == 0) by (bit_vector);
        }
        0
    }

    fn ten() -> (r: Self) {
        10
    }

    fn inverse(self) -> (r: Self) {
        let r = !self;
        assert forall|i: nat| i < usize::BITS implies r.bit(i) == !self.bit(i) by {
            let j = i as usize;
            let x = self;
            assert(((!x >> j) & 1 == 1) == !((x >> j) & 1 == 1)) by (bit_vector)
                requires
                    j < usize::BITS,
            ;
        }
        r
    }

    fn from(data: usize) -> (r: Self) {
        proof {
            vstd::arithmetic::div_mod::lemma_small_mod(data as nat, usize::MAX as nat + 1);
        }
        data
    }

    fn into_u8(self) -> (r: u8) {
        (self % 0x100) as u8
    }

    fn test_bit(self, bit: Self) -> (r: bool) {
        let x = self;
        assert(((x & (1usize << bit)) != 0) == ((x >> bit) & 1 == 1)) by (bit_vector)
            requires
                bit < usize::BITS,
        ;
        x & (1usize << bit) != 0
    }

    fn with_bit(self, bit: Self, set: bool) -> (r: Self) {
        let x = self;
        let r = if set {
            x | (1usize << bit)
        } else {
            x & !(1usize << bit)
        };
        assert forall|i: nat| i < usize::BITS implies #[trigger] r.bit(i) == if i == bit as nat {
            set
        } else {
            x.bit(i)
        } by {
            let j = i as usize;
            if set {
                assert(((x | (1usize << bit)) >> j) & 1 == if j == bit { 1usize } else { (x >> j) & 1 })
                    by (bit_vector)
                    requires
                        bit < usize::BITS,
                        j < usize::BITS,
                ;
            } else {
                assert(((x & !(1usize << bit)) >> j) & 1 == if j == bit { 0usize } else { (x >> j) & 1 })
                    by (bit_vector)
                    requires
                        bit < usize::BITS,
                        j < usize::BITS,
                ;
            }
        }
        r
    }
}

} // verus!

verus! {

/// A register value viewed bit by bit.
#[derive(Clone, Copy)]
pub struct BinaryStruct<T>(T);

/// A byte-wide register.
pub type Byte = BinaryStruct<u8>;

impl<T> View for BinaryStruct<T> {
    type V = T;

    closed spec fn view(&self) -> T {
        self.0
    }
}

/// Whether bit `bit` of `b` reads as one: never for a position beyond the width.
pub open spec fn bit_spec<T: BinaryOperations>(b: BinaryStruct<T>, bit: nat) -> bool {
    bit < T::width() && b@.bit(bit)
}

/// What writing `set` at position `bit` of `pre` leaves: the same value for a
/// position beyond the width; otherwise that bit equal to `set` and all other
/// bits as they were.
pub open spec fn at_post<T: BinaryOperations>(
    pre: BinaryStruct<T>,
    bit: nat,
    set: bool,
    post: BinaryStruct<T>,
) -> bool {
    if bit >= T::width() {
        post == pre
    } else {
        &&& post@ == pre@.set_bit_value(bit, set)
        &&& forall|i: nat|
            i < T::width() ==> #[trigger] bit_spec(post, i) == if i == bit {
                set
            } else {
                bit_spec(pre, i)
            }
    }
}

impl<T: BinaryOperations> BinaryStruct<T> {
    /// Whether the bit at position `bit` is one; `false` beyond the width.
    pub fn is_set(&self, bit: usize) -> (r: bool)
        ensures
            r == bit_spec(*self, bit as nat),
    {
        match Self::transform_bit(bit) {
            Some(b) => self.0.test_bit(b),
            None => false,
        }
    }

    /// Sets the bit at position `bit` to `set`, leaving the others; does
    /// nothing beyond the width.
    pub fn at(&mut self, bit: usize, set: bool)
        ensures
            at_post(*old(self), bit as nat, set, *final(self)),
    {
        let b = match Self::transform_bit(bit) {
            Some(b) => b,
            None => return,
        };
        self.0 = self.0.with_bit(b, set);
    }

    /// Writes one register entry: the bit position and the value it takes.
    pub fn write_register_entry(&mut self, register_entry: RegisterEntry)
        ensures
            at_post(*old(self), register_entry.0 as nat, register_entry.1, *final(self)),
    {
        let (bit, set) = register_entry;
        self.at(bit, set)
    }

    /// The whole register value.
    pub fn get(&self) -> (r: T)
        ensures
            r == self@,
    {
        self.0
    }

    /// The bit position as a value of the register type, where it lies within the width.
    fn transform_bit(bit: usize) -> (r: Option<T>)
        ensures
            bit < T::width() ==> r.is_some() && r.unwrap().value() == bit,
            bit >= T::width() ==> r.is_none(),
    {
        if bit >= T::bit_size() {
            return None;
        }
        proof {
            T::lemma_width_fits();
            vstd::arithmetic::div_mod::lemma_small_mod(bit as nat, T::modulus());
        }
        Some(T::from(bit))
    }
}

impl<T> From<T> for BinaryStruct<T> {
    fn from(data: T) -> (r: Self) {
        BinaryStruct(data)
    }
}

impl<T> vstd::std_specs::convert::FromSpecImpl<T> for BinaryStruct<T> {
    open spec fn obeys_from_spec() -> bool {
        true
    }

    closed spec fn from_spec(data: T) -> Self {
        BinaryStruct(data)
    }
}

/// Wrapping a value keeps it as the view.
pub broadcast proof fn lemma_from_view<T>(data: T)
    ensures
        (#[trigger] <BinaryStruct<T> as vstd::std_specs::convert::FromSpec<T>>::from_spec(
            data,
        ))@ == data,
{
}

/// A bit written within the width reads back as written, a later write of the
/// opposite value reads back as that, and a position beyond the width always
/// reads as zero and is left unchanged by a write.
pub proof fn lemma_bit_round_trip<T: BinaryOperations>(
    b0: BinaryStruct<T>,
    b1: BinaryStruct<T>,
    b2: BinaryStruct<T>,
    bit: nat,
)
    requires
        at_post(b0, bit, true, b1),
        at_post(b1, bit, false, b2),
    ensures
        bit < T::width() ==> bit_spec(b1, bit) && !bit_spec(b2, bit),
        bit >= T::width() ==> b1 == b0 && b2 == b0 && !bit_spec(b0, bit) && !bit_spec(b2, bit),
{
    if bit < T::width() {
        assert(bit_spec(b1, bit));
        assert(!bit_spec(b2, bit));
    }
}

/// Storage for the decimal digits of the largest value of a type.
pub trait MaxDigits<const DIGITS: usize> {
    fn max_digits() -> (r: [u8; DIGITS])
        ensures
            forall|i: int| 0 <= i < DIGITS ==> r[i] == 0,
    ;
}

impl MaxDigits<20> for usize {
    fn max_digits() -> (r: [u8; 20]) {
        [0; 20]
    }
}

} // verus!
