//! Helpers for combining Modbus registers into wider scalar values.
//!
//! Modbus registers are always encoded as big-endian 16-bit values on the
//! wire. [`WordOrder`] controls only how consecutive host-order `u16`
//! registers are combined into 32-bit and 64-bit application values.
//!
//! Floating-point values are given as their IEEE-754 bit patterns, so that
//! every payload survives as it is.

use vstd::prelude::*;
use vstd::std_specs::cmp::PartialEqSpec;

use crate::text::{self, push_decimal};

verus! {

/// Word order for scalar values spanning multiple 16-bit registers.
#[derive(Debug, Clone, Copy, PartialEq, Eq, Structural)]
pub enum WordOrder {
    /// Most-significant word first (Modbus default for multi-register values).
    BigEndian,
    /// Least-significant word first.
    LittleEndian,
}

/// An IEEE-754 32-bit value, by its bit pattern.
///
/// Values compare as IEEE-754 says: no NaN equals anything, and the two zeros are
/// equal.
#[derive(Debug, Clone, Copy)]
pub struct Float32 {
    /// The bit pattern.
    pub bits: u32,
}

/// An IEEE-754 64-bit value, by its bit pattern.
///
/// Values compare as IEEE-754 says: no NaN equals anything, and the two zeros are
/// equal.
#[derive(Debug, Clone, Copy)]
pub struct Float64 {
    /// The bit pattern.
    pub bits: u64,
}

/// Error returned when a register block cannot be decoded into wide scalars.
#[derive(Debug, PartialEq, Eq)]
pub enum WordOrderError {
    /// The register count is not an exact multiple of the scalar width.
    InvalidBlockLength {
        /// Number of registers supplied.
        len: usize,
        /// Registers per scalar (2 for 32-bit, 4 for 64-bit).
        width: usize,
        /// Target scalar type name, e.g. `"f32"`.
        scalar_type: &'static str,
    },
}

impl Float32 {
    /// The bit pattern without its sign.
    pub open spec fn magnitude(self) -> u32 {
        self.bits % 0x8000_0000
    }

    /// Not a number: the pattern lies beyond that of infinity.
    pub open spec fn is_nan(self) -> bool {
        self.magnitude() > 0x7F80_0000
    }

    /// The two values are numerically equal.
    pub open spec fn same(self, other: Float32) -> bool {
        &&& !self.is_nan()
        &&& !other.is_nan()
        &&& self.bits == other.bits || (self.magnitude() == 0 && other.magnitude() == 0)
    }

    /// The value with the given bit pattern.
    pub fn from_bits(bits: u32) -> (value: Float32)
        ensures
            value.bits == bits,
    {
        Float32 { bits }
    }

    /// The bit pattern of the value.
    pub fn to_bits(self) -> (bits: u32)
        ensures
            bits == self.bits,
    {
        self.bits
    }
}

impl Float64 {
    /// The bit pattern without its sign.
    pub open spec fn magnitude(self) -> u64 {
        self.bits % 0x8000_0000_0000_0000
    }

    /// Not a number: the pattern lies beyond that of infinity.
    pub open spec fn is_nan(self) -> bool {
        self.magnitude() > 0x7FF0_0000_0000_0000
    }

    /// The two values are numerically equal.
    pub open spec fn same(self, other: Float64) -> bool {
        &&& !self.is_nan()
        &&& !other.is_nan()
        &&& self.bits == other.bits || (self.magnitude() == 0 && other.magnitude() == 0)
    }

    /// The value with the given bit pattern.
    pub fn from_bits(bits: u64) -> (value: Float64)
        ensures
            value.bits == bits,
    {
        Float64 { bits }
    }

    /// The bit pattern of the value.
    pub fn to_bits(self) -> (bits: u64)
        ensures
            bits == self.bits,
    {
        self.bits
    }
}

impl vstd::std_specs::cmp::PartialEqSpecImpl for Float32 {
    open spec fn obeys_eq_spec() -> bool {
        true
    }

    open spec fn eq_spec(&self, other: &Float32) -> bool {
        self.same(*other)
    }
}

impl PartialEq for Float32 {
    fn eq(&self, other: &Float32) -> (equal: bool) {
        let lhs: u32 = self.bits % 0x8000_0000;
        let rhs: u32 = other.bits % 0x8000_0000;
        if lhs > 0x7F80_0000 || rhs > 0x7F80_0000 {
            return false;
        }
        self.bits == other.bits || (lhs == 0 && rhs == 0)
    }
}

impl vstd::std_specs::cmp::PartialEqSpecImpl for Float64 {
    open spec fn obeys_eq_spec() -> bool {
        true
    }

    open spec fn eq_spec(&self, other: &Float64) -> bool {
        self.same(*other)
    }
}

impl PartialEq for Float64 {
    fn eq(&self, other: &Float64) -> (equal: bool) {
        let lhs: u64 = self.bits % 0x8000_0000_0000_0000;
        let rhs: u64 = other.bits % 0x8000_0000_0000_0000;
        if lhs > 0x7FF0_0000_0000_0000 || rhs > 0x7FF0_0000_0000_0000 {
            return false;
        }
        self.bits == other.bits || (lhs == 0 && rhs == 0)
    }
}

/// The number whose digits to the base 65536 are `words`, most significant first.
pub open spec fn number_of(words: Seq<u16>) -> nat
    decreases words.len(),
{
    if words.len() == 0 {
        0
    } else {
        number_of(words.drop_last()) * 65536 + words.last() as nat
    }
}

/// The signed number with the two's complement bit pattern of `unsigned`.
pub open spec fn signed_32(unsigned: nat) -> int {
    if unsigned < 0x8000_0000 {
        unsigned as int
    } else {
        unsigned - 0x1_0000_0000
    }
}

/// The signed number with the two's complement bit pattern of `unsigned`.
pub open spec fn signed_64(unsigned: nat) -> int {
    if unsigned < 0x8000_0000_0000_0000 {
        unsigned as int
    } else {
        unsigned - 0x1_0000_0000_0000_0000
    }
}

impl WordOrder {
    /// The words of a scalar, most significant first.
    pub open spec fn ordered(self, words: Seq<u16>) -> Seq<u16> {
        match self {
            WordOrder::BigEndian => words,
            WordOrder::LittleEndian => words.reverse(),
        }
    }

    /// The number that the registers of one scalar stand for.
    pub open spec fn value(self, words: Seq<u16>) -> nat {
        number_of(self.ordered(words))
    }

    /// The registers of scalar `i` of a block, `width` registers to a scalar.
    pub open spec fn chunk(regs: Seq<u16>, width: int, i: int) -> Seq<u16> {
        regs.subrange(width * i, width * i + width)
    }
}

/// `error` says that `len` is not a multiple of `width` for the type `scalar_type`.
pub open spec fn is_bad_block(
    error: WordOrderError,
    len: nat,
    width: nat,
    scalar_type: Seq<char>,
) -> bool {
    error matches WordOrderError::InvalidBlockLength { len: l, width: w, scalar_type: t } && l == len
        && w == width && t@ == scalar_type
}

impl Default for WordOrder {
    fn default() -> (order: WordOrder)
        ensures
            order == WordOrder::BigEndian,
    {
        WordOrder::BigEndian
    }
}

impl Clone for WordOrderError {
    fn clone(&self) -> (copy: WordOrderError)
        ensures
            copy == *self,
    {
        match self {
            WordOrderError::InvalidBlockLength { len, width, scalar_type } => {
                WordOrderError::InvalidBlockLength {
                    len: *len,
                    width: *width,
                    scalar_type: *scalar_type,
                }
            },
        }
    }
}

impl WordOrderError {
    /// The error's message.
    pub fn to_string(&self) -> (message: String)
        ensures
            match self {
                WordOrderError::InvalidBlockLength { len, width, scalar_type } => message@
                    == "register block length "@ + text::decimal(*len as nat)
                    + " is not a multiple of "@ + text::decimal(*width as nat) + " (for "@
                    + scalar_type@ + ")"@,
            },
    {
        match self {
            WordOrderError::InvalidBlockLength { len, width, scalar_type } => {
                let mut message = "register block length ".to_owned();
                push_decimal(&mut message, *len as u64);
                message.append(" is not a multiple of ");
                push_decimal(&mut message, *width as u64);
                message.append(" (for ");
                message.append(scalar_type);
                message.append(")");
                message
            },
        }
    }
}

/// The number of two words.
proof fn number_of_two(words: Seq<u16>)
    requires
        words.len() == 2,
    ensures
        number_of(words) == words[0] * 65536 + words[1],
{
    reveal_with_fuel(number_of, 3);
}

/// The number of four words.
proof fn number_of_four(words: Seq<u16>)
    requires
        words.len() == 4,
    ensures
        number_of(words) == ((words[0] * 65536 + words[1]) * 65536 + words[2]) * 65536 + words[3],
{
    reveal_with_fuel(number_of, 5);
}

impl WordOrder {
    /// The two words of a scalar, most significant first.
    pub fn order_32(self, regs: [u16; 2]) -> (words: [u16; 2])
        ensures
            words@ == self.ordered(regs@),
    {
        let words = match self {
            WordOrder::BigEndian => regs,
            WordOrder::LittleEndian => [regs[1], regs[0]],
        };
        assert(words@ =~= self.ordered(regs@));
        words
    }

    /// The four words of a scalar, most significant first.
    pub fn order_64(self, regs: [u16; 4]) -> (words: [u16; 4])
        ensures
            words@ == self.ordered(regs@),
    {
        let words = match self {
            WordOrder::BigEndian => regs,
            WordOrder::LittleEndian => [regs[3], regs[2], regs[1], regs[0]],
        };
        assert(words@ =~= self.ordered(regs@));
        words
    }

    /// Decodes an unsigned 32-bit integer from two 16-bit registers.
    ///
    /// The individual registers are already host-order `u16` values; this only
    /// controls whether the first register is the most-significant or
    /// least-significant word.
    #[must_use]
    pub fn decode_u32(self, regs: [u16; 2]) -> (value: u32)
        ensures
            value == self.value(regs@),
    {
        let words = self.order_32(regs);
        proof {
            number_of_two(words@);
        }
        words[0] as u32 * 65536 + words[1] as u32
    }

    /// Decodes a signed 32-bit integer from two 16-bit registers.
    #[must_use]
    pub fn decode_i32(self, regs: [u16; 2]) -> (value: i32)
        ensures
            value == signed_32(self.value(regs@)),
    {
        let unsigned: u32 = self.decode_u32(regs);
        assert(unsigned < 0x8000_0000 ==> (unsigned as i32) == unsigned) by (bit_vector);
        assert(unsigned >= 0x8000_0000 ==> (unsigned as i32) == unsigned - 0x1_0000_0000)
            by (bit_vector);
        unsigned as i32
    }

    /// Decodes an IEEE-754 32-bit float from two 16-bit registers.
    ///
    /// The bit pattern is preserved exactly.
    #[must_use]
    pub fn decode_f32(self, regs: [u16; 2]) -> (value: Float32)
        ensures
            value.bits == self.value(regs@),
    {
        Float32::from_bits(self.decode_u32(regs))
    }

    /// Decodes an unsigned 64-bit integer from four 16-bit registers.
    #[must_use]
    pub fn decode_u64(self, regs: [u16; 4]) -> (value: u64)
        ensures
            value == self.value(regs@),
    {
        let words = self.order_64(regs);
        proof {
            number_of_four(words@);
        }
        ((words[0] as u64 * 65536 + words[1] as u64) * 65536 + words[2] as u64) * 65536
            + words[3] as u64
    }

    /// Decodes a signed 64-bit integer from four 16-bit registers.
    #[must_use]
    pub fn decode_i64(self, regs: [u16; 4]) -> (value: i64)
        ensures
            value == signed_64(self.value(regs@)),
    {
        let unsigned: u64 = self.decode_u64(regs);
        assert(unsigned < 0x8000_0000_0000_0000 ==> (unsigned as i64) == unsigned) by (bit_vector);
        assert(unsigned >= 0x8000_0000_0000_0000 ==> (unsigned as i64) == unsigned
            - 0x1_0000_0000_0000_0000) by (bit_vector);
        unsigned as i64
    }

    /// Decodes an IEEE-754 64-bit float from four 16-bit registers.
    ///
    /// The bit pattern is preserved exactly.
    #[must_use]
    pub fn decode_f64(self, regs: [u16; 4]) -> (value: Float64)
        ensures
            value.bits == self.value(regs@),
    {
        Float64::from_bits(self.decode_u64(regs))
    }

    /// Checks that `len` registers are a whole number of scalars of `width` registers.
    ///
    /// # Errors
    ///
    /// Returns [`WordOrderError::InvalidBlockLength`] if they are not.
    pub fn validate_block(self, len: usize, width: usize, scalar_type: &'static str) -> (result:
        Result<(), WordOrderError>)
        requires
            width > 0,
        ensures
            result is Ok <==> len % width == 0,
            result matches Err(e) ==> is_bad_block(e, len as nat, width as nat, scalar_type@),
    {
        if len % width == 0 {
            Ok(())
        } else {
            Err(WordOrderError::InvalidBlockLength { len, width, scalar_type })
        }
    }

    /// Decodes a block of registers into unsigned 32-bit integers.
    ///
    /// The input length must be a multiple of two registers. Word order is
    /// applied independently to each two-register scalar.
    ///
    /// # Errors
    ///
    /// Returns [`WordOrderError::InvalidBlockLength`] if `regs.len()` is not a
    /// multiple of two.
    pub fn decode_u32_block(self, regs: &[u16]) -> (result: Result<Vec<u32>, WordOrderError>)
        ensures
            result is Ok <==> regs@.len() % 2 == 0,
            result matches Ok(values) ==> {
                &&& values@.len() == regs@.len() / 2
                &&& forall|i: int|
                    0 <= i < values@.len() ==> #[trigger] values@[i] == self.value(
                        WordOrder::chunk(regs@, 2, i),
                    )
            },
            result matches Err(e) ==> is_bad_block(e, regs@.len(), 2, "u32"@),
    {
        match self.validate_block(regs.len(), 2, "u32") {
            Ok(()) => {},
            Err(e) => return Err(e),
        }
        let count: usize = regs.len() / 2;
        let mut values: Vec<u32> = Vec::with_capacity(count);
        let mut i: usize = 0;
        while i < count
            invariant
                i <= count,
                regs.len() == 2 * count,
                values@.len() == i,
                forall|j: int|
                    0 <= j < i ==> #[trigger] values@[j] == self.value(
                        WordOrder::chunk(regs@, 2, j),
                    ),
            decreases count - i,
        {
            let scalar = [regs[2 * i], regs[2 * i + 1]];
            assert(scalar@ =~= WordOrder::chunk(regs@, 2, i as int));
            values.push(self.decode_u32(scalar));
            i = i + 1;
        }
        Ok(values)
    }

    /// Decodes a block of registers into signed 32-bit integers.
    ///
    /// The input length must be a multiple of two registers. Word order is
    /// applied independently to each two-register scalar.
    ///
    /// # Errors
    ///
    /// Returns [`WordOrderError::InvalidBlockLength`] if `regs.len()` is not a
    /// multiple of two.
    pub fn decode_i32_block(self, regs: &[u16]) -> (result: Result<Vec<i32>, WordOrderError>)
        ensures
            result is Ok <==> regs@.len() % 2 == 0,
            result matches Ok(values) ==> {
                &&& values@.len() == regs@.len() / 2
                &&& forall|i: int|
                    0 <= i < values@.len() ==> #[trigger] values@[i] == signed_32(
                        self.value(WordOrder::chunk(regs@, 2, i)),
                    )
            },
            result matches Err(e) ==> is_bad_block(e, regs@.len(), 2, "i32"@),
    {
        match self.validate_block(regs.len(), 2, "i32") {
            Ok(()) => {},
            Err(e) => return Err(e),
        }
        let count: usize = regs.len() / 2;
        let mut values: Vec<i32> = Vec::with_capacity(count);
        let mut i: usize = 0;
        while i < count
            invariant
                i <= count,
                regs.len() == 2 * count,
                values@.len() == i,
                forall|j: int|
                    0 <= j < i ==> #[trigger] values@[j] == signed_32(
                        self.value(WordOrder::chunk(regs@, 2, j)),
                    ),
            decreases count - i,
        {
            let scalar = [regs[2 * i], regs[2 * i + 1]];
            assert(scalar@ =~= WordOrder::chunk(regs@, 2, i as int));
            values.push(self.decode_i32(scalar));
            i = i + 1;
        }
        Ok(values)
    }

    /// Decodes a block of registers into IEEE-754 32-bit floats.
    ///
    /// The input length must be a multiple of two registers. Word order is
    /// applied independently to each two-register scalar.
    ///
    /// # Errors
    ///
    /// Returns [`WordOrderError::InvalidBlockLength`] if `regs.len()` is not a
    /// multiple of two.
    pub fn decode_f32_block(self, regs: &[u16]) -> (result: Result<Vec<Float32>, WordOrderError>)
        ensures
            result is Ok <==> regs@.len() % 2 == 0,
            result matches Ok(values) ==> {
                &&& values@.len() == regs@.len() / 2
                &&& forall|i: int|
                    0 <= i < values@.len() ==> (#[trigger] values@[i]).bits == self.value(
                        WordOrder::chunk(regs@, 2, i),
                    )
            },
            result matches Err(e) ==> is_bad_block(e, regs@.len(), 2, "f32"@),
    {
        match self.validate_block(regs.len(), 2, "f32") {
            Ok(()) => {},
            Err(e) => return Err(e),
        }
        let count: usize = regs.len() / 2;
        let mut values: Vec<Float32> = Vec::with_capacity(count);
        let mut i: usize = 0;
        while i < count
            invariant
                i <= count,
                regs.len() == 2 * count,
                values@.len() == i,
                forall|j: int|
                    0 <= j < i ==> (#[trigger] values@[j]).bits == self.value(
                        WordOrder::chunk(regs@, 2, j),
                    ),
            decreases count - i,
        {
            let scalar = [regs[2 * i], regs[2 * i + 1]];
            assert(scalar@ =~= WordOrder::chunk(regs@, 2, i as int));
            values.push(self.decode_f32(scalar));
            i = i + 1;
        }
        Ok(values)
    }

    /// Decodes a block of registers into unsigned 64-bit integers.
    ///
    /// The input length must be a multiple of four registers. Word order is
    /// applied independently to each four-register scalar.
    ///
    /// # Errors
    ///
    /// Returns [`WordOrderError::InvalidBlockLength`] if `regs.len()` is not a
    /// multiple of four.
    pub fn decode_u64_block(self, regs: &[u16]) -> (result: Result<Vec<u64>, WordOrderError>)
        ensures
            result is Ok <==> regs@.len() % 4 == 0,
            result matches Ok(values) ==> {
                &&& values@.len() == regs@.len() / 4
                &&& forall|i: int|
                    0 <= i < values@.len() ==> #[trigger] values@[i] == self.value(
                        WordOrder::chunk(regs@, 4, i),
                    )
            },
            result matches Err(e) ==> is_bad_block(e, regs@.len(), 4, "u64"@),
    {
        match self.validate_block(regs.len(), 4, "u64") {
            Ok(()) => {},
            Err(e) => return Err(e),
        }
        let count: usize = regs.len() / 4;
        let mut values: Vec<u64> = Vec::with_capacity(count);
        let mut i: usize = 0;
        while i < count
            invariant
                i <= count,
                regs.len() == 4 * count,
                values@.len() == i,
                forall|j: int|
                    0 <= j < i ==> #[trigger] values@[j] == self.value(
                        WordOrder::chunk(regs@, 4, j),
                    ),
            decreases count - i,
        {
            let scalar = [regs[4 * i], regs[4 * i + 1], regs[4 * i + 2], regs[4 * i + 3]];
            assert(scalar@ =~= WordOrder::chunk(regs@, 4, i as int));
            values.push(self.decode_u64(scalar));
            i = i + 1;
        }
        Ok(values)
    }

    /// Decodes a block of registers into signed 64-bit integers.
    ///
    /// The input length must be a multiple of four registers. Word order is
    /// applied independently to each four-register scalar.
    ///
    /// # Errors
    ///
    /// Returns [`WordOrderError::InvalidBlockLength`] if `regs.len()` is not a
    /// multiple of four.
    pub fn decode_i64_block(self, regs: &[u16]) -> (result: Result<Vec<i64>, WordOrderError>)
        ensures
            result is Ok <==> regs@.len() % 4 == 0,
            result matches Ok(values) ==> {
                &&& values@.len() == regs@.len() / 4
                &&& forall|i: int|
                    0 <= i < values@.len() ==> #[trigger] values@[i] == signed_64(
                        self.value(WordOrder::chunk(regs@, 4, i)),
                    )
            },
            result matches Err(e) ==> is_bad_block(e, regs@.len(), 4, "i64"@),
    {
        match self.validate_block(regs.len(), 4, "i64") {
            Ok(()) => {},
            Err(e) => return Err(e),
        }
        let count: usize = regs.len() / 4;
        let mut values: Vec<i64> = Vec::with_capacity(count);
        let mut i: usize = 0;
        while i < count
            invariant
                i <= count,
                regs.len() == 4 * count,
                values@.len() == i,
                forall|j: int|
                    0 <= j < i ==> #[trigger] values@[j] == signed_64(
                        self.value(WordOrder::chunk(regs@, 4, j)),
                    ),
            decreases count - i,
        {
            let scalar = [regs[4 * i], regs[4 * i + 1], regs[4 * i + 2], regs[4 * i + 3]];
            assert(scalar@ =~= WordOrder::chunk(regs@, 4, i as int));
            values.push(self.decode_i64(scalar));
            i = i + 1;
        }
        Ok(values)
    }

    /// Decodes a block of registers into IEEE-754 64-bit floats.
    ///
    /// The input length must be a multiple of four registers. Word order is
    /// applied independently to each four-register scalar.
    ///
    /// # Errors
    ///
    /// Returns [`WordOrderError::InvalidBlockLength`] if `regs.len()` is not a
    /// multiple of four.
    pub fn decode_f64_block(self, regs: &[u16]) -> (result: Result<Vec<Float64>, WordOrderError>)
        ensures
            result is Ok <==> regs@.len() % 4 == 0,
            result matches Ok(values) ==> {
                &&& values@.len() == regs@.len() / 4
                &&& forall|i: int|
                    0 <= i < values@.len() ==> (#[trigger] values@[i]).bits == self.value(
                        WordOrder::chunk(regs@, 4, i),
                    )
            },
            result matches Err(e) ==> is_bad_block(e, regs@.len(), 4, "f64"@),
    {
        match self.validate_block(regs.len(), 4, "f64") {
            Ok(()) => {},
            Err(e) => return Err(e),
        }
        let count: usize = regs.len() / 4;
        let mut values: Vec<Float64> = Vec::with_capacity(count);
        let mut i: usize = 0;
        while i < count
            invariant
                i <= count,
                regs.len() == 4 * count,
                values@.len() == i,
                forall|j: int|
                    0 <= j < i ==> (#[trigger] values@[j]).bits == self.value(
                        WordOrder::chunk(regs@, 4, j),
                    ),
            decreases count - i,
        {
            let scalar = [regs[4 * i], regs[4 * i + 1], regs[4 * i + 2], regs[4 * i + 3]];
            assert(scalar@ =~= WordOrder::chunk(regs@, 4, i as int));
            values.push(self.decode_f64(scalar));
            i = i + 1;
        }
        Ok(values)
    }
}

/// Least-significant word first is most-significant word first on the reversed
/// registers, and the other way round.
pub proof fn little_endian_reverses_the_words(words: Seq<u16>)
    ensures
        WordOrder::LittleEndian.value(words) == WordOrder::BigEndian.value(words.reverse()),
        WordOrder::BigEndian.value(words) == WordOrder::LittleEndian.value(words.reverse()),
{
    assert(words.reverse().reverse() =~= words);
}

/// Different registers stand for different numbers: no information is lost
/// whichever word comes first.
pub proof fn decoding_loses_nothing(order: WordOrder, first: Seq<u16>, second: Seq<u16>)
    requires
        first.len() == second.len(),
        order.value(first) == order.value(second),
    ensures
        first == second,
{
    number_of_is_injective(order.ordered(first), order.ordered(second));
    if order == WordOrder::LittleEndian {
        assert(first.reverse().reverse() =~= first);
        assert(second.reverse().reverse() =~= second);
    }
}

/// Two lists of words of one length with the same number are the same.
proof fn number_of_is_injective(first: Seq<u16>, second: Seq<u16>)
    requires
        first.len() == second.len(),
        number_of(first) == number_of(second),
    ensures
        first == second,
    decreases first.len(),
{
    if first.len() > 0 {
        number_of_is_injective(first.drop_last(), second.drop_last());
        assert(first =~= first.drop_last().push(first.last()));
        assert(second =~= second.drop_last().push(second.last()));
    } else {
        assert(first =~= second);
    }
}

/// Word order is applied to each scalar of a block on its own: the scalars of
/// two blocks one after the other are the scalars of the first and then those
/// of the second.
pub proof fn blocks_decode_one_after_the_other(first: Seq<u16>, second: Seq<u16>, width: int, i: int)
    requires
        width == 2 || width == 4,
        first.len() as int % width == 0,
        second.len() as int % width == 0,
        0 <= i < (first.len() + second.len()) as int / width,
    ensures
        WordOrder::chunk(first + second, width, i) == if i < first.len() as int / width {
            WordOrder::chunk(first, width, i)
        } else {
            WordOrder::chunk(second, width, i - first.len() as int / width)
        },
{
    if width == 2 {
        assert(WordOrder::chunk(first + second, 2, i) =~= if i < first.len() / 2 {
            WordOrder::chunk(first, 2, i)
        } else {
            WordOrder::chunk(second, 2, i - first.len() / 2)
        });
    } else {
        assert(WordOrder::chunk(first + second, 4, i) =~= if i < first.len() / 4 {
            WordOrder::chunk(first, 4, i)
        } else {
            WordOrder::chunk(second, 4, i - first.len() / 4)
        });
    }
}

/// A signed value and the unsigned value of the same bit pattern differ by a
/// multiple of two to the power of 32, and the signed one fits into 32 bits.
pub proof fn signed_32_is_congruent(unsigned: nat)
    requires
        unsigned < 0x1_0000_0000,
    ensures
        signed_32(unsigned) % 0x1_0000_0000 == unsigned,
        -0x8000_0000 <= signed_32(unsigned) < 0x8000_0000,
{
}

/// A signed value and the unsigned value of the same bit pattern differ by a
/// multiple of two to the power of 64, and the signed one fits into 64 bits.
pub proof fn signed_64_is_congruent(unsigned: nat)
    requires
        unsigned < 0x1_0000_0000_0000_0000,
    ensures
        signed_64(unsigned) % 0x1_0000_0000_0000_0000 == unsigned,
        -0x8000_0000_0000_0000 <= signed_64(unsigned) < 0x8000_0000_0000_0000,
{
}

/// Two registers stand for 65536 times the more significant one plus the other:
/// the first is the more significant one in big-endian order, the second in
/// little-endian order.
pub proof fn value_of_two_registers(first: u16, second: u16)
    ensures
        WordOrder::BigEndian.value(seq![first, second]) == 0x1_0000 * first + second,
        WordOrder::LittleEndian.value(seq![first, second]) == 0x1_0000 * second + first,
{
    number_of_two(seq![first, second]);
    assert(seq![first, second].reverse() =~= seq![second, first]);
    number_of_two(seq![second, first]);
}

/// Four registers stand for the sum of them, each with its weight: the first has
/// the largest weight in big-endian order and the smallest in little-endian order.
pub proof fn value_of_four_registers(first: u16, second: u16, third: u16, fourth: u16)
    ensures
        WordOrder::BigEndian.value(seq![first, second, third, fourth]) == 0x1_0000_0000_0000
            * first + 0x1_0000_0000 * second + 0x1_0000 * third + fourth,
        WordOrder::LittleEndian.value(seq![first, second, third, fourth]) == 0x1_0000_0000_0000
            * fourth + 0x1_0000_0000 * third + 0x1_0000 * second + first,
{
    let words = seq![first, second, third, fourth];
    number_of_four(words);
    assert(words.reverse() =~= seq![fourth, third, second, first]);
    number_of_four(seq![fourth, third, second, first]);
}

/// The value of two registers fits into 32 bits, and that of four into 64.
pub proof fn value_fits_its_type(order: WordOrder, words: Seq<u16>)
    ensures
        words.len() == 2 ==> order.value(words) < 0x1_0000_0000,
        words.len() == 4 ==> order.value(words) < 0x1_0000_0000_0000_0000,
{
    if words.len() == 2 {
        number_of_two(order.ordered(words));
    }
    if words.len() == 4 {
        number_of_four(order.ordered(words));
    }
}

/// Different registers give different signed values, whichever word comes first.
pub proof fn signed_decoding_loses_nothing(order: WordOrder, first: Seq<u16>, second: Seq<u16>)
    requires
        first.len() == second.len(),
    ensures
        first.len() == 2 && signed_32(order.value(first)) == signed_32(order.value(second))
            ==> first == second,
        first.len() == 4 && signed_64(order.value(first)) == signed_64(order.value(second))
            ==> first == second,
{
    value_fits_its_type(order, first);
    value_fits_its_type(order, second);
    if first.len() == 2 && signed_32(order.value(first)) == signed_32(order.value(second)) {
        signed_32_is_congruent(order.value(first));
        signed_32_is_congruent(order.value(second));
        decoding_loses_nothing(order, first, second);
    }
    if first.len() == 4 && signed_64(order.value(first)) == signed_64(order.value(second)) {
        signed_64_is_congruent(order.value(first));
        signed_64_is_congruent(order.value(second));
        decoding_loses_nothing(order, first, second);
    }
}

/// The scalars of a block follow one another without gap or overlap: register `k`
/// of scalar `i` is the register `width * i + k` of the block.
pub proof fn scalars_follow_one_another(regs: Seq<u16>, width: int, i: int, k: int)
    requires
        0 <= k < width,
        0 <= width * i,
        width * i + width <= regs.len(),
    ensures
        WordOrder::chunk(regs, width, i).len() == width,
        WordOrder::chunk(regs, width, i)[k] == regs[width * i + k],
{
}

/// The error of a block names the number of registers, the width and the type.
pub proof fn bad_block_is_described(error: WordOrderError, len: nat, width: nat, name: Seq<char>)
    ensures
        is_bad_block(error, len, width, name) <==> match error {
            WordOrderError::InvalidBlockLength { len: got, width: wanted, scalar_type } => {
                &&& got == len
                &&& wanted == width
                &&& scalar_type@ == name
            },
        },
{
}

/// Two 32-bit floats are equal where their patterns are equal and no NaN, or where
/// both are zeros, whatever the sign.
pub proof fn equality_of_32_bit_floats(lhs: Float32, rhs: Float32)
    ensures
        <Float32 as PartialEqSpec>::obeys_eq_spec(),
        lhs.eq_spec(&rhs) == lhs.same(rhs),
        lhs.same(rhs) == rhs.same(lhs),
        lhs.same(lhs) <==> lhs.bits <= 0x7F80_0000 || 0x8000_0000 <= lhs.bits <= 0xFF80_0000,
        lhs.bits != rhs.bits ==> (lhs.same(rhs) <==> (lhs.bits == 0 && rhs.bits == 0x8000_0000) || (
        lhs.bits == 0x8000_0000 && rhs.bits == 0)),
        lhs.is_nan() == !lhs.same(lhs),
{
}

/// Two 64-bit floats are equal where their patterns are equal and no NaN, or where
/// both are zeros, whatever the sign.
pub proof fn equality_of_64_bit_floats(lhs: Float64, rhs: Float64)
    ensures
        <Float64 as PartialEqSpec>::obeys_eq_spec(),
        lhs.eq_spec(&rhs) == lhs.same(rhs),
        lhs.same(rhs) == rhs.same(lhs),
        lhs.same(lhs) <==> lhs.bits <= 0x7FF0_0000_0000_0000 || 0x8000_0000_0000_0000 <= lhs.bits
            <= 0xFFF0_0000_0000_0000,
        lhs.bits != rhs.bits ==> (lhs.same(rhs) <==> (lhs.bits == 0 && rhs.bits
            == 0x8000_0000_0000_0000) || (lhs.bits == 0x8000_0000_0000_0000 && rhs.bits == 0)),
        lhs.is_nan() == !lhs.same(lhs),
{
}

} // verus!
