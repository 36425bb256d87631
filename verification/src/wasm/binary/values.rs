//! Encoding of numeric values: unsigned and signed LEB128 integers and
//! little-endian byte layouts, together with decoding specifications and
//! the round-trip proofs.

use vstd::prelude::*;

use super::EncodeError;
use super::Emitter;

verus! {

/// The unsigned LEB128 encoding of a value: the low seven bits of the
/// value on every byte, the continuation bit set on every byte but the
/// last.
pub open spec fn uleb(n: nat) -> Seq<u8>
    decreases n,
{
    if n < 128 {
        seq![n as u8]
    } else {
        seq![(n % 128 + 128) as u8] + uleb(n / 128)
    }
}

/// The signed LEB128 encoding of a value: the same seven-bit groups, but
/// the encoding stops once the remaining value together with its sign bit
/// fits in the last group.
pub open spec fn sleb(v: int) -> Seq<u8>
    decreases (if v < 0 {
        -v - 1
    } else {
        v
    }),
{
    if -64 <= v < 64 {
        seq![(v % 128) as u8]
    } else {
        seq![(v % 128 + 128) as u8] + sleb(v / 128)
    }
}

/// The value an unsigned LEB128 byte sequence stands for, ignoring the
/// continuation bits.
pub open spec fn uleb_decode(s: Seq<u8>) -> nat
    decreases s.len(),
{
    if s.len() == 0 {
        0
    } else {
        ((s[0] % 128) + 128 * uleb_decode(s.drop_first())) as nat
    }
}

/// The value a signed LEB128 byte sequence stands for: the last seven-bit
/// group is sign-extended.
pub open spec fn sleb_decode(s: Seq<u8>) -> int
    decreases s.len(),
{
    if s.len() == 0 {
        0
    } else if s.len() == 1 {
        if s[0] % 128 < 64 {
            (s[0] % 128) as int
        } else {
            s[0] % 128 - 128
        }
    } else {
        (s[0] % 128) + 128 * sleb_decode(s.drop_first())
    }
}

/// Decoding the unsigned LEB128 encoding of any value yields the value
/// back.
pub proof fn lemma_uleb_round_trip(n: nat)
    ensures
        uleb_decode(uleb(n)) == n,
    decreases n,
{
    if n < 128 {
        assert(uleb(n) =~= seq![n as u8]);
        assert(uleb(n).drop_first() =~= Seq::<u8>::empty());
        assert(uleb_decode(Seq::<u8>::empty()) == 0);
    } else {
        lemma_uleb_round_trip(n / 128);
        assert(uleb(n).drop_first() =~= uleb(n / 128));
        assert(uleb(n).len() > 0);
        assert(uleb(n)[0] == (n % 128 + 128) as u8);
        assert((n % 128 + 128) as u8 % 128 == n % 128);
        assert(uleb_decode(uleb(n)) == ((n % 128) + 128 * (n / 128)) as nat);
    }
}

/// Decoding the signed LEB128 encoding of any value yields the value
/// back.
pub proof fn lemma_sleb_round_trip(v: int)
    ensures
        sleb_decode(sleb(v)) == v,
    decreases (if v < 0 {
        -v - 1
    } else {
        v
    }),
{
    if -64 <= v < 64 {
        assert(sleb(v) =~= seq![(v % 128) as u8]);
    } else {
        lemma_sleb_round_trip(v / 128);
        assert(sleb(v).drop_first() =~= sleb(v / 128));
        assert(sleb(v / 128).len() > 0);
    }
}

/// The signed value whose two's-complement 32-bit pattern is the given
/// unsigned value.
pub open spec fn s32_of_u32(x: u32) -> int {
    if x < 0x8000_0000 {
        x as int
    } else {
        x as int - 0x1_0000_0000
    }
}

/// The four-byte little-endian layout of a 32-bit value.
pub open spec fn le4(x: u32) -> Seq<u8> {
    seq![
        (x % 256) as u8,
        ((x / 256) % 256) as u8,
        ((x / 0x1_0000) % 256) as u8,
        ((x / 0x100_0000) % 256) as u8,
    ]
}

/// The eight-byte little-endian layout of a 64-bit value.
pub open spec fn le8(x: u64) -> Seq<u8> {
    seq![
        (x % 256) as u8,
        ((x / 256) % 256) as u8,
        ((x / 0x1_0000) % 256) as u8,
        ((x / 0x100_0000) % 256) as u8,
        ((x / 0x1_0000_0000) % 256) as u8,
        ((x / 0x100_0000_0000) % 256) as u8,
        ((x / 0x1_0000_0000_0000) % 256) as u8,
        ((x / 0x100_0000_0000_0000) % 256) as u8,
    ]
}

impl Emitter {
    /// Append the unsigned LEB128 encoding of a value; lengths and counts
    /// go through this.
    pub(crate) fn write_uleb(&mut self, value: u64) -> (r: Result<(), EncodeError>)
        ensures
            r is Ok,
            final(self).out@ == old(self).out@ + uleb(value as nat),
    {
        let ghost pre = self.out@;
        let ghost v0 = value as nat;
        let mut value = value;
        loop
            invariant_except_break
                pre + uleb(v0) == self.out@ + uleb(value as nat),
            ensures
                self.out@ == pre + uleb(v0),
            decreases value,
        {
            if value < 128 {
                let ghost cur = self.out@;
                self.out.push(value as u8);
                proof {
                    assert(self.out@ =~= cur + uleb(value as nat));
                    assert(self.out@ =~= pre + uleb(v0));
                }
                break;
            } else {
                let b: u8 = (#[verifier::truncate] (value as u8)) | 128;
                let ghost cur = self.out@;
                let ghost prev = value;
                self.out.push(b);
                value = value >> 7;
                proof {
                    assert(prev >> 7 == prev / 128) by (bit_vector);
                    assert(((prev as u8) | 128) == ((prev % 128) + 128) as u8) by (bit_vector)
                        requires
                            prev >= 128,
                    ;
                    assert(uleb(prev as nat) =~= seq![b] + uleb((value as nat)));
                    assert(cur + uleb(prev as nat) =~= self.out@ + uleb(value as nat));
                }
            }
        }
        Ok(())
    }

    /// Append the unsigned LEB128 encoding of a 32-bit value.
    pub fn write_u32(&mut self, value: u32) -> (r: Result<(), EncodeError>)
        ensures
            r is Ok,
            final(self).out@ == old(self).out@ + uleb(value as nat),
    {
        self.write_uleb(value as u64)
    }

    /// Append the signed LEB128 encoding of a 32-bit value.
    pub fn write_s32(&mut self, value: i32) -> (r: Result<(), EncodeError>)
        ensures
            r is Ok,
            final(self).out@ == old(self).out@ + sleb(value as int),
    {
        let ghost pre = self.out@;
        let ghost v0 = value as int;
        let mut value = value;
        loop
            invariant_except_break
                pre + sleb(v0) == self.out@ + sleb(value as int),
            ensures
                self.out@ == pre + sleb(v0),
            decreases (if value < 0 {
                -(value as int) - 1
            } else {
                value as int
            }),
        {
            if -64 <= value && value < 64 {
                let b: u8 = if value >= 0 {
                    value as u8
                } else {
                    (value + 128) as u8
                };
                let ghost cur = self.out@;
                self.out.push(b);
                proof {
                    assert(sleb(value as int) =~= seq![b]);
                    assert(self.out@ =~= cur + sleb(value as int));
                    assert(self.out@ =~= pre + sleb(v0));
                }
                break;
            } else {
                let r = value.checked_rem_euclid(128).unwrap();
                let q = value.checked_div_euclid(128).unwrap();
                let b: u8 = (r + 128) as u8;
                let ghost cur = self.out@;
                let ghost prev = value as int;
                self.out.push(b);
                value = q;
                proof {
                    assert(sleb(prev) =~= seq![b] + sleb(value as int));
                    assert(cur + sleb(prev) =~= self.out@ + sleb(value as int));
                }
            }
        }
        Ok(())
    }

    /// Append an uninterpreted 32-bit integer, encoded as the signed
    /// LEB128 encoding of its two's-complement reading.
    pub fn write_i32(&mut self, value: u32) -> (r: Result<(), EncodeError>)
        ensures
            r is Ok,
            final(self).out@ == old(self).out@ + sleb(s32_of_u32(value)),
    {
        let signed: i32 = if value <= 0x7fff_ffff {
            value as i32
        } else {
            ((value as i64) - 0x1_0000_0000i64) as i32
        };
        self.write_s32(signed)
    }

    /// Append the little-endian layout of a 32-bit value (used for raw
    /// IEEE-754 bit patterns).
    pub(crate) fn write_le4(&mut self, value: u32) -> (r: Result<(), EncodeError>)
        ensures
            r is Ok,
            final(self).out@ == old(self).out@ + le4(value),
    {
        self.out.push((value % 256) as u8);
        self.out.push(((value / 256) % 256) as u8);
        self.out.push(((value / 0x1_0000) % 256) as u8);
        self.out.push(((value / 0x100_0000) % 256) as u8);
        proof {
            assert(self.out@ =~= old(self).out@ + le4(value));
        }
        Ok(())
    }

    /// Append the little-endian layout of a 64-bit value (used for raw
    /// IEEE-754 bit patterns).
    pub(crate) fn write_le8(&mut self, value: u64) -> (r: Result<(), EncodeError>)
        ensures
            r is Ok,
            final(self).out@ == old(self).out@ + le8(value),
    {
        self.out.push((value % 256) as u8);
        self.out.push(((value / 256) % 256) as u8);
        self.out.push(((value / 0x1_0000) % 256) as u8);
        self.out.push(((value / 0x100_0000) % 256) as u8);
        self.out.push(((value / 0x1_0000_0000) % 256) as u8);
        self.out.push(((value / 0x100_0000_0000) % 256) as u8);
        self.out.push(((value / 0x1_0000_0000_0000) % 256) as u8);
        self.out.push(((value / 0x100_0000_0000_0000) % 256) as u8);
        proof {
            assert(self.out@ =~= old(self).out@ + le8(value));
        }
        Ok(())
    }
}

} // verus!
