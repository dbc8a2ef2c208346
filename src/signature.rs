use vstd::prelude::*;

use crate::error::MemoryError;

verus! {

/// How a usable address is derived from the location where a signature matched.
#[derive(Copy, Debug, Clone, PartialEq, Eq, Structural)]
pub enum SignatureType {
    /// The address is the match location plus `offset`.
    Absolute { offset: i64 },
    /// The address is the 32-bit little-endian value stored at the match
    /// location plus `offset` (the operand of a call or jump).
    Relative32 { offset: i64 },
}

impl Default for SignatureType {
    fn default() -> (r: Self)
        ensures
            r == (SignatureType::Absolute { offset: 0 }),
    {
        SignatureType::Absolute { offset: 0 }
    }
}

/// A byte pattern, one token per byte (a hex literal or a wildcard), and the
/// rule that turns the location of a match into a usable address.
#[derive(Default, Debug)]
pub struct Signature<'a> {
    pub bytes: &'a [&'a str],
    pub sigtype: SignatureType,
}

/// The value of four bytes read as a little-endian 32-bit integer.
pub open spec fn le_u32(b0: u8, b1: u8, b2: u8, b3: u8) -> nat {
    b0 as nat + 256 * (b1 as nat) + 65536 * (b2 as nat) + 16777216 * (b3 as nat)
}

impl SignatureType {
    /// The rule's offset.
    pub open spec fn offset_of(self) -> i64 {
        match self {
            SignatureType::Absolute { offset } => offset,
            SignatureType::Relative32 { offset } => offset,
        }
    }

    /// The match location plus the offset, when it is a 64-bit address.
    pub open spec fn operand(self, location: u64) -> Option<u64> {
        let a = location as int + self.offset_of() as int;
        if 0 <= a <= u64::MAX {
            Some(a as u64)
        } else {
            None
        }
    }

    /// The usable address for a match at `location`, in an image whose first
    /// byte lies at `image_base`: `None` when the operand address is not a
    /// 64-bit address or, for `Relative32`, its four bytes are not in the image.
    pub open spec fn usable(self, location: u64, image_base: u64, image: Seq<u8>) -> Option<u64> {
        match self.operand(location) {
            None => None,
            Some(p) => match self {
                SignatureType::Absolute { .. } => Some(p),
                SignatureType::Relative32 { .. } => {
                    let k = p - image_base;
                    if image_base <= p && k + 4 <= image.len() {
                        Some(le_u32(image[k], image[k + 1], image[k + 2], image[k + 3]) as u64)
                    } else {
                        None
                    }
                },
            },
        }
    }

    /// The match location plus the rule's offset; `NotFound` when that is not
    /// a 64-bit address.
    pub fn operand_address(&self, location: u64) -> (r: Result<u64, MemoryError>)
        ensures
            match self.operand(location) {
                Some(a) => r == Ok::<u64, MemoryError>(a),
                None => r == Err::<u64, MemoryError>(MemoryError::NotFound),
            },
    {
        let offset = match self {
            SignatureType::Absolute { offset } => *offset,
            SignatureType::Relative32 { offset } => *offset,
        };
        if offset >= 0 {
            let d = offset as u64;
            match location.checked_add(d) {
                Some(a) => Ok(a),
                None => Err(MemoryError::NotFound),
            }
        } else {
            let d: u64 = if offset == i64::MIN { 0x8000_0000_0000_0000u64 } else { (-offset) as u64 };
            if location >= d {
                Ok(location - d)
            } else {
                Err(MemoryError::NotFound)
            }
        }
    }

    /// The usable address for a match at `location` in a copy of remote memory
    /// whose first byte lies at `image_base`. `Absolute` adds the offset;
    /// `Relative32` reads the 32-bit little-endian value at the location plus
    /// the offset. `NotFound` when the address cannot be derived.
    pub fn resolve(&self, location: u64, image_base: u64, image: &[u8]) -> (r: Result<u64, MemoryError>)
        ensures
            match self.usable(location, image_base, image@) {
                Some(a) => r == Ok::<u64, MemoryError>(a),
                None => r == Err::<u64, MemoryError>(MemoryError::NotFound),
            },
    {
        let p = self.operand_address(location)?;
        match self {
            SignatureType::Absolute { .. } => Ok(p),
            SignatureType::Relative32 { .. } => {
                if p < image_base {
                    return Err(MemoryError::NotFound);
                }
                let k: u64 = p - image_base;
                if k > image.len() as u64 || image.len() as u64 - k < 4 {
                    return Err(MemoryError::NotFound);
                }
                let i: usize = k as usize;
                let v: u64 = image[i] as u64 + 256 * (image[i + 1] as u64) + 65536 * (image[i + 2] as u64)
                    + 16777216 * (image[i + 3] as u64);
                Ok(v)
            },
        }
    }
}

} // verus!
