//! The identification block: the first 16 bytes of every ELF file.

use vstd::prelude::*;
use crate::consts::{ELF64_ADDR_SIZE, ELF_CLASS_64, ELF_DATA_LE, HEADER_MAGIC};
use crate::error::ElfError;

verus! {

/// File identification at the start of the ELF header.
#[derive(Clone, Copy, Debug, PartialEq, Eq)]
pub struct ElfIdentification {
    pub magic: [u8; 4],
    pub class: u8,
    pub endianess: u8,
    pub version: u8,
    pub os_abi: u8,
    pub os_abi_version: u8,
    /// Padding; always zero in a decoded value.
    pub reserved: [u8; 7],
}

/// True when `bytes` begins with the four signature bytes.
pub open spec fn has_signature(bytes: Seq<u8>) -> bool {
    bytes.len() >= 4 && bytes.subrange(0, 4) == HEADER_MAGIC@
}

impl ElfIdentification {
    /// True when `self` is what the identification block at the start of
    /// `bytes` decodes to: the five one-byte fields follow the signature, and
    /// the padding is not read.
    pub open spec fn decoded_from(&self, bytes: Seq<u8>) -> bool {
        &&& self.magic@ == bytes.subrange(0, 4)
        &&& self.class == bytes[4]
        &&& self.endianess == bytes[5]
        &&& self.version == bytes[6]
        &&& self.os_abi == bytes[7]
        &&& self.os_abi_version == bytes[8]
        &&& self.reserved@ == Seq::new(7, |i: int| 0u8)
    }

    /// What stands in the way of decoding a file with this identification:
    /// a wrong signature, or a class or byte order other than little-endian
    /// 64-bit.
    pub open spec fn support(&self) -> Result<(), ElfError> {
        if self.magic@ != HEADER_MAGIC@ {
            Err(ElfError::NotElfFormat)
        } else if self.class != ELF_CLASS_64 || self.endianess != ELF_DATA_LE {
            Err(ElfError::UnsupportedLayout)
        } else {
            Ok(())
        }
    }

    /// Decodes the identification block at the start of `binary`.
    pub fn new(binary: &[u8]) -> (decoded: Result<ElfIdentification, ElfError>)
        ensures
            match decoded {
                Ok(identification) => binary@.len() >= ELF64_ADDR_SIZE
                    && identification.decoded_from(binary@),
                Err(e) => binary@.len() < ELF64_ADDR_SIZE && e == ElfError::TruncatedInput,
            },
    {
        if binary.len() < ELF64_ADDR_SIZE {
            return Err(ElfError::TruncatedInput);
        }
        let mut magic: [u8; 4] = [0; 4];
        let mut i: usize = 0;
        while i < 4
            invariant
                i <= 4,
                binary.len() >= ELF64_ADDR_SIZE,
                forall|k: int| 0 <= k < i ==> magic@[k] == binary@[k],
            decreases 4 - i,
        {
            magic[i] = binary[i];
            i += 1;
        }
        let identification = ElfIdentification {
            magic,
            class: binary[4],
            endianess: binary[5],
            version: binary[6],
            os_abi: binary[7],
            os_abi_version: binary[8],
            reserved: [0; 7],
        };
        assert(identification.magic@ =~= binary@.subrange(0, 4));
        assert(identification.reserved@ =~= Seq::new(7, |i: int| 0u8));
        Ok(identification)
    }

    /// Tells whether `bytes` begins with the ELF signature.
    pub fn signed(bytes: &[u8]) -> (found: bool)
        ensures
            found == has_signature(bytes@),
    {
        if bytes.len() < 4 {
            return false;
        }
        let found = bytes[0] == HEADER_MAGIC[0] && bytes[1] == HEADER_MAGIC[1] && bytes[2]
            == HEADER_MAGIC[2] && bytes[3] == HEADER_MAGIC[3];
        proof {
            let prefix = bytes@.subrange(0, 4);
            if found {
                assert(prefix =~= HEADER_MAGIC@);
            } else {
                assert(prefix[0] == bytes@[0] && prefix[1] == bytes@[1] && prefix[2] == bytes@[2]
                    && prefix[3] == bytes@[3]);
            }
        }
        found
    }

    /// Checks that a file with this identification can be decoded.
    pub fn validate(&self) -> (outcome: Result<(), ElfError>)
        ensures
            outcome == self.support(),
    {
        let signed = self.magic[0] == HEADER_MAGIC[0] && self.magic[1] == HEADER_MAGIC[1]
            && self.magic[2] == HEADER_MAGIC[2] && self.magic[3] == HEADER_MAGIC[3];
        if !signed {
            Err(ElfError::NotElfFormat)
        } else if self.class != ELF_CLASS_64 || self.endianess != ELF_DATA_LE {
            Err(ElfError::UnsupportedLayout)
        } else {
            assert(self.magic@ =~= HEADER_MAGIC@);
            Ok(())
        }
    }
}

/// The signature test reads the first four bytes and nothing else: a buffer
/// is signed exactly when it is at least four bytes long and those bytes are
/// `0x7f`, `'E'`, `'L'`, `'F'`.
pub proof fn signature_is_the_first_four_bytes(bytes: Seq<u8>)
    ensures
        has_signature(bytes) <==> (bytes.len() >= 4 && bytes[0] == 0x7f && bytes[1] == 0x45
            && bytes[2] == 0x4c && bytes[3] == 0x46),
{
    if bytes.len() >= 4 {
        let prefix = bytes.subrange(0, 4);
        assert(prefix[0] == bytes[0] && prefix[1] == bytes[1] && prefix[2] == bytes[2]
            && prefix[3] == bytes[3]);
        if bytes[0] == 0x7f && bytes[1] == 0x45 && bytes[2] == 0x4c && bytes[3] == 0x46 {
            assert(prefix =~= HEADER_MAGIC@);
        }
    }
}

} // verus!
