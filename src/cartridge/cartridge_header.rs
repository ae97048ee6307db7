//! The cartridge header at 0x0100..0x0150.
use vstd::prelude::*;

verus! {

/// The header checksum over bytes 0x0134..`end`: a wrapping sum of the
/// complements of the bytes.
pub open spec fn checksum_upto(bytes: Seq<u8>, end: int) -> u8
    decreases end - 0x134,
{
    if end <= 0x134 {
        0
    } else {
        ((checksum_upto(bytes, end - 1) + 255 - bytes[end - 1]) % 256) as u8
    }
}

/// The header checksum of an image: over bytes 0x0134..=0x014C.
pub open spec fn checksum_spec(bytes: Seq<u8>) -> u8 {
    checksum_upto(bytes, 0x14d)
}

#[derive(Clone, Debug, PartialEq, Eq)]
pub struct CartridgeHeader {
    /// 0x0104..=0x0133
    pub logo: Vec<u8>,
    /// 0x0134..=0x0143
    pub title: Vec<u8>,
    /// 0x0143
    pub cgb_flag: u8,
    /// 0x0146
    pub sgb_flag: u8,
    /// 0x0147
    pub cartridge_type: u8,
    /// 0x0148
    pub rom_size: u8,
    /// 0x0149
    pub ram_size: u8,
    /// 0x014C
    pub version: u8,
    /// 0x014D
    pub header_checksum: u8,
    /// 0x014E..=0x014F, big-endian
    pub global_checksum: u16,
}

/// Why a header could not be taken as it is.
#[derive(Clone, Debug, PartialEq, Eq)]
pub enum HeaderError {
    /// The image is shorter than 0x150 bytes.
    CartridgeTooShort,
    /// The checksum does not match; the header read is still usable.
    HeaderChecksumMismatch(CartridgeHeader),
}

impl CartridgeHeader {
    /// The fields are those that `bytes` holds at their offsets.
    pub open spec fn parsed_from(&self, bytes: Seq<u8>) -> bool {
        &&& bytes.len() >= 0x150
        &&& self.logo@ == bytes.subrange(0x104, 0x134)
        &&& self.title@ == bytes.subrange(0x134, 0x144)
        &&& self.cgb_flag == bytes[0x143]
        &&& self.sgb_flag == bytes[0x146]
        &&& self.cartridge_type == bytes[0x147]
        &&& self.rom_size == bytes[0x148]
        &&& self.ram_size == bytes[0x149]
        &&& self.version == bytes[0x14c]
        &&& self.header_checksum == bytes[0x14d]
        &&& self.global_checksum == bytes[0x14e] as int * 256 + bytes[0x14f] as int
    }

    pub open spec fn wf(&self) -> bool {
        self.logo@.len() == 48 && self.title@.len() == 16
    }

    /// Byte `i` of the 0x150-byte image that holds this header (zero where the
    /// header has no field).
    pub open spec fn image_byte(&self, i: int) -> u8 {
        if 0x104 <= i < 0x134 {
            self.logo@[i - 0x104]
        } else if 0x134 <= i < 0x143 {
            self.title@[i - 0x134]
        } else if i == 0x143 {
            self.cgb_flag
        } else if i == 0x146 {
            self.sgb_flag
        } else if i == 0x147 {
            self.cartridge_type
        } else if i == 0x148 {
            self.rom_size
        } else if i == 0x149 {
            self.ram_size
        } else if i == 0x14c {
            self.version
        } else if i == 0x14d {
            self.header_checksum
        } else if i == 0x14e {
            (self.global_checksum / 256) as u8
        } else if i == 0x14f {
            (self.global_checksum % 256) as u8
        } else {
            0
        }
    }

    fn copy_range(bytes: &Vec<u8>, start: usize, len: usize) -> (r: Vec<u8>)
        requires
            start + len <= bytes@.len(),
        ensures
            r@ == bytes@.subrange(start as int, start + len),
    {
        let mut r: Vec<u8> = Vec::new();
        let mut i: usize = 0;
        let n = bytes.len();
        while i < len
            invariant
                i <= len,
                n == bytes@.len(),
                start + len <= bytes@.len(),
                r@ == bytes@.subrange(start as int, start + i),
            decreases len - i,
        {
            assert(start + i < bytes@.len());
            r.push(bytes[start + i]);
            i = i + 1;
            assert(r@ =~= bytes@.subrange(start as int, start + i));
        }
        r
    }

    /// Reads the header of a cartridge image.
    pub fn from_bytes(bytes: &Vec<u8>) -> (r: Result<Self, HeaderError>)
        ensures
            bytes@.len() < 0x150 <==> r == Err::<Self, HeaderError>(HeaderError::CartridgeTooShort),
            r matches Ok(h) ==> h.parsed_from(bytes@) && h.wf() && checksum_spec(bytes@) == bytes@[0x14d],
            r matches Err(HeaderError::HeaderChecksumMismatch(h)) ==> h.parsed_from(bytes@) && h.wf()
                && checksum_spec(bytes@) != bytes@[0x14d],
    {
        if bytes.len() < 0x150 {
            return Err(HeaderError::CartridgeTooShort);
        }
        let this = Self {
            logo: Self::copy_range(bytes, 0x104, 48),
            title: Self::copy_range(bytes, 0x134, 16),
            cgb_flag: bytes[0x143],
            sgb_flag: bytes[0x146],
            cartridge_type: bytes[0x147],
            rom_size: bytes[0x148],
            ram_size: bytes[0x149],
            version: bytes[0x14c],
            header_checksum: bytes[0x14d],
            global_checksum: bytes[0x14e] as u16 * 256 + bytes[0x14f] as u16,
        };
        if Self::compute_check_sum(bytes) != this.header_checksum {
            return Err(HeaderError::HeaderChecksumMismatch(this));
        }
        Ok(this)
    }

    /// The header checksum of an image: the wrapping sum of the complements of
    /// bytes 0x0134..=0x014C.
    pub fn compute_check_sum(bytes: &Vec<u8>) -> (r: u8)
        requires
            bytes@.len() >= 0x14d,
        ensures
            r == checksum_spec(bytes@),
    {
        let mut x: u8 = 0;
        let mut i: usize = 0x134;
        while i < 0x14d
            invariant
                0x134 <= i <= 0x14d,
                bytes@.len() >= 0x14d,
                x == checksum_upto(bytes@, i as int),
            decreases 0x14d - i,
        {
            let b = bytes[i];
            x = ((x as u16 + 255 - b as u16) % 256) as u8;
            i = i + 1;
        }
        x
    }

    /// The header laid out as the 0x150-byte start of an image.
    pub fn to_bytes(&self) -> (r: Vec<u8>)
        requires
            self.wf(),
        ensures
            r@.len() == 0x150,
            forall|i: int| 0 <= i < 0x150 ==> #[trigger] r@[i] == self.image_byte(i),
    {
        let mut r: Vec<u8> = Vec::new();
        let mut i: usize = 0;
        while i < 0x150
            invariant
                i <= 0x150,
                self.wf(),
                r@.len() == i,
                forall|j: int| 0 <= j < i ==> #[trigger] r@[j] == self.image_byte(j),
            decreases 0x150 - i,
        {
            let b: u8 = if 0x104 <= i && i < 0x134 {
                self.logo[i - 0x104]
            } else if 0x134 <= i && i < 0x143 {
                self.title[i - 0x134]
            } else if i == 0x143 {
                self.cgb_flag
            } else if i == 0x146 {
                self.sgb_flag
            } else if i == 0x147 {
                self.cartridge_type
            } else if i == 0x148 {
                self.rom_size
            } else if i == 0x149 {
                self.ram_size
            } else if i == 0x14c {
                self.version
            } else if i == 0x14d {
                self.header_checksum
            } else if i == 0x14e {
                (self.global_checksum / 256) as u8
            } else if i == 0x14f {
                (self.global_checksum % 256) as u8
            } else {
                0
            };
            r.push(b);
            i = i + 1;
        }
        r
    }
}

/// Reading a header and laying it out again gives back the logo and title
/// bytes (and every other field) exactly as they stood in the image.
pub proof fn lemma_header_round_trip(bytes: Seq<u8>, h: CartridgeHeader)
    requires
        h.parsed_from(bytes),
    ensures
        forall|i: int| 0x104 <= i < 0x144 ==> #[trigger] h.image_byte(i) == bytes[i],
        forall|i: int|
            0x143 <= i < 0x150 && i != 0x144 && i != 0x145 && i != 0x14a && i != 0x14b ==> #[trigger] h.image_byte(i)
                == bytes[i],
{
    assert forall|i: int| 0x104 <= i < 0x144 implies #[trigger] h.image_byte(i) == bytes[i] by {
        if i < 0x134 {
            assert(h.logo@[i - 0x104] == bytes.subrange(0x104, 0x134)[i - 0x104]);
        } else if i < 0x143 {
            assert(h.title@[i - 0x134] == bytes.subrange(0x134, 0x144)[i - 0x134]);
        }
    }
}

} // verus!
