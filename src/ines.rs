//! The iNES cartridge image: header fields and the PRG and CHR banks.
use vstd::prelude::*;

verus! {

/// In bytes: the unit of `.bank` in the assembler and of a ROM device on the bus.
pub const BANK_SIZE: usize = 8192;

/// Size of one PRG unit of the header, in bytes.
pub const PRG_UNIT: usize = 16384;

/// Size of one CHR unit of the header, in bytes.
pub const CHR_UNIT: usize = 8192;

/// Size of the file header, in bytes.
pub const HEADER_LEN: usize = 16;

/// An iNES image (not NES 2.0).
pub struct Ines {
    /// Size of PRG ROM in 16 KiB units.
    pub inesprg: u16,
    /// Size of CHR ROM in 8 KiB units.
    pub ineschr: u16,
    /// Vertically mirrored (1), horizontally mirrored (0).
    pub mirroring: u16,
    /// The iNES mapper index.
    pub mapper: u16,
    /// The rest of the file: PRG banks first, then CHR banks.
    pub banks: Vec<u8>,
    /// Debug information: each label of the source with its address.
    pub labels: Vec<(String, u16)>,
}

/// Why a byte string is not an iNES file.
#[derive(Debug, PartialEq, Eq, Structural, Clone, Copy)]
pub enum InesParseError {
    InvalidHeader,
    FileInvalidLength,
}

/// Error when reading an iNES file.
#[derive(Debug)]
pub enum InesError {
    ParseError(InesParseError),
    /// The file could not be read; the message of the operating system.
    IO(String),
}

impl From<InesParseError> for InesError {
    fn from(value: InesParseError) -> InesError {
        InesError::ParseError(value)
    }
}

impl vstd::std_specs::convert::FromSpecImpl<InesParseError> for InesError {
    open spec fn obeys_from_spec() -> bool {
        true
    }

    open spec fn from_spec(v: InesParseError) -> InesError {
        InesError::ParseError(v)
    }
}

/// Bytes that the header and the bank sizes it declares call for.
pub open spec fn image_len(prg: int, chr: int) -> int {
    prg * PRG_UNIT + chr * CHR_UNIT
}

/// The 16 header bytes of an image with these fields.
pub open spec fn header_of(prg: u8, chr: u8, mirroring: u8, mapper: u8) -> Seq<u8> {
    seq![
        0x4Eu8, 0x45u8, 0x53u8, 0x1Au8,
        prg, chr,
        ((mirroring & 1) | (mapper << 4u8)) as u8,
        0u8, 0u8, 0u8, 0u8, 0u8, 0u8, 0u8, 0u8, 0u8,
    ]
}

/// Does the byte string start with the magic `NES\x1A`?
pub open spec fn has_magic(d: Seq<u8>) -> bool {
    d.len() >= HEADER_LEN && d[0] == 0x4E && d[1] == 0x45 && d[2] == 0x53 && d[3] == 0x1A
}

impl Ines {
    /// Reads an iNES file held in memory.
    pub fn from_bytes(data: &[u8]) -> (r: Result<Ines, InesParseError>)
        ensures
            !has_magic(data@) ==> r == Err::<Ines, InesParseError>(InesParseError::InvalidHeader),
            has_magic(data@) && data@.len() - HEADER_LEN != image_len(data@[4] as int, data@[5] as int)
                ==> r == Err::<Ines, InesParseError>(InesParseError::FileInvalidLength),
            has_magic(data@) && data@.len() - HEADER_LEN == image_len(data@[4] as int, data@[5] as int)
                ==> (r matches Ok(ines) && {
                &&& ines.inesprg == data@[4] as u16
                &&& ines.ineschr == data@[5] as u16
                &&& ines.mirroring == (data@[6] & 1) as u16
                &&& ines.mapper == (data@[6] >> 4u8) as u16
                &&& ines.banks@ == data@.subrange(HEADER_LEN as int, data@.len() as int)
                &&& ines.labels@.len() == 0
            }),
    {
        if data.len() < HEADER_LEN || data[0] != 0x4E || data[1] != 0x45 || data[2] != 0x53
            || data[3] != 0x1A {
            return Err(InesParseError::InvalidHeader);
        }
        let inesprg = data[4] as u16;
        let ineschr = data[5] as u16;
        let mirroring = (data[6] & 1) as u16;
        let mapper = (data[6] >> 4u8) as u16;
        let expected_size = inesprg as usize * PRG_UNIT + ineschr as usize * CHR_UNIT;
        if data.len() - HEADER_LEN != expected_size {
            return Err(InesParseError::FileInvalidLength);
        }
        let mut banks: Vec<u8> = Vec::new();
        let mut i: usize = HEADER_LEN;
        while i < data.len()
            invariant
                HEADER_LEN <= i <= data@.len(),
                banks@ == data@.subrange(HEADER_LEN as int, i as int),
            decreases data@.len() - i,
        {
            banks.push(data[i]);
            i = i + 1;
        }
        Ok(Ines { inesprg, ineschr, mirroring, mapper, banks, labels: Vec::new() })
    }

    /// Writes the image as an iNES file: the 16-byte header, then the banks.
    pub fn to_bytes(&self) -> (r: Vec<u8>)
        requires
            self.inesprg < 256,
            self.ineschr < 256,
            self.mirroring < 256,
            self.mapper < 256,
        ensures
            r@ == header_of(self.inesprg as u8, self.ineschr as u8, self.mirroring as u8, self.mapper as u8)
                + self.banks@,
    {
        let mir = self.mirroring as u8;
        let map = self.mapper as u8;
        let mut r: Vec<u8> = vec![
            0x4Eu8, 0x45u8, 0x53u8, 0x1Au8,
            self.inesprg as u8, self.ineschr as u8,
            (mir & 1) | (map << 4u8),
            0u8, 0u8, 0u8, 0u8, 0u8, 0u8, 0u8, 0u8, 0u8,
        ];
        let ghost head = r@;
        let mut i: usize = 0;
        while i < self.banks.len()
            invariant
                i <= self.banks@.len(),
                r@ == head + self.banks@.subrange(0, i as int),
            decreases self.banks@.len() - i,
        {
            r.push(self.banks[i]);
            i = i + 1;
            assert(r@ =~= head + self.banks@.subrange(0, i as int));
        }
        assert(self.banks@.subrange(0, i as int) =~= self.banks@);
        r
    }
}

/// Writing an image and reading it back gives the same header fields and banks,
/// when the fields fit in their header bytes and the banks have the declared size.
pub proof fn lemma_ines_round_trip(prg: u8, chr: u8, mirroring: u8, mapper: u8, banks: Seq<u8>)
    requires
        mirroring < 2,
        mapper < 16,
        banks.len() == image_len(prg as int, chr as int),
    ensures
        has_magic(header_of(prg, chr, mirroring, mapper) + banks),
        ({
            let d = header_of(prg, chr, mirroring, mapper) + banks;
            &&& d.len() - HEADER_LEN == image_len(d[4] as int, d[5] as int)
            &&& d[4] == prg
            &&& d[5] == chr
            &&& (d[6] & 1) == mirroring
            &&& (d[6] >> 4u8) == mapper
            &&& d.subrange(HEADER_LEN as int, d.len() as int) == banks
        }),
{
    let d = header_of(prg, chr, mirroring, mapper) + banks;
    let b6 = ((mirroring & 1) | (mapper << 4u8)) as u8;
    assert(d[6] == b6);
    assert((b6 & 1) == mirroring && (b6 >> 4u8) == mapper) by (bit_vector)
        requires
            mirroring < 2,
            mapper < 16,
            b6 == ((mirroring & 1) | (mapper << 4u8)) as u8,
    ;
    assert(d.subrange(HEADER_LEN as int, d.len() as int) =~= banks);
}

} // verus!
