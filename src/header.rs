use vstd::prelude::*;
use crate::error::RomError;

verus! {

/// Number of signature bytes at the start of a ROM image.
pub const SIGNATURE_SIZE: usize = 4;

/// Number of bytes the header occupies: the signature and two page counts.
pub const HEADER_SIZE: usize = 6;

/// A contiguous byte range `[start, end)` of the image, made of `count` pages.
#[derive(Clone, Copy, Debug, PartialEq, Eq, Structural)]
pub struct Region {
    pub start: u64,
    pub end: u64,
    pub count: u64,
}

/// The decoded header of a ROM image.
#[derive(Debug)]
pub struct Header {
    pub signature: Vec<char>,
    pub program_region: Region,
    pub graphics_region: Region,
}

/// Mathematical model of a header.
pub ghost struct HeaderModel {
    pub signature: Seq<char>,
    pub program_region: Region,
    pub graphics_region: Region,
}

impl View for Header {
    type V = HeaderModel;

    open spec fn view(&self) -> HeaderModel {
        HeaderModel {
            signature: self.signature@,
            program_region: self.program_region,
            graphics_region: self.graphics_region,
        }
    }
}

/// The region that starts at `start` and spans `count` pages of `page_size` bytes.
pub open spec fn region_at(start: int, count: int, page_size: int) -> Region {
    Region {
        start: start as u64,
        end: (start + count * page_size) as u64,
        count: count as u64,
    }
}

/// The header that the first six bytes of `buf` describe.
pub open spec fn header_of(buf: Seq<u8>, program_page_size: u32, graphics_page_size: u32) -> HeaderModel
    recommends
        buf.len() >= HEADER_SIZE,
{
    let program = region_at(SIGNATURE_SIZE as int, buf[4] as int, program_page_size as int);
    let graphics = region_at(program.end as int, buf[5] as int, graphics_page_size as int);
    HeaderModel {
        signature: seq![buf[0] as char, buf[1] as char, buf[2] as char, buf[3] as char],
        program_region: program,
        graphics_region: graphics,
    }
}

/// Decodes the header at the start of `rom`.
///
/// The program region starts right after the signature and the graphics
/// region right after the program region; neither is checked against the
/// length of `rom`.
pub fn header_dump(
    rom: &[u8],
    program_page_size: u32,
    graphics_page_size: u32,
) -> (r: Result<Header, RomError>)
    ensures
        rom@.len() < HEADER_SIZE <==> r is Err,
        r matches Err(e) ==> e == (RomError::OutOfBounds { length: rom@.len() as usize, required: HEADER_SIZE }),
        r matches Ok(h) ==> {
            &&& h@ == header_of(rom@.take(HEADER_SIZE as int), program_page_size, graphics_page_size)
            &&& h.graphics_region.start == h.program_region.end
        },
{
    if rom.len() < HEADER_SIZE {
        return Err(RomError::OutOfBounds { length: rom.len(), required: HEADER_SIZE });
    }
    let program_pages = rom[SIGNATURE_SIZE] as u64;
    let graphics_pages = rom[SIGNATURE_SIZE + 1] as u64;
    assert(program_pages * program_page_size <= 255 * 0xffff_ffff) by (nonlinear_arith)
        requires
            program_pages <= 255,
            program_page_size <= 0xffff_ffff,
    ;
    assert(graphics_pages * graphics_page_size <= 255 * 0xffff_ffff) by (nonlinear_arith)
        requires
            graphics_pages <= 255,
            graphics_page_size <= 0xffff_ffff,
    ;
    let program_start = SIGNATURE_SIZE as u64;
    let program_end = program_start + program_pages * (program_page_size as u64);
    let graphics_start = program_end;
    let graphics_end = graphics_start + graphics_pages * (graphics_page_size as u64);
    let signature = vec![rom[0] as char, rom[1] as char, rom[2] as char, rom[3] as char];
    let h = Header {
        signature,
        program_region: Region { start: program_start, end: program_end, count: program_pages },
        graphics_region: Region { start: graphics_start, end: graphics_end, count: graphics_pages },
    };
    assert(h@.signature =~= header_of(rom@.take(HEADER_SIZE as int), program_page_size, graphics_page_size).signature);
    Ok(h)
}

/// Decoding looks at the first six bytes only: two buffers that agree on
/// them decode to the same header, whatever follows.
pub proof fn lemma_header_reads_only_prefix(
    a: Seq<u8>,
    b: Seq<u8>,
    program_page_size: u32,
    graphics_page_size: u32,
)
    requires
        a.len() >= HEADER_SIZE,
        b.len() >= HEADER_SIZE,
        a.take(HEADER_SIZE as int) == b.take(HEADER_SIZE as int),
    ensures
        header_of(a, program_page_size, graphics_page_size) == header_of(
            b,
            program_page_size,
            graphics_page_size,
        ),
{
    assert forall|i: int| 0 <= i < HEADER_SIZE implies a[i] == b[i] by {
        assert(a[i] == a.take(HEADER_SIZE as int)[i]);
        assert(b[i] == b.take(HEADER_SIZE as int)[i]);
    }
}

/// Writing page counts `p` and `g` into bytes four and five of any buffer
/// that holds a header, and decoding it, gives back `p` and `g` as the
/// counts of the program and graphics regions.
pub proof fn lemma_page_counts_round_trip(
    buf: Seq<u8>,
    p: u8,
    g: u8,
    program_page_size: u32,
    graphics_page_size: u32,
)
    requires
        buf.len() >= HEADER_SIZE,
    ensures
        header_of(buf.update(4, p).update(5, g), program_page_size, graphics_page_size).program_region.count == p,
        header_of(buf.update(4, p).update(5, g), program_page_size, graphics_page_size).graphics_region.count == g,
{
}

/// The graphics region always begins where the program region ends.
pub proof fn lemma_regions_contiguous(buf: Seq<u8>, program_page_size: u32, graphics_page_size: u32)
    requires
        buf.len() >= HEADER_SIZE,
    ensures
        header_of(buf, program_page_size, graphics_page_size).graphics_region.start == header_of(
            buf,
            program_page_size,
            graphics_page_size,
        ).program_region.end,
{
}

} // verus!
