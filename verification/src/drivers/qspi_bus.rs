//! Byte framing of the display's QSPI transfers: register writes carry the
//! register in a 24-bit address after command 0x02; pixel data goes out
//! big-endian after command 0x32, in DMA-sized chunks.

use vstd::prelude::*;

verus! {

/// Largest DMA transfer, in bytes.
pub const DMA_CHUNK: usize = 8000;
/// Pixels per DMA transfer.
pub const CHUNK_PIXELS: usize = DMA_CHUNK / 2;
/// Command byte of a register write.
pub const REG_WRITE_CMD: u8 = 0x02;
/// Command byte of a pixel stream (quad data).
pub const PIXEL_CMD: u8 = 0x32;
/// Address field of a pixel stream (memory write, 0x2C, in the middle byte).
pub const PIXEL_ADDR: u32 = 0x003C00;

/// The 24-bit address field of a register write: the register in the middle byte.
pub fn command_address(reg: u8) -> (a: u32)
    ensures
        a == reg as int * 256,
{
    (reg as u32) * 256
}

/// Two 16-bit parameters, each high byte first.
pub fn c16_bytes(d1: u16, d2: u16) -> (r: [u8; 4])
    ensures
        r@ == seq![(d1 / 256) as u8, (d1 % 256) as u8, (d2 / 256) as u8, (d2 % 256) as u8],
{
    let r: [u8; 4] = [(d1 / 256) as u8, (d1 % 256) as u8, (d2 / 256) as u8, (d2 % 256) as u8];
    assert(r@ =~= seq![(d1 / 256) as u8, (d1 % 256) as u8, (d2 / 256) as u8, (d2 % 256) as u8]);
    r
}

/// Pixels as bytes, each high byte first.
pub open spec fn be_bytes(pixels: Seq<u16>) -> Seq<u8> {
    Seq::new(
        2 * pixels.len(),
        |j: int| if j % 2 == 0 { (pixels[j / 2] / 256) as u8 } else { (pixels[j / 2] % 256) as u8 },
    )
}

/// Encodes pixels for the panel.
pub fn encode_pixels(pixels: &[u16]) -> (r: Vec<u8>)
    requires
        2 * pixels@.len() <= usize::MAX,
    ensures
        r@ == be_bytes(pixels@),
{
    let mut out: Vec<u8> = Vec::new();
    let mut i: usize = 0;
    while i < pixels.len()
        invariant
            i <= pixels@.len(),
            out@.len() == 2 * i,
            forall|j: int| 0 <= j < 2 * i ==> #[trigger] out@[j] == be_bytes(pixels@)[j],
        decreases pixels@.len() - i,
    {
        let p = pixels[i];
        out.push((p / 256) as u8);
        out.push((p % 256) as u8);
        proof {
            assert((2 * i) / 2 == i);
            assert((2 * i + 1) / 2 == i);
        }
        i += 1;
    }
    assert(out@ =~= be_bytes(pixels@));
    out
}

/// `n` copies of one colour, high byte first.
pub fn repeat_bytes(color: u16, n: usize) -> (r: Vec<u8>)
    requires
        2 * n <= usize::MAX,
    ensures
        r@ == be_bytes(Seq::new(n as nat, |i: int| color)),
{
    let hi = (color / 256) as u8;
    let lo = (color % 256) as u8;
    let mut out: Vec<u8> = Vec::new();
    let mut i: usize = 0;
    while i < n
        invariant
            i <= n,
            hi == (color / 256) as u8,
            lo == (color % 256) as u8,
            out@.len() == 2 * i,
            forall|j: int| 0 <= j < 2 * i ==> #[trigger] out@[j] == if j % 2 == 0 { hi } else { lo },
        decreases n - i,
    {
        out.push(hi);
        out.push(lo);
        i += 1;
    }
    assert(out@ =~= be_bytes(Seq::new(n as nat, |i: int| color)));
    out
}

/// Transfer sizes for `n` pixels: full chunks, then the rest.
pub open spec fn chunk_sizes(n: nat) -> Seq<usize>
    decreases n,
{
    if n == 0 {
        seq![]
    } else if n <= CHUNK_PIXELS {
        seq![n as usize]
    } else {
        seq![CHUNK_PIXELS].add(chunk_sizes((n - CHUNK_PIXELS) as nat))
    }
}

/// Sum of a list of sizes.
pub open spec fn total(s: Seq<usize>) -> int
    decreases s.len(),
{
    if s.len() == 0 {
        0
    } else {
        s[0] + total(s.drop_first())
    }
}

/// How `n` pixels are cut into DMA transfers.
pub fn pixel_chunks(n: usize) -> (r: Vec<usize>)
    ensures
        r@ == chunk_sizes(n as nat),
    decreases n,
{
    if n == 0 {
        Vec::new()
    } else if n <= CHUNK_PIXELS {
        let mut v = Vec::new();
        v.push(n);
        assert(v@ =~= chunk_sizes(n as nat));
        v
    } else {
        let mut v = Vec::new();
        v.push(CHUNK_PIXELS);
        let mut rest = pixel_chunks(n - CHUNK_PIXELS);
        v.append(&mut rest);
        assert(v@ =~= chunk_sizes(n as nat));
        v
    }
}

/// The transfers carry every pixel exactly once, none larger than a DMA
/// chunk and none empty.
pub proof fn lemma_chunks_partition(n: nat)
    ensures
        total(chunk_sizes(n)) == n,
        forall|i: int| 0 <= i < chunk_sizes(n).len() ==> 0 < #[trigger] chunk_sizes(n)[i] <= CHUNK_PIXELS,
    decreases n,
{
    if n > CHUNK_PIXELS {
        lemma_chunks_partition((n - CHUNK_PIXELS) as nat);
        let s = chunk_sizes(n);
        assert(s.drop_first() =~= chunk_sizes((n - CHUNK_PIXELS) as nat));
        assert(total(s) == CHUNK_PIXELS + total(s.drop_first()));
        assert forall|i: int| 0 <= i < s.len() implies 0 < #[trigger] s[i] <= CHUNK_PIXELS by {
            if i > 0 {
                assert(s[i] == s.drop_first()[i - 1]);
            }
        }
    } else if n > 0 {
        let s = chunk_sizes(n);
        assert(s =~= seq![n as usize]);
        assert(s.drop_first() =~= Seq::<usize>::empty());
        assert(total(s.drop_first()) == 0);
        assert(total(s) == n);
    } else {
        assert(chunk_sizes(n) =~= Seq::<usize>::empty());
    }
}

} // verus!
