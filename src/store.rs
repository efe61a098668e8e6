use vstd::prelude::*;

verus! {

/// Sentinel word stored at the start of an initialized counter region.
pub const MAGIC: u32 = 0xab01cd02;

/// Bytes reserved for the counter region: the sentinel, one counter per
/// button, and zero padding.
pub const REGION_SIZE: usize = 128;

/// Offset of the first button's counter from the start of the region.
pub const LEFT_COUNTER: u32 = 4;

/// Offset of the second button's counter from the start of the region.
pub const RIGHT_COUNTER: u32 = 8;

/// The unsigned value of four bytes taken least significant first.
pub open spec fn le_value(b: Seq<u8>) -> int
    recommends
        b.len() == 4,
{
    b[0] + 256 * b[1] + 65536 * b[2] + 16777216 * b[3]
}

/// The four bytes of `x`, least significant first.
pub open spec fn le_bytes(x: u32) -> Seq<u8> {
    seq![
        (x % 256) as u8,
        (x / 256 % 256) as u8,
        (x / 65536 % 256) as u8,
        (x / 16777216) as u8,
    ]
}

/// Decoding the encoding of a word gives the word back.
pub proof fn lemma_le_round_trip(x: u32)
    ensures
        le_bytes(x).len() == 4,
        le_value(le_bytes(x)) == x,
{
    assert(x == (x % 256) + 256 * ((x / 256) % 256) + 65536 * ((x / 65536) % 256) + 16777216 * (
    x / 16777216)) by (bit_vector);
    assert(x / 16777216 < 256) by (bit_vector);
}

/// Encodes `x` as four little-endian bytes.
pub fn encode_le(x: u32) -> (r: Vec<u8>)
    ensures
        r@ == le_bytes(x),
{
    let mut r: Vec<u8> = Vec::new();
    r.push((x % 256) as u8);
    r.push((x / 256 % 256) as u8);
    r.push((x / 65536 % 256) as u8);
    r.push((x / 16777216) as u8);
    assert(r@ =~= le_bytes(x));
    r
}

/// Decodes four little-endian bytes.
pub fn decode_le(b: [u8; 4]) -> (r: u32)
    ensures
        r == le_value(b@),
{
    b[0] as u32 + (b[1] as u32) * 256 + (b[2] as u32) * 65536 + (b[3] as u32) * 16777216
}

/// Why the counter region cannot be used.
#[derive(Debug, Clone, Copy, PartialEq, Eq, Structural)]
pub enum StoreError {
    /// The flash device is smaller than the reserved region.
    FlashTooSmall,
}

/// One write to hand to the flash device: `bytes` go to `offset` onwards.
#[derive(Debug, PartialEq, Eq)]
pub struct FlashWrite {
    pub offset: u32,
    pub bytes: Vec<u8>,
}

/// The abstract value of a `FlashWrite`.
pub struct FlashWriteView {
    pub offset: u32,
    pub bytes: Seq<u8>,
}

impl View for FlashWrite {
    type V = FlashWriteView;

    open spec fn view(&self) -> FlashWriteView {
        FlashWriteView { offset: self.offset, bytes: self.bytes@ }
    }
}

/// The views of a sequence of writes.
pub open spec fn writes_view(ws: Seq<FlashWrite>) -> Seq<FlashWriteView> {
    ws.map_values(|w: FlashWrite| w@)
}

/// Device contents `dev` after the write `w`.
pub open spec fn apply_write(dev: Seq<u8>, w: FlashWriteView) -> Seq<u8> {
    Seq::new(
        dev.len(),
        |i: int|
            if w.offset <= i < w.offset + w.bytes.len() {
                w.bytes[i - w.offset]
            } else {
                dev[i]
            },
    )
}

/// Device contents `dev` after the writes `ws`, in order.
pub open spec fn apply_writes(dev: Seq<u8>, ws: Seq<FlashWriteView>) -> Seq<u8>
    decreases ws.len(),
{
    if ws.len() == 0 {
        dev
    } else {
        apply_write(apply_writes(dev, ws.drop_last()), ws.last())
    }
}

/// The four sentinel bytes of the region that starts at `base`.
pub open spec fn sentinel_at(dev: Seq<u8>, base: u32) -> Seq<u8> {
    dev.subrange(base as int, base + 4)
}

/// The writes that initialize the region at `base`: the sentinel, then zeros
/// over the rest of the region.
pub open spec fn init_writes(base: u32) -> Seq<FlashWriteView> {
    seq![
        FlashWriteView { offset: base, bytes: le_bytes(MAGIC) },
        FlashWriteView {
            offset: (base + 4) as u32,
            bytes: Seq::new((REGION_SIZE - 4) as nat, |i: int| 0u8),
        },
    ]
}

/// What the start-up check asks of a device of `capacity` bytes whose region
/// at `base` begins with `sentinel`: nothing when the sentinel is in place,
/// the initializing writes when it is not.
pub open spec fn init_plan(capacity: int, sentinel: Seq<u8>, base: u32) -> Result<
    Seq<FlashWriteView>,
    StoreError,
> {
    if capacity < REGION_SIZE {
        Err(StoreError::FlashTooSmall)
    } else if le_value(sentinel) == MAGIC {
        Ok(Seq::empty())
    } else {
        Ok(init_writes(base))
    }
}

/// Start-up check of the counter region at `flash_offset`.
///
/// `capacity` is the size the flash device reports and `sentinel` the four
/// bytes found at `flash_offset`. Fails when the device is smaller than the
/// region. Otherwise returns the writes that bring the region into use:
/// none if the sentinel matches `MAGIC`, else the sentinel followed by zeros
/// over the rest of the region.
pub fn check_memory(capacity: usize, sentinel: [u8; 4], flash_offset: u32) -> (r: Result<
    Vec<FlashWrite>,
    StoreError,
>)
    requires
        flash_offset + REGION_SIZE <= u32::MAX + 1,
    ensures
        match r {
            Ok(ws) => init_plan(capacity as int, sentinel@, flash_offset) == Ok::<
                Seq<FlashWriteView>,
                StoreError,
            >(writes_view(ws@)),
            Err(e) => init_plan(capacity as int, sentinel@, flash_offset) == Err::<
                Seq<FlashWriteView>,
                StoreError,
            >(e),
        },
{
    if capacity < REGION_SIZE {
        return Err(StoreError::FlashTooSmall);
    }
    let mut ws: Vec<FlashWrite> = Vec::new();
    if decode_le(sentinel) != MAGIC {
        ws.push(FlashWrite { offset: flash_offset, bytes: encode_le(MAGIC) });
        let mut zeros: Vec<u8> = Vec::new();
        while zeros.len() < REGION_SIZE - 4
            invariant
                zeros.len() <= REGION_SIZE - 4,
                forall|i: int| 0 <= i < zeros.len() ==> zeros@[i] == 0u8,
            decreases REGION_SIZE - 4 - zeros.len(),
        {
            zeros.push(0u8);
        }
        assert(zeros@ =~= Seq::new((REGION_SIZE - 4) as nat, |i: int| 0u8));
        ws.push(FlashWrite { offset: flash_offset + 4, bytes: zeros });
        assert(writes_view(ws@)[0] == init_writes(flash_offset)[0]);
        assert(writes_view(ws@)[1] == init_writes(flash_offset)[1]);
        assert(writes_view(ws@) =~= init_writes(flash_offset));
    } else {
        assert(writes_view(ws@) =~= Seq::empty());
    }
    Ok(ws)
}

/// The start-up check is idempotent: once the writes it asked for have been
/// made, checking the same region again asks for no write at all.
pub proof fn lemma_check_memory_idempotent(capacity: usize, dev: Seq<u8>, base: u32)
    requires
        capacity >= REGION_SIZE,
        base + REGION_SIZE <= dev.len(),
        base + REGION_SIZE <= u32::MAX + 1,
    ensures
        init_plan(capacity as int, sentinel_at(dev, base), base) is Ok,
        init_plan(
            capacity as int,
            sentinel_at(
                apply_writes(dev, init_plan(capacity as int, sentinel_at(dev, base), base)->Ok_0),
                base,
            ),
            base,
        ) == Ok::<Seq<FlashWriteView>, StoreError>(Seq::empty()),
{
    let ws = init_plan(capacity as int, sentinel_at(dev, base), base)->Ok_0;
    if ws.len() == 0 {
        assert(apply_writes(dev, ws) == dev);
    } else {
        let w = init_writes(base);
        assert(ws == w);
        assert(w.drop_last().drop_last() =~= Seq::<FlashWriteView>::empty());
        assert(w.drop_last() =~= seq![w[0]]);
        let d1 = apply_write(dev, w[0]);
        assert(apply_writes(dev, w.drop_last()) == d1) by {
            assert(apply_writes(dev, w.drop_last().drop_last()) == dev);
        }
        let d2 = apply_write(d1, w[1]);
        assert(apply_writes(dev, w) == d2);
        lemma_le_round_trip(MAGIC);
        assert(sentinel_at(d2, base) =~= le_bytes(MAGIC));
    }
}

impl FlashWrite {
    /// Performs this write on `dev`, an in-memory image of a flash device.
    pub fn apply_to(&self, dev: &mut Vec<u8>)
        requires
            self.offset + self.bytes.len() <= old(dev).len(),
        ensures
            final(dev)@ == apply_write(old(dev)@, self@),
    {
        let mut i: usize = 0;
        let n = self.bytes.len();
        let base = self.offset as usize;
        while i < n
            invariant
                0 <= i <= n,
                n == self.bytes.len(),
                base == self.offset,
                base + n <= dev.len(),
                dev@.len() == old(dev)@.len(),
                forall|j: int|
                    0 <= j < dev@.len() ==> dev@[j] == (if base <= j < base + i {
                        self.bytes@[j - base]
                    } else {
                        old(dev)@[j]
                    }),
            decreases n - i,
        {
            dev.set(base + i, self.bytes[i]);
            i = i + 1;
        }
        assert(dev@ =~= apply_write(old(dev)@, self@));
    }
}

} // verus!
