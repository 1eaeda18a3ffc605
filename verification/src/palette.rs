//! The palette store: 256 RGBA entries, replaced wholesale and published as a
//! flat byte payload for upload into a 256 x 1 lookup texture.

use vstd::prelude::*;

verus! {

/// The number of entries a palette always holds.
pub const PALETTE_LEN: usize = 256;

/// One palette entry: red, green, blue, alpha.
#[derive(Clone, Copy, Debug, PartialEq, Eq, Structural)]
pub struct Rgba(pub u8, pub u8, pub u8, pub u8);

impl Rgba {
    /// The entry's four channels in payload order.
    pub open spec fn spec_channels(self) -> Seq<u8> {
        seq![self.0, self.1, self.2, self.3]
    }

    /// The entry as a four-byte array, red first.
    pub fn to_array(&self) -> (a: [u8; 4])
        ensures
            a@ == self.spec_channels(),
    {
        let a = [self.0, self.1, self.2, self.3];
        proof {
            assert(a@ =~= self.spec_channels());
        }
        a
    }
}

impl Default for Rgba {
    /// The transparent black entry used to fill unset palette slots.
    fn default() -> (c: Self)
        ensures
            c == Rgba(0, 0, 0, 0),
    {
        Rgba(0, 0, 0, 0)
    }
}

/// Channel `j` of an entry, in payload order.
pub open spec fn channel(c: Rgba, j: int) -> u8 {
    if j == 0 {
        c.0
    } else if j == 1 {
        c.1
    } else if j == 2 {
        c.2
    } else {
        c.3
    }
}

/// The flat byte payload of a palette: four bytes per entry, red first, in
/// entry order with no reordering.
pub open spec fn spec_payload(entries: Seq<Rgba>) -> Seq<u8> {
    Seq::new(4 * entries.len(), |k: int| channel(entries[k / 4], k % 4))
}

/// The palette a flat byte payload denotes: the inverse reading of
/// `spec_payload`.
pub open spec fn spec_entries_of(bytes: Seq<u8>) -> Seq<Rgba> {
    Seq::new(
        bytes.len() / 4,
        |i: int| Rgba(bytes[4 * i], bytes[4 * i + 1], bytes[4 * i + 2], bytes[4 * i + 3]),
    )
}

/// The default palette entry at index `i`: a deterministic ramp, not meant to
/// be visually meaningful, only non-degenerate.
pub open spec fn default_entry(i: int) -> Rgba {
    Rgba(((i * 2) % 256) as u8, ((i * 3) % 256) as u8, ((i * 4) % 256) as u8, 255)
}

/// The palette entry at index `i` of the cycling ramp with phase byte `x`.
pub open spec fn cycle_entry(x: int, i: int) -> Rgba {
    Rgba(((x + i * 2) % 256) as u8, ((x + i * 4) % 256) as u8, ((x + i) % 256) as u8, 255)
}

/// Holds the 256 palette entries owned by the rendering component.
pub struct Palette {
    entries: Vec<Rgba>,
}

impl View for Palette {
    type V = Seq<Rgba>;

    closed spec fn view(&self) -> Seq<Rgba> {
        self.entries@
    }
}

impl Palette {
    /// A palette always holds exactly 256 entries.
    pub open spec fn wf(self) -> bool {
        self@.len() == 256
    }

    /// The default palette used before any explicit `set`: entry `i` is
    /// `(i*2 mod 256, i*3 mod 256, i*4 mod 256, 255)`.
    pub fn new() -> (p: Palette)
        ensures
            p.wf(),
            forall|i: int| 0 <= i < 256 ==> p@[i] == default_entry(i),
    {
        let mut entries: Vec<Rgba> = Vec::new();
        let mut i: usize = 0;
        while i < 256
            invariant
                i <= 256,
                entries@.len() == i,
                forall|k: int| 0 <= k < i ==> entries@[k] == default_entry(k),
            decreases 256 - i,
        {
            entries.push(Rgba(((i * 2) % 256) as u8, ((i * 3) % 256) as u8, ((i * 4) % 256) as u8, 255));
            i = i + 1;
        }
        Palette { entries }
    }

    /// The cycling ramp with phase byte `x`: each channel of the default-style
    /// ramp shifted by `x`, wrapping modulo 256.
    pub fn cycling(x: u8) -> (p: Palette)
        ensures
            p.wf(),
            forall|i: int| 0 <= i < 256 ==> p@[i] == cycle_entry(x as int, i),
    {
        let mut entries: Vec<Rgba> = Vec::new();
        let mut i: usize = 0;
        while i < 256
            invariant
                i <= 256,
                entries@.len() == i,
                forall|k: int| 0 <= k < i ==> entries@[k] == cycle_entry(x as int, k),
            decreases 256 - i,
        {
            let xs = x as usize;
            entries.push(
                Rgba(((xs + i * 2) % 256) as u8, ((xs + i * 4) % 256) as u8, ((xs + i) % 256) as u8, 255),
            );
            i = i + 1;
        }
        Palette { entries }
    }

    /// Replace the palette wholesale; no frame observes a half-updated one.
    pub fn set(&mut self, entries: Vec<Rgba>)
        requires
            entries@.len() == 256,
        ensures
            final(self)@ == entries@,
            final(self).wf(),
    {
        self.entries = entries;
    }

    /// Replace the palette from a source of up to 256 entries, padding the
    /// slots past the source's length with `(0, 0, 0, 0)`.
    pub fn set_partial(&mut self, entries: &Vec<Rgba>)
        requires
            entries@.len() <= 256,
        ensures
            final(self).wf(),
            forall|i: int| 0 <= i < entries@.len() ==> final(self)@[i] == entries@[i],
            forall|i: int| entries@.len() <= i < 256 ==> final(self)@[i] == Rgba(0, 0, 0, 0),
    {
        let mut full: Vec<Rgba> = Vec::new();
        let mut i: usize = 0;
        let n = entries.len();
        while i < n
            invariant
                n == entries@.len() <= 256,
                i <= n,
                full@.len() == i,
                forall|k: int| 0 <= k < i ==> full@[k] == entries@[k],
            decreases n - i,
        {
            full.push(entries[i]);
            i = i + 1;
        }
        while i < 256
            invariant
                n == entries@.len() <= 256,
                n <= i <= 256,
                full@.len() == i,
                forall|k: int| 0 <= k < n ==> full@[k] == entries@[k],
                forall|k: int| n <= k < i ==> full@[k] == Rgba(0, 0, 0, 0),
            decreases 256 - i,
        {
            full.push(Rgba(0, 0, 0, 0));
            i = i + 1;
        }
        self.entries = full;
    }

    /// The 1024-byte upload payload: entry `i`'s channels at offset `4 * i`,
    /// red first.
    pub fn payload(&self) -> (r: Vec<u8>)
        requires
            self.wf(),
        ensures
            r@ == spec_payload(self@),
            r@.len() == 1024,
    {
        let mut rows: Vec<[u8; 4]> = Vec::new();
        let mut i: usize = 0;
        while i < 256
            invariant
                self.wf(),
                i <= 256,
                rows@.len() == i,
                forall|k: int| 0 <= k < i ==> #[trigger] rows@[k]@ == self@[k].spec_channels(),
            decreases 256 - i,
        {
            rows.push(self.entry_array(i));
            i = i + 1;
        }
        let r = flatten_rows(&rows);
        proof {
            assert forall|k: int| 0 <= k < 1024 implies r@[k] == spec_payload(self@)[k] by {
                let q = k / 4;
                let j = k % 4;
                assert(k == 4 * q + j);
                assert(r@[4 * q + j] == rows@[q]@[j]);
            }
            assert(r@ =~= spec_payload(self@));
        }
        r
    }

    /// Entry `i` as its four payload bytes.
    fn entry_array(&self, i: usize) -> (a: [u8; 4])
        requires
            i < self@.len(),
        ensures
            a@ == self@[i as int].spec_channels(),
    {
        self.entries[i].to_array()
    }

    /// Reconstruct a palette from a 1024-byte payload, inverting `payload`.
    pub fn from_payload(bytes: &Vec<u8>) -> (p: Palette)
        requires
            bytes@.len() == 1024,
        ensures
            p.wf(),
            p@ == spec_entries_of(bytes@),
    {
        let mut entries: Vec<Rgba> = Vec::new();
        let mut i: usize = 0;
        while i < 256
            invariant
                bytes@.len() == 1024,
                i <= 256,
                entries@.len() == i,
                forall|k: int| 0 <= k < i ==> entries@[k] == spec_entries_of(bytes@)[k],
            decreases 256 - i,
        {
            entries.push(Rgba(bytes[4 * i], bytes[4 * i + 1], bytes[4 * i + 2], bytes[4 * i + 3]));
            i = i + 1;
        }
        proof {
            assert(entries@ =~= spec_entries_of(bytes@));
        }
        Palette { entries }
    }
}

/// Relies on bytemuck::cast_slice: a slice of four-byte arrays reinterpreted
/// as its underlying bytes, each array's bytes in order, arrays in order.
#[verifier::external_body]
fn flatten_rows(rows: &Vec<[u8; 4]>) -> (r: Vec<u8>)
    ensures
        r@.len() == 4 * rows@.len(),
        forall|i: int, j: int|
            0 <= i < rows@.len() && 0 <= j < 4 ==> #[trigger] r@[4 * i + j] == rows@[i]@[j],
{
    bytemuck::cast_slice::<[u8; 4], u8>(rows.as_slice()).to_vec()
}

/// Reading a palette's payload back reconstructs exactly the entries that
/// were set: the payload encodes the palette with no loss and no reordering.
pub proof fn lemma_payload_round_trip(entries: Seq<Rgba>)
    ensures
        spec_entries_of(spec_payload(entries)) == entries,
{
    let bytes = spec_payload(entries);
    assert forall|i: int| 0 <= i < entries.len() implies spec_entries_of(bytes)[i]
        == entries[i] by {
        assert(bytes[4 * i] == channel(entries[(4 * i) / 4], (4 * i) % 4));
        assert(bytes[4 * i + 1] == channel(entries[(4 * i + 1) / 4], (4 * i + 1) % 4));
        assert(bytes[4 * i + 2] == channel(entries[(4 * i + 2) / 4], (4 * i + 2) % 4));
        assert(bytes[4 * i + 3] == channel(entries[(4 * i + 3) / 4], (4 * i + 3) % 4));
    }
    assert(spec_entries_of(spec_payload(entries)) =~= entries);
}

} // verus!
