//! GRIB2 parser for HRRR weather model data.
//!
//! Parses the GRIB2 container format (sections 0 to 7) and unpacks the
//! integer codes of the grid-point data.

pub mod bytes;
pub mod error;
pub mod packing;
pub mod sections;
pub mod tables;
pub mod templates;

use bytes::{be32, be64, read_u32_be};
use error::Grib2Error;
use sections::{
    BitmapSection, DataRepresentationSection, DataSection, GridDefinitionSection,
    IdentificationSection, IndicatorSection, ProductDefinitionSection,
};
use templates::LambertConformal;
use vstd::prelude::*;
use vstd::slice::slice_subrange;

verus! {

/// A fully parsed GRIB2 message containing one data field.
#[derive(Debug, Clone)]
pub struct Grib2Message {
    pub indicator: IndicatorSection,
    pub identification: IdentificationSection,
    pub grid_definition: GridDefinitionSection,
    pub product_definition: ProductDefinitionSection,
    pub data_representation: DataRepresentationSection,
    pub bitmap: BitmapSection,
    pub data: DataSection,
}

/// Where the sections of a message start, or why the message cannot be read.
pub enum MessageLayout {
    /// Reading the message indexes or slices past the buffer.
    Undefined,
    /// Reading the message stops with this error.
    Fails(Grib2Error),
    /// The sections start at these byte offsets.
    Sections { grid: int, product: int, representation: int, bitmap: int, data: int },
}

/// Where section 3 starts: after section 1, and after section 2 (local use)
/// when the byte at offset 4 of what follows section 1 is 2.
pub open spec fn grid_offset(d: Seq<u8>) -> int {
    let o = 16 + be32(d, 16);
    if o + 5 <= d.len() && d[o + 4] == 2 {
        o + be32(d, o)
    } else {
        o
    }
}

/// The layout of the sections from section 6 on, given where section 6 starts.
pub open spec fn layout_from_bitmap(d: Seq<u8>, g: int, p: int, r: int, b: int) -> MessageLayout {
    if b > d.len() || !BitmapSection::parse_defined(d.skip(b)) {
        MessageLayout::Undefined
    } else if BitmapSection::parse_error(d.skip(b)) is Some {
        MessageLayout::Fails(BitmapSection::parse_error(d.skip(b))->0)
    } else {
        let t = b + be32(d, b);
        if t > d.len() || !DataSection::parse_defined(d.skip(t)) {
            MessageLayout::Undefined
        } else if DataSection::parse_error(d.skip(t)) is Some {
            MessageLayout::Fails(DataSection::parse_error(d.skip(t))->0)
        } else {
            MessageLayout::Sections { grid: g, product: p, representation: r, bitmap: b, data: t }
        }
    }
}

/// The layout of the sections from section 4 on, given where sections 3 and 4 start.
pub open spec fn layout_from_product(d: Seq<u8>, g: int, p: int) -> MessageLayout {
    if p > d.len() || !ProductDefinitionSection::parse_defined(d.skip(p)) {
        MessageLayout::Undefined
    } else if ProductDefinitionSection::parse_error(d.skip(p)) is Some {
        MessageLayout::Fails(ProductDefinitionSection::parse_error(d.skip(p))->0)
    } else {
        let r = p + be32(d, p);
        if r > d.len() || !DataRepresentationSection::parse_defined(d.skip(r)) {
            MessageLayout::Undefined
        } else if DataRepresentationSection::parse_error(d.skip(r)) is Some {
            MessageLayout::Fails(DataRepresentationSection::parse_error(d.skip(r))->0)
        } else {
            layout_from_bitmap(d, g, p, r, r + be32(d, r))
        }
    }
}

/// How the message parser reads `d`: section 0 is the first 16 bytes,
/// section 1 follows, an optional section 2 is skipped, and sections 3 to 7
/// each start where the previous one's declared length ends.
#[verifier::opaque]
pub open spec fn message_layout(d: Seq<u8>) -> MessageLayout {
    if d.len() < 16 {
        MessageLayout::Fails(Grib2Error::MessageTooShort)
    } else if IndicatorSection::parse_error(d.take(16)) is Some {
        MessageLayout::Fails(IndicatorSection::parse_error(d.take(16))->0)
    } else if IdentificationSection::parse_error(d.skip(16)) is Some {
        MessageLayout::Fails(IdentificationSection::parse_error(d.skip(16))->0)
    } else {
        let g = grid_offset(d);
        if g > d.len() || !GridDefinitionSection::parse_defined(d.skip(g)) {
            MessageLayout::Undefined
        } else if GridDefinitionSection::parse_error(d.skip(g)) is Some {
            MessageLayout::Fails(GridDefinitionSection::parse_error(d.skip(g))->0)
        } else {
            layout_from_product(d, g, g + be32(d, g))
        }
    }
}

/// The bytes of `data` from `offset` on; `None` when the offset is past the end.
fn section_slice(data: &[u8], offset: usize) -> (r: Option<&[u8]>)
    ensures
        r is None <==> offset > data@.len(),
        r matches Some(s) ==> s@ == data@.skip(offset as int),
{
    if offset > data.len() {
        None
    } else {
        let rest = slice_subrange(data, offset, data.len());
        assert(rest@ == data@.skip(offset as int));
        Some(rest)
    }
}

/// An offset computed by a checked addition: `None` stands for a sum past
/// `usize::MAX`, which is past the end of any buffer.
pub open spec fn offset_value(o: Option<usize>, exact: int) -> bool {
    match o {
        Some(v) => v == exact,
        None => exact > usize::MAX,
    }
}

/// Parses sections 6 and 7, section 6 starting at `b`.
fn parse_from_bitmap(
    data: &[u8],
    Ghost(g): Ghost<int>,
    Ghost(p): Ghost<int>,
    Ghost(r): Ghost<int>,
    b: Option<usize>,
    Ghost(b_exact): Ghost<int>,
) -> (res: Option<Result<(BitmapSection, DataSection), Grib2Error>>)
    requires
        offset_value(b, b_exact),
    ensures
        res is None <==> layout_from_bitmap(data@, g, p, r, b_exact) is Undefined,
        res matches Some(Err(e)) ==> layout_from_bitmap(data@, g, p, r, b_exact)
            == MessageLayout::Fails(e),
        res matches Some(Ok((bm, ds))) ==> {
            &&& layout_from_bitmap(data@, g, p, r, b_exact) matches MessageLayout::Sections {
                data: t,
                ..
            }
            &&& bm.decoded_from(data@.skip(b_exact))
            &&& ds.decoded_from(data@.skip(t))
        },
{
    let len = data.len();
    assert(len == data@.len());
    let b = match b {
        None => return None,
        Some(b) => b,
    };
    let bitmap = match section_slice(data, b) {
        None => return None,
        Some(rest) => match BitmapSection::try_parse(rest) {
            None => return None,
            Some(Ok(s)) => s,
            Some(Err(e)) => return Some(Err(e)),
        },
    };
    assert(bitmap.section_length == be32(data@, b as int));
    let t = match b.checked_add(bitmap.section_length as usize) {
        None => return None,
        Some(t) => t,
    };
    let data_section = match section_slice(data, t) {
        None => return None,
        Some(rest) => match DataSection::try_parse(rest) {
            None => return None,
            Some(Ok(s)) => s,
            Some(Err(e)) => return Some(Err(e)),
        },
    };
    Some(Ok((bitmap, data_section)))
}

/// Parses sections 4 to 7, section 4 starting at `p`.
fn parse_from_product(data: &[u8], Ghost(g): Ghost<int>, p: Option<usize>) -> (res: Option<
    Result<(ProductDefinitionSection, DataRepresentationSection, BitmapSection, DataSection), Grib2Error>,
>)
    requires
        0 <= g <= data@.len(),
        p is None ==> g + be32(data@, g) > usize::MAX,
        p matches Some(v) ==> v == g + be32(data@, g),
    ensures
        res is None <==> layout_from_product(data@, g, g + be32(data@, g)) is Undefined,
        res matches Some(Err(e)) ==> layout_from_product(data@, g, g + be32(data@, g))
            == MessageLayout::Fails(e),
        res matches Some(Ok((pd, dr, bm, ds))) ==> {
            &&& layout_from_product(data@, g, g + be32(data@, g)) matches MessageLayout::Sections {
                product: p_off,
                representation: r_off,
                bitmap: b_off,
                data: t_off,
                ..
            }
            &&& pd.decoded_from(data@.skip(p_off))
            &&& dr.decoded_from(data@.skip(r_off))
            &&& bm.decoded_from(data@.skip(b_off))
            &&& ds.decoded_from(data@.skip(t_off))
        },
{
    let ghost d = data@;
    let len = data.len();
    assert(len == data@.len());
    let p = match p {
        None => return None,
        Some(p) => p,
    };
    let product_definition = match section_slice(data, p) {
        None => return None,
        Some(rest) => match ProductDefinitionSection::try_parse(rest) {
            None => return None,
            Some(Ok(s)) => s,
            Some(Err(e)) => return Some(Err(e)),
        },
    };
    assert(product_definition.section_length == be32(d, p as int));
    let r = match p.checked_add(product_definition.section_length as usize) {
        None => return None,
        Some(r) => r,
    };
    let data_representation = match section_slice(data, r) {
        None => return None,
        Some(rest) => match DataRepresentationSection::try_parse(rest) {
            None => return None,
            Some(Ok(s)) => s,
            Some(Err(e)) => return Some(Err(e)),
        },
    };
    assert(data_representation.section_length == be32(d, r as int));
    let b = r.checked_add(data_representation.section_length as usize);
    match parse_from_bitmap(
        data,
        Ghost(g),
        Ghost(p as int),
        Ghost(r as int),
        b,
        Ghost(r + be32(d, r as int)),
    ) {
        None => None,
        Some(Err(e)) => Some(Err(e)),
        Some(Ok((bm, ds))) => Some(Ok((product_definition, data_representation, bm, ds))),
    }
}

impl Grib2Message {
    /// Every section of the message holds the bytes where the layout of `d`
    /// puts it.
    pub open spec fn decoded_from(self, d: Seq<u8>) -> bool {
        &&& message_layout(d) matches MessageLayout::Sections { grid, product, representation, bitmap, data }
        &&& self.indicator.decoded_from(d.take(16))
        &&& self.identification.decoded_from(d.skip(16))
        &&& self.grid_definition.decoded_from(d.skip(grid))
        &&& self.product_definition.decoded_from(d.skip(product))
        &&& self.data_representation.decoded_from(d.skip(representation))
        &&& self.bitmap.decoded_from(d.skip(bitmap))
        &&& self.data.decoded_from(d.skip(data))
    }

    /// Parses a message when that is defined; `None` when a section offset
    /// or a declared section length points past the buffer.
    pub fn try_parse(data: &[u8]) -> (r: Option<Result<Self, Grib2Error>>)
        ensures
            r is None <==> message_layout(data@) is Undefined,
            r matches Some(Err(e)) ==> message_layout(data@) == MessageLayout::Fails(e),
            r matches Some(Ok(m)) ==> m.decoded_from(data@),
    {
        reveal(message_layout);
        let ghost d = data@;
        if data.len() < 16 {
            return Some(Err(Grib2Error::MessageTooShort));
        }
        let indicator = match IndicatorSection::parse(slice_subrange(data, 0, 16)) {
            Ok(s) => s,
            Err(e) => return Some(Err(e)),
        };
        let rest = slice_subrange(data, 16, data.len());
        assert(rest@ == d.skip(16));
        let identification = match IdentificationSection::parse(rest) {
            Ok(s) => s,
            Err(e) => return Some(Err(e)),
        };
        let mut offset: usize = match 16usize.checked_add(identification.section_length as usize) {
            Some(o) => o,
            None => return None,
        };
        if offset <= data.len() && data.len() - offset >= 5 && data[offset + 4] == 2 {
            let sec2_len = read_u32_be(data, offset);
            offset = match offset.checked_add(sec2_len as usize) {
                Some(o) => o,
                None => return None,
            };
        }
        assert(offset == grid_offset(d));
        let grid_definition = match section_slice(data, offset) {
            None => return None,
            Some(rest) => match GridDefinitionSection::try_parse(rest) {
                None => return None,
                Some(Ok(s)) => s,
                Some(Err(e)) => return Some(Err(e)),
            },
        };
        let next = offset.checked_add(grid_definition.section_length as usize);
        match parse_from_product(data, Ghost(offset as int), next) {
            None => None,
            Some(Err(e)) => Some(Err(e)),
            Some(Ok((product_definition, data_representation, bitmap, data_section))) => Some(
                Ok(Grib2Message {
                    indicator,
                    identification,
                    grid_definition,
                    product_definition,
                    data_representation,
                    bitmap,
                    data: data_section,
                }),
            ),
        }
    }

    /// Parses a single GRIB2 message from raw bytes. The bytes should start
    /// with "GRIB"; sections 3 to 7 follow one another by their declared
    /// lengths.
    pub fn parse(data: &[u8]) -> (r: Result<Self, Grib2Error>)
        requires
            !(message_layout(data@) is Undefined),
        ensures
            r matches Err(e) ==> message_layout(data@) == MessageLayout::Fails(e),
            r matches Ok(m) ==> m.decoded_from(data@),
    {
        Self::try_parse(data).unwrap()
    }

    /// Reads the grid as Lambert Conformal (HRRR's native grid).
    pub fn lambert_grid(&self) -> (r: Result<LambertConformal, Grib2Error>)
        ensures
            r == self.grid_definition.lambert_conformal_result(),
    {
        self.grid_definition.as_lambert_conformal()
    }

    /// Discipline, parameter category and parameter number.
    pub fn parameter_id(&self) -> (r: (u8, u8, u8))
        ensures
            r == (
                self.indicator.discipline,
                self.product_definition.parameter_category,
                self.product_definition.parameter_number,
            ),
    {
        (
            self.indicator.discipline,
            self.product_definition.parameter_category,
            self.product_definition.parameter_number,
        )
    }
}

/// What scanning a buffer for messages finds.
pub enum MessageScan {
    /// A message cannot be read (it points past the buffer), its declared
    /// total length is zero so the scan would never move on, or the next
    /// offset passes `usize::MAX`.
    Undefined,
    /// A message starting with `GRIB` fails to parse with this error.
    Fails(Grib2Error),
    /// Messages start at these offsets, in order.
    Found(Seq<int>),
}

/// Whether the four bytes at `i` are `GRIB`.
pub open spec fn grib_magic_at(d: Seq<u8>, i: int) -> bool {
    d[i] == 0x47 && d[i + 1] == 0x52 && d[i + 2] == 0x49 && d[i + 3] == 0x42
}

/// The offsets found before `scan`, put in front of what `scan` finds.
pub open spec fn after_offsets(offs: Seq<int>, scan: MessageScan) -> MessageScan {
    match scan {
        MessageScan::Found(s) => MessageScan::Found(offs + s),
        other => other,
    }
}

/// Scanning `d` from `off`: while 16 bytes remain, a position without the
/// `GRIB` magic is skipped by one byte; at the magic a message is parsed and
/// the scan goes on after its declared total length.
pub open spec fn scan_messages(d: Seq<u8>, off: int) -> MessageScan
    decreases d.len() - off,
{
    if off < 0 || off + 16 > d.len() {
        MessageScan::Found(Seq::empty())
    } else if !grib_magic_at(d, off) {
        scan_messages(d, off + 1)
    } else {
        match message_layout(d.skip(off)) {
            MessageLayout::Undefined => MessageScan::Undefined,
            MessageLayout::Fails(e) => MessageScan::Fails(e),
            MessageLayout::Sections { .. } => {
                let total = (be64(d, off + 8) as usize) as int;
                if total == 0 || off + total > usize::MAX {
                    MessageScan::Undefined
                } else if off + total + 16 > d.len() {
                    MessageScan::Found(seq![off])
                } else {
                    after_offsets(seq![off], scan_messages(d, off + total))
                }
            },
        }
    }
}

proof fn lemma_after_offsets_push(offs: Seq<int>, off: int, scan: MessageScan)
    ensures
        after_offsets(offs, after_offsets(seq![off], scan)) == after_offsets(offs.push(off), scan),
{
    if let MessageScan::Found(s) = scan {
        assert(offs + (seq![off] + s) =~= offs.push(off) + s);
    }
}

proof fn lemma_scan_end(d: Seq<u8>, off: int)
    requires
        0 <= off,
        off + 16 > d.len(),
    ensures
        scan_messages(d, off) == MessageScan::Found(Seq::<int>::empty()),
{
}

/// Parses every GRIB2 message in a buffer when that is defined; `None` when
/// the scan is undefined.
pub fn try_parse_messages(data: &[u8]) -> (r: Option<Result<Vec<Grib2Message>, Grib2Error>>)
    ensures
        r is None <==> scan_messages(data@, 0) is Undefined,
        r matches Some(Err(e)) ==> scan_messages(data@, 0) == MessageScan::Fails(e),
        r matches Some(Ok(msgs)) ==> {
            &&& scan_messages(data@, 0) matches MessageScan::Found(offs)
            &&& msgs@.len() == offs.len()
            &&& forall|i: int|
                0 <= i < offs.len() ==> #[trigger] msgs@[i].decoded_from(data@.skip(offs[i]))
        },
{
    let ghost d = data@;
    let mut messages: Vec<Grib2Message> = Vec::new();
    let ghost mut offs: Seq<int> = Seq::empty();
    let mut offset: usize = 0;
    assert(offs + Seq::<int>::empty() =~= offs);
    while offset <= data.len() && data.len() - offset >= 16
        invariant
            d == data@,
            scan_messages(d, 0) == after_offsets(offs, scan_messages(d, offset as int)),
            messages@.len() == offs.len(),
            forall|i: int|
                0 <= i < offs.len() ==> #[trigger] messages@[i].decoded_from(d.skip(offs[i])),
        decreases if offset <= data@.len() { data@.len() - offset + 1 } else { 0 },
    {
        if !(data[offset] == 0x47 && data[offset + 1] == 0x52 && data[offset + 2] == 0x49
            && data[offset + 3] == 0x42) {
            offset = offset + 1;
            continue;
        }
        let rest = slice_subrange(data, offset, data.len());
        assert(rest@ == d.skip(offset as int));
        let msg = match Grib2Message::try_parse(rest) {
            None => return None,
            Some(Err(e)) => return Some(Err(e)),
            Some(Ok(m)) => m,
        };
        assert(msg.indicator.total_length == be64(d, offset + 8)) by {
            assert(d.skip(offset as int).take(16)[8] == d[offset + 8]);
            assert(d.skip(offset as int).take(16)[15] == d[offset + 15]);
        }
        let msg_len = msg.indicator.total_length as usize;
        if msg_len == 0 {
            return None;
        }
        let next = match offset.checked_add(msg_len) {
            None => return None,
            Some(n) => n,
        };
        proof {
            if next as int + 16 > d.len() {
                lemma_scan_end(d, next as int);
                assert(seq![offset as int] =~= seq![offset as int] + Seq::<int>::empty());
            }
            lemma_after_offsets_push(offs, offset as int, scan_messages(d, next as int));
            offs = offs.push(offset as int);
        }
        messages.push(msg);
        offset = next;
    }
    assert(offs + Seq::<int>::empty() =~= offs);
    Some(Ok(messages))
}

/// Parses all GRIB2 messages from a byte buffer (which may contain several
/// messages), skipping bytes until each `GRIB` magic.
pub fn parse_messages(data: &[u8]) -> (r: Result<Vec<Grib2Message>, Grib2Error>)
    requires
        !(scan_messages(data@, 0) is Undefined),
    ensures
        r matches Err(e) ==> scan_messages(data@, 0) == MessageScan::Fails(e),
        r matches Ok(msgs) ==> {
            &&& scan_messages(data@, 0) matches MessageScan::Found(offs)
            &&& msgs@.len() == offs.len()
            &&& forall|i: int|
                0 <= i < offs.len() ==> #[trigger] msgs@[i].decoded_from(data@.skip(offs[i]))
        },
{
    try_parse_messages(data).unwrap()
}

/// Messages are found in buffer order, each where the `GRIB` magic stands,
/// with its 16-byte indicator inside the buffer, and none before the scan's
/// start.
pub proof fn law_messages_found_in_order(d: Seq<u8>, off: int)
    requires
        0 <= off,
    ensures
        scan_messages(d, off) matches MessageScan::Found(offs) ==> {
            &&& forall|i: int, j: int| 0 <= i < j < offs.len() ==> offs[i] < offs[j]
            &&& forall|i: int|
                0 <= i < offs.len() ==> off <= #[trigger] offs[i] && offs[i] + 16 <= d.len() && grib_magic_at(
                    d,
                    offs[i],
                )
        },
    decreases d.len() - off,
{
    if off + 16 > d.len() {
    } else if !grib_magic_at(d, off) {
        law_messages_found_in_order(d, off + 1);
    } else {
        match message_layout(d.skip(off)) {
            MessageLayout::Sections { .. } => {
                let total = (be64(d, off + 8) as usize) as int;
                if total == 0 || off + total > usize::MAX {
                } else if off + total + 16 > d.len() {
                } else {
                    law_messages_found_in_order(d, off + total);
                    if let MessageScan::Found(rest) = scan_messages(d, off + total) {
                        let offs = seq![off] + rest;
                        assert forall|i: int, j: int| 0 <= i < j < offs.len() implies offs[i] < offs[j] by {
                            if i > 0 {
                                assert(offs[i] == rest[i - 1]);
                            }
                            assert(offs[j] == rest[j - 1]);
                        }
                        assert forall|i: int| 0 <= i < offs.len() implies off <= #[trigger] offs[i]
                            && offs[i] + 16 <= d.len() && grib_magic_at(d, offs[i]) by {
                            if i > 0 {
                                assert(offs[i] == rest[i - 1]);
                            }
                        }
                    }
                }
            },
            _ => {},
        }
    }
}

/// A scan's message offsets moved `k` bytes on.
pub open spec fn shift_scan(scan: MessageScan, k: int) -> MessageScan {
    match scan {
        MessageScan::Found(offs) => MessageScan::Found(offs.map_values(|o: int| o + k)),
        other => other,
    }
}

proof fn lemma_scan_skips_junk(d: Seq<u8>, off: int, k: int)
    requires
        0 <= off <= k,
        forall|i: int| off <= i < k && i + 16 <= d.len() ==> !#[trigger] grib_magic_at(d, i),
    ensures
        scan_messages(d, off) == scan_messages(d, k),
    decreases k - off,
{
    if off < k && off + 16 <= d.len() {
        assert(!grib_magic_at(d, off));
        lemma_scan_skips_junk(d, off + 1, k);
    }
}

proof fn lemma_scan_shift(junk: Seq<u8>, data: Seq<u8>, o: int)
    requires
        0 <= o,
        !(scan_messages(junk + data, junk.len() + o) is Undefined),
        !(scan_messages(data, o) is Undefined),
    ensures
        scan_messages(junk + data, junk.len() + o) == shift_scan(scan_messages(data, o), junk.len() as int),
    decreases data.len() - o,
{
    let d = junk + data;
    let jl = junk.len() as int;
    let off = jl + o;
    if o + 16 > data.len() {
        assert(Seq::<int>::empty().map_values(|x: int| x + jl) =~= Seq::<int>::empty());
    } else {
        assert forall|k: int| 0 <= k < 16 implies #[trigger] d[off + k] == data[o + k] by {}
        if !grib_magic_at(data, o) {
            assert(!grib_magic_at(d, off));
            lemma_scan_shift(junk, data, o + 1);
        } else {
            assert(grib_magic_at(d, off));
            assert(d.skip(off) =~= data.skip(o));
            assert(be64(d, off + 8) == be64(data, o + 8));
            match message_layout(data.skip(o)) {
                MessageLayout::Sections { .. } => {
                    let total = (be64(data, o + 8) as usize) as int;
                    if off + total + 16 > d.len() {
                        assert(seq![o].map_values(|x: int| x + jl) =~= seq![off]);
                    } else {
                        lemma_scan_shift(junk, data, o + total);
                        if let MessageScan::Found(rest) = scan_messages(data, o + total) {
                            assert((seq![o] + rest).map_values(|x: int| x + jl) =~= seq![off]
                                + rest.map_values(|x: int| x + jl));
                        }
                    }
                },
                _ => {},
            }
        }
    }
}

/// Bytes before the first `GRIB` magic are skipped: a buffer with a junk
/// prefix (holding no magic) yields the messages of the buffer without it,
/// at offsets moved by the prefix's length, each read from the same bytes.
/// Stated where neither scan is undefined (a declared length of zero, or an
/// offset sum past `usize`, which the prefix can bring about).
pub proof fn law_leading_junk_is_skipped(junk: Seq<u8>, data: Seq<u8>)
    requires
        forall|i: int|
            0 <= i < junk.len() && i + 16 <= junk.len() + data.len() ==> !#[trigger] grib_magic_at(
                junk + data,
                i,
            ),
        !(scan_messages(junk + data, 0) is Undefined),
        !(scan_messages(data, 0) is Undefined),
    ensures
        scan_messages(junk + data, 0) == shift_scan(scan_messages(data, 0), junk.len() as int),
        forall|o: int| 0 <= o <= data.len() ==> #[trigger] (junk + data).skip(junk.len() + o) == data.skip(o),
{
    lemma_scan_skips_junk(junk + data, 0, junk.len() as int);
    lemma_scan_shift(junk, data, 0);
    assert forall|o: int| 0 <= o <= data.len() implies #[trigger] (junk + data).skip(junk.len() + o) == data.skip(o) by {
        assert((junk + data).skip(junk.len() + o) =~= data.skip(o));
    }
}

/// The parameter of a decoded message is its discipline (byte 6 of the
/// indicator) with the category and number at bytes 9 and 10 of section 4.
pub proof fn law_parameter_id_bytes(m: Grib2Message, d: Seq<u8>)
    requires
        m.decoded_from(d),
    ensures
        message_layout(d) matches MessageLayout::Sections { product, .. } && (
        m.indicator.discipline, m.product_definition.parameter_category,
        m.product_definition.parameter_number) == (d[6], d[product + 9], d[product + 10]),
{
    reveal(message_layout);
    if let MessageLayout::Sections { grid, product, .. } = message_layout(d) {
        assert(d.len() >= 16);
        assert(d.take(16)[6] == d[6]);
        assert(ProductDefinitionSection::parse_error(d.skip(product)) is None);
        assert(d.skip(product).len() >= 28);
        assert(d.skip(product)[9] == d[product + 9]);
        assert(d.skip(product)[10] == d[product + 10]);
    }
}

} // verus!
