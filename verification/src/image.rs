//! Loader for the packed executable container.
//!
//! The container starts with a fixed-layout little-endian header: a reserved
//! word, an auxiliary-module pointer and a padding region (all skipped), a
//! four-byte ASCII magic value, a version word and a header-size word (read
//! and discarded), three segment descriptors in the fixed order code /
//! read-only / read-write, a zero-fill size, and two identifier blocks (not
//! interpreted).  Loading slices the three stored segments out of the raw
//! buffer and records the zero-fill size; the zero-fill region has no bytes
//! in the file and is materialized as zeroed memory by consumers.

use vstd::prelude::*;

verus! {

/// Byte offset of the four-byte ASCII magic value within the header.
pub const MAGIC_OFF: usize = 0x10;

/// First byte offset past the magic value.
pub const MAGIC_END: usize = 0x14;

/// Byte offset of the code-segment descriptor.
pub const TEXT_DESC_OFF: usize = 0x20;

/// Byte offset of the read-only-segment descriptor.
pub const RO_DESC_OFF: usize = 0x28;

/// Byte offset of the read-write-segment descriptor.
pub const DATA_DESC_OFF: usize = 0x30;

/// First byte offset past the three segment descriptors.
pub const DESC_END: usize = 0x38;

/// Byte offset of the zero-fill size word.
pub const BSS_SIZE_OFF: usize = 0x38;

/// First byte offset past the last header field the loader reads.
pub const HEADER_READ_END: usize = 0x3C;

/// The magic value "NRO0" as a little-endian word.
pub const NRO_MAGIC: u32 = 0x304F524E;

/// The little-endian 32-bit value stored at byte offset `i` of `s`.
pub open spec fn le32_at(s: Seq<u8>, i: int) -> u32
    recommends
        0 <= i,
        i + 4 <= s.len(),
{
    (s[i] as u32) | ((s[i + 1] as u32) << 8) | ((s[i + 2] as u32) << 16) | ((s[i + 3] as u32)
        << 24)
}

/// Reads the little-endian 32-bit value at byte offset `pos`.
pub fn read_u32_le(bytes: &Vec<u8>, pos: usize) -> (r: u32)
    requires
        pos + 4 <= bytes@.len(),
    ensures
        r == le32_at(bytes@, pos as int),
{
    let n = bytes.len();
    assert(pos + 4 <= n);
    (bytes[pos] as u32) | ((bytes[pos + 1] as u32) << 8) | ((bytes[pos + 2] as u32) << 16) | ((
    bytes[pos + 3] as u32) << 24)
}

/// Why an image failed to load.
#[derive(Clone, Copy, Debug, PartialEq, Eq, Structural)]
pub enum LoadError {
    /// The four-byte magic field differs from the container signature.
    BadMagic,
    /// A header read runs past the end of the input.
    Truncated,
    /// A declared segment range exceeds the input length.
    OutOfBounds,
}

/// The memory role of a stored segment.
#[allow(non_camel_case_types)]
#[derive(Clone, Copy, Debug, PartialEq, Eq, Structural)]
pub enum NroSegmentType {
    /// Executable instructions.
    TEXT,
    /// Constant data.
    RO,
    /// Initialized mutable data.
    DATA,
}

/// A segment descriptor read from the header: a byte offset into the raw
/// buffer and a byte count.
#[derive(Clone, Copy, Debug, PartialEq, Eq, Structural)]
pub struct NroSegment {
    pub offset: u32,
    pub size: u32,
}

/// The descriptor whose two words sit at byte offset `pos` of `raw`.
pub open spec fn desc_at(raw: Seq<u8>, pos: int) -> NroSegment {
    NroSegment { offset: le32_at(raw, pos), size: le32_at(raw, pos + 4) }
}

impl NroSegment {
    /// Reads a descriptor from the eight bytes at `pos`, failing with
    /// `Truncated` when they run past the end of `bytes`.
    pub fn new(bytes: &Vec<u8>, pos: usize) -> (r: Result<NroSegment, LoadError>)
        ensures
            pos + 8 <= bytes@.len() ==> r == Ok::<NroSegment, LoadError>(
                desc_at(bytes@, pos as int),
            ),
            pos + 8 > bytes@.len() ==> r == Err::<NroSegment, LoadError>(LoadError::Truncated),
    {
        let n = bytes.len();
        if pos > n || n - pos < 8 {
            return Err(LoadError::Truncated);
        }
        Ok(NroSegment { offset: read_u32_le(bytes, pos), size: read_u32_le(bytes, pos + 4) })
    }

    /// Whether the descriptor's byte range lies within a buffer of length
    /// `len`.
    pub open spec fn in_bounds(self, len: int) -> bool {
        self.offset + self.size <= len
    }

    /// The first byte offset past the descriptor's range.
    pub open spec fn end(self) -> int {
        self.offset + self.size
    }
}

/// Whether the byte span starting at `ao` of length `asz` shares no offset
/// with the span starting at `bo` of length `bsz`.  Empty spans are disjoint
/// from everything.
pub open spec fn spans_disjoint(ao: int, asz: int, bo: int, bsz: int) -> bool {
    ||| ao + asz <= bo
    ||| bo + bsz <= ao
    ||| asz == 0
    ||| bsz == 0
}

/// Whether the byte ranges of two descriptors are disjoint.
pub open spec fn ranges_disjoint(a: NroSegment, b: NroSegment) -> bool {
    spans_disjoint(a.offset as int, a.size as int, b.offset as int, b.size as int)
}

/// The mathematical content of a loaded image: the raw buffer, the bytes
/// and descriptors of the three stored segments, and the declared zero-fill
/// size.
pub ghost struct ImageView {
    pub program: Seq<u8>,
    pub text: Seq<u8>,
    pub ro: Seq<u8>,
    pub data: Seq<u8>,
    pub text_seg: NroSegment,
    pub ro_seg: NroSegment,
    pub data_seg: NroSegment,
    pub bss_size: u32,
}

/// Whether `raw` is long enough to hold the magic value and holds the right
/// one.
pub open spec fn magic_ok(raw: Seq<u8>) -> bool {
    &&& raw.len() >= MAGIC_END
    &&& le32_at(raw, MAGIC_OFF as int) == NRO_MAGIC
}

/// The code-segment descriptor of `raw`.
pub open spec fn text_desc(raw: Seq<u8>) -> NroSegment {
    desc_at(raw, TEXT_DESC_OFF as int)
}

/// The read-only-segment descriptor of `raw`.
pub open spec fn ro_desc(raw: Seq<u8>) -> NroSegment {
    desc_at(raw, RO_DESC_OFF as int)
}

/// The read-write-segment descriptor of `raw`.
pub open spec fn data_desc(raw: Seq<u8>) -> NroSegment {
    desc_at(raw, DATA_DESC_OFF as int)
}

/// The declared zero-fill size of `raw`.
pub open spec fn bss_size_of(raw: Seq<u8>) -> u32 {
    le32_at(raw, BSS_SIZE_OFF as int)
}

/// The bytes a descriptor selects out of `raw`.
pub open spec fn seg_bytes(raw: Seq<u8>, d: NroSegment) -> Seq<u8> {
    raw.subrange(d.offset as int, d.end())
}

/// What loading yields on each input.  Header reads are attempted in order,
/// so a missing magic value is reported as `Truncated` before it can be
/// compared, and a wrong magic value is reported before the remaining fields
/// are read.
pub open spec fn load_spec(raw: Seq<u8>) -> Result<ImageView, LoadError> {
    if raw.len() < MAGIC_END {
        Err(LoadError::Truncated)
    } else if le32_at(raw, MAGIC_OFF as int) != NRO_MAGIC {
        Err(LoadError::BadMagic)
    } else if raw.len() < HEADER_READ_END {
        Err(LoadError::Truncated)
    } else if !(text_desc(raw).in_bounds(raw.len() as int) && ro_desc(raw).in_bounds(
        raw.len() as int,
    ) && data_desc(raw).in_bounds(raw.len() as int)) {
        Err(LoadError::OutOfBounds)
    } else {
        Ok(
            ImageView {
                program: raw,
                text: seg_bytes(raw, text_desc(raw)),
                ro: seg_bytes(raw, ro_desc(raw)),
                data: seg_bytes(raw, data_desc(raw)),
                text_seg: text_desc(raw),
                ro_seg: ro_desc(raw),
                data_seg: data_desc(raw),
                bss_size: bss_size_of(raw),
            },
        )
    }
}

/// Whether `raw` is a well-formed container: the header is complete, the
/// magic value matches, each stored segment's range lies within the buffer,
/// the three stored ranges are pairwise disjoint, and the zero-fill span,
/// anchored at the end of the read-write range, overlaps neither the code
/// nor the read-only range.
pub open spec fn container_well_formed(raw: Seq<u8>) -> bool {
    &&& raw.len() >= HEADER_READ_END
    &&& magic_ok(raw)
    &&& text_desc(raw).in_bounds(raw.len() as int)
    &&& ro_desc(raw).in_bounds(raw.len() as int)
    &&& data_desc(raw).in_bounds(raw.len() as int)
    &&& ranges_disjoint(text_desc(raw), ro_desc(raw))
    &&& ranges_disjoint(text_desc(raw), data_desc(raw))
    &&& ranges_disjoint(ro_desc(raw), data_desc(raw))
    &&& spans_disjoint(
        data_desc(raw).end(),
        bss_size_of(raw) as int,
        text_desc(raw).offset as int,
        text_desc(raw).size as int,
    )
    &&& spans_disjoint(
        data_desc(raw).end(),
        bss_size_of(raw) as int,
        ro_desc(raw).offset as int,
        ro_desc(raw).size as int,
    )
}

/// Round-trip segment coverage: loading a well-formed container succeeds,
/// each extracted segment holds exactly the bytes its descriptor selects,
/// the four segment spans (the zero-fill span anchored at the end of the
/// read-write range) are pairwise disjoint, and together they fit within the
/// total image size: the buffer's length plus the declared zero-fill length.
pub proof fn lemma_segment_coverage(raw: Seq<u8>)
    requires
        container_well_formed(raw),
    ensures
        load_spec(raw) matches Ok(img) && {
            let t = text_desc(raw);
            let r = ro_desc(raw);
            let d = data_desc(raw);
            let bss = bss_size_of(raw) as int;
            &&& img.text == seg_bytes(raw, t)
            &&& img.ro == seg_bytes(raw, r)
            &&& img.data == seg_bytes(raw, d)
            &&& img.text.len() == t.size
            &&& img.ro.len() == r.size
            &&& img.data.len() == d.size
            &&& img.text_seg == t
            &&& img.ro_seg == r
            &&& img.data_seg == d
            &&& img.bss_size == bss_size_of(raw)
            &&& ranges_disjoint(t, r)
            &&& ranges_disjoint(t, d)
            &&& ranges_disjoint(r, d)
            &&& spans_disjoint(d.end(), bss, t.offset as int, t.size as int)
            &&& spans_disjoint(d.end(), bss, r.offset as int, r.size as int)
            &&& t.size + r.size + d.size + bss <= raw.len() + bss
        },
{
    let t = text_desc(raw);
    let r = ro_desc(raw);
    let d = data_desc(raw);
    assert(t.size + r.size + d.size <= raw.len()) by {
        lemma_three_disjoint_spans(
            t.offset as int,
            t.size as int,
            r.offset as int,
            r.size as int,
            d.offset as int,
            d.size as int,
            raw.len() as int,
        );
    }
}

/// Three pairwise-disjoint spans within `[0, len)` together cover at most
/// `len` bytes.
proof fn lemma_three_disjoint_spans(
    ao: int,
    asz: int,
    bo: int,
    bsz: int,
    co: int,
    csz: int,
    len: int,
)
    requires
        0 <= ao,
        0 <= asz,
        0 <= bo,
        0 <= bsz,
        0 <= co,
        0 <= csz,
        ao + asz <= len,
        bo + bsz <= len,
        co + csz <= len,
        spans_disjoint(ao, asz, bo, bsz),
        spans_disjoint(ao, asz, co, csz),
        spans_disjoint(bo, bsz, co, csz),
    ensures
        asz + bsz + csz <= len,
{
}

/// Magic rejection: an input long enough to hold the magic field whose magic
/// differs from the container signature loads to `BadMagic`, and no segments
/// are produced.
pub proof fn lemma_bad_magic(raw: Seq<u8>)
    requires
        raw.len() >= MAGIC_END,
        le32_at(raw, MAGIC_OFF as int) != NRO_MAGIC,
    ensures
        load_spec(raw) == Err::<ImageView, LoadError>(LoadError::BadMagic),
{
}

/// Truncation safety: a container whose magic value is intact, cut at any
/// byte offset before the end of the three segment descriptors, loads to
/// `Truncated`.  (The loader itself is verified never to read out of range
/// on any input.)
pub proof fn lemma_truncation(raw: Seq<u8>, cut: int)
    requires
        magic_ok(raw),
        0 <= cut <= raw.len(),
        cut < DESC_END,
    ensures
        load_spec(raw.subrange(0, cut)) == Err::<ImageView, LoadError>(LoadError::Truncated),
{
    let t = raw.subrange(0, cut);
    if cut >= MAGIC_END {
        assert(le32_at(t, MAGIC_OFF as int) == le32_at(raw, MAGIC_OFF as int));
    }
}

/// A loaded executable image: the full raw buffer, the three stored
/// segments, and the declared zero-fill size.  Immutable once constructed.
pub struct SwitchExecutable {
    program: Vec<u8>,
    text: Vec<u8>,
    ro: Vec<u8>,
    data: Vec<u8>,
    text_seg: NroSegment,
    ro_seg: NroSegment,
    data_seg: NroSegment,
    bss_size: u32,
}

impl View for SwitchExecutable {
    type V = ImageView;

    closed spec fn view(&self) -> ImageView {
        ImageView {
            program: self.program@,
            text: self.text@,
            ro: self.ro@,
            data: self.data@,
            text_seg: self.text_seg,
            ro_seg: self.ro_seg,
            data_seg: self.data_seg,
            bss_size: self.bss_size,
        }
    }
}

/// Copies `len` bytes of `src` starting at `start` into a fresh vector.
fn copy_range(src: &Vec<u8>, start: usize, len: usize) -> (r: Vec<u8>)
    requires
        start + len <= src@.len(),
    ensures
        r@ == src@.subrange(start as int, start + len),
{
    let n = src.len();
    assert(start + len <= n);
    let mut out: Vec<u8> = Vec::new();
    let mut i: usize = 0;
    while i < len
        invariant
            start + len <= n == src@.len(),
            i <= len,
            out@ == src@.subrange(start as int, start + i),
        decreases len - i,
    {
        out.push(src[start + i]);
        proof {
            assert(out@ =~= src@.subrange(start as int, start + i + 1));
        }
        i = i + 1;
    }
    out
}

impl SwitchExecutable {
    /// Parses the container header of `file_bytes` and slices out the four
    /// segments, exactly as `load_spec` describes: `Truncated` when a header
    /// read runs past the end, `BadMagic` when the signature differs,
    /// `OutOfBounds` when a declared segment range exceeds the buffer.
    pub fn read_nro(file_bytes: Vec<u8>) -> (r: Result<SwitchExecutable, LoadError>)
        ensures
            match r {
                Ok(img) => load_spec(file_bytes@) == Ok::<ImageView, LoadError>(img@),
                Err(e) => load_spec(file_bytes@) == Err::<ImageView, LoadError>(e),
            },
    {
        if file_bytes.len() < MAGIC_END {
            return Err(LoadError::Truncated);
        }
        let magic = read_u32_le(&file_bytes, MAGIC_OFF);
        if magic != NRO_MAGIC {
            return Err(LoadError::BadMagic);
        }
        if file_bytes.len() < HEADER_READ_END {
            return Err(LoadError::Truncated);
        }
        // The version and header-size words are read and discarded; the
        // format fixes the layout, so nothing downstream depends on them.
        let _version = read_u32_le(&file_bytes, MAGIC_END);
        let _header_size = read_u32_le(&file_bytes, 0x18);
        let text_d = match NroSegment::new(&file_bytes, TEXT_DESC_OFF) {
            Ok(d) => d,
            Err(e) => return Err(e),
        };
        let ro_d = match NroSegment::new(&file_bytes, RO_DESC_OFF) {
            Ok(d) => d,
            Err(e) => return Err(e),
        };
        let data_d = match NroSegment::new(&file_bytes, DATA_DESC_OFF) {
            Ok(d) => d,
            Err(e) => return Err(e),
        };
        let bss_size = read_u32_le(&file_bytes, BSS_SIZE_OFF);
        let len64 = file_bytes.len() as u64;
        if (text_d.offset as u64) + (text_d.size as u64) > len64 || (ro_d.offset as u64)
            + (ro_d.size as u64) > len64 || (data_d.offset as u64) + (data_d.size as u64)
            > len64 {
            return Err(LoadError::OutOfBounds);
        }
        let text = copy_range(&file_bytes, text_d.offset as usize, text_d.size as usize);
        let ro = copy_range(&file_bytes, ro_d.offset as usize, ro_d.size as usize);
        let data = copy_range(&file_bytes, data_d.offset as usize, data_d.size as usize);
        Ok(
            SwitchExecutable {
                program: file_bytes,
                text,
                ro,
                data,
                text_seg: text_d,
                ro_seg: ro_d,
                data_seg: data_d,
                bss_size,
            },
        )
    }

    /// The full raw buffer the image was loaded from.
    pub fn program(&self) -> (r: &Vec<u8>)
        ensures
            r@ == self@.program,
    {
        &self.program
    }

    /// The code segment.
    pub fn text(&self) -> (r: &Vec<u8>)
        ensures
            r@ == self@.text,
    {
        &self.text
    }

    /// The read-only data segment.
    pub fn ro(&self) -> (r: &Vec<u8>)
        ensures
            r@ == self@.ro,
    {
        &self.ro
    }

    /// The initialized read-write data segment.
    pub fn data(&self) -> (r: &Vec<u8>)
        ensures
            r@ == self@.data,
    {
        &self.data
    }

    /// The declared size of the zero-fill region.  The region is logically
    /// contiguous with the end of the read-write segment and has no bytes in
    /// the file.
    pub fn bss_size(&self) -> (r: u32)
        ensures
            r == self@.bss_size,
    {
        self.bss_size
    }

    /// The stored segment with the given role.
    pub fn segment(&self, which: NroSegmentType) -> (r: &Vec<u8>)
        ensures
            which == NroSegmentType::TEXT ==> r@ == self@.text,
            which == NroSegmentType::RO ==> r@ == self@.ro,
            which == NroSegmentType::DATA ==> r@ == self@.data,
    {
        match which {
            NroSegmentType::TEXT => &self.text,
            NroSegmentType::RO => &self.ro,
            NroSegmentType::DATA => &self.data,
        }
    }

    /// The byte range (offset and size within the raw buffer, which doubles
    /// as the logical base address) of the stored segment with the given
    /// role.
    pub fn descriptor(&self, which: NroSegmentType) -> (r: NroSegment)
        ensures
            which == NroSegmentType::TEXT ==> r == self@.text_seg,
            which == NroSegmentType::RO ==> r == self@.ro_seg,
            which == NroSegmentType::DATA ==> r == self@.data_seg,
    {
        match which {
            NroSegmentType::TEXT => self.text_seg,
            NroSegmentType::RO => self.ro_seg,
            NroSegmentType::DATA => self.data_seg,
        }
    }

    /// The logical base address of the zero-fill region: the end of the
    /// read-write segment's range.
    pub fn zero_fill_start(&self) -> (r: u64)
        ensures
            r == self@.data_seg.end(),
    {
        (self.data_seg.offset as u64) + (self.data_seg.size as u64)
    }

    /// Materializes the zero-fill region: a buffer of `bss_size` zero bytes.
    pub fn zero_fill(&self) -> (r: Vec<u8>)
        ensures
            r@.len() == self@.bss_size,
            forall|i: int| 0 <= i < r@.len() ==> r@[i] == 0u8,
    {
        let n = self.bss_size as usize;
        let mut out: Vec<u8> = Vec::new();
        let mut i: usize = 0;
        while i < n
            invariant
                i <= n,
                out@.len() == i,
                forall|j: int| 0 <= j < out@.len() ==> out@[j] == 0u8,
            decreases n - i,
        {
            out.push(0u8);
            i = i + 1;
        }
        out
    }
}

} // verus!
