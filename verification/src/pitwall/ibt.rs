//! The layout of a recorded telemetry file: a header, a directory of
//! variables, a block of session metadata text, and the frames, each of the
//! same length. Every number is a signed 32 bit integer, little endian.

use std::sync::Arc;
use vstd::prelude::*;
use vstd::slice::{slice_subrange, slice_to_vec};
use vstd::string::*;

use super::driver::share;
use super::schema::{RawVariableInfo, VariableLayout, VariableSchema, VariableType};
use super::types::{as_signed, le_u32, read_u32_le, to_signed, FramePacket, TelemetryError};

verus! {

/// Length of the file header.
pub const HEADER_SIZE: usize = 112;

/// Length of one entry of the variable directory.
pub const VAR_HEADER_SIZE: usize = 144;

/// Where the name lies within a directory entry.
pub const VAR_NAME_OFFSET: usize = 16;

/// Most bytes that a name takes; a shorter name ends with a zero byte.
pub const VAR_NAME_SIZE: usize = 32;

/// The header of a recording.
#[derive(Debug, Clone, Copy, PartialEq, Eq, Structural)]
pub struct IbtHeader {
    pub version: i32,
    pub status: i32,
    /// Frames per second.
    pub tick_rate: i32,
    /// Version of the session metadata.
    pub session_info_update: i32,
    pub session_info_len: i32,
    pub session_info_offset: i32,
    /// Number of entries of the variable directory.
    pub num_vars: i32,
    pub var_header_offset: i32,
    pub num_buf: i32,
    /// Length of one frame.
    pub buf_len: i32,
    /// Where the first frame lies.
    pub buf_offset: i32,
}

/// The signed number that four bytes at `at` spell.
pub open spec fn le_i32(data: Seq<u8>, at: int) -> i32 {
    as_signed(le_u32(data, at))
}

/// The header that the first bytes of a file spell.
pub open spec fn spec_header(data: Seq<u8>) -> IbtHeader {
    IbtHeader {
        version: le_i32(data, 0),
        status: le_i32(data, 4),
        tick_rate: le_i32(data, 8),
        session_info_update: le_i32(data, 12),
        session_info_len: le_i32(data, 16),
        session_info_offset: le_i32(data, 20),
        num_vars: le_i32(data, 24),
        var_header_offset: le_i32(data, 28),
        num_buf: le_i32(data, 32),
        buf_len: le_i32(data, 36),
        buf_offset: le_i32(data, 52),
    }
}

/// Whether a header fits a file of `len` bytes: a positive tick rate, no
/// negative count, length or offset, and directory, metadata and the start
/// of the frames within the file.
pub open spec fn header_fits(h: IbtHeader, len: nat) -> bool {
    &&& h.tick_rate > 0
    &&& h.num_vars >= 0
    &&& h.var_header_offset >= 0
    &&& h.var_header_offset + h.num_vars * VAR_HEADER_SIZE <= len
    &&& h.session_info_len >= 0
    &&& h.session_info_offset >= 0
    &&& h.session_info_offset + h.session_info_len <= len
    &&& h.buf_len >= 0
    &&& h.buf_offset >= 0
    &&& h.buf_offset <= len
}

/// Reads a signed number.
pub fn read_i32_le(data: &[u8], at: usize) -> (r: i32)
    requires
        at + 4 <= data@.len(),
    ensures
        r == le_i32(data@, at as int),
{
    to_signed(read_u32_le(data, at))
}

/// The error of a file that cannot be opened.
fn source_open_error(details: &str) -> (r: TelemetryError)
    ensures
        r matches TelemetryError::SourceOpen { details: d } && d@ == details@,
{
    TelemetryError::SourceOpen { details: details.to_owned() }
}

/// Reads the header of a recording. It fails where the file is shorter
/// than a header or the header does not fit the file.
pub fn parse_header(data: &[u8]) -> (r: Result<IbtHeader, TelemetryError>)
    ensures
        match r {
            Ok(h) => data@.len() >= HEADER_SIZE && h == spec_header(data@) && header_fits(
                h,
                data@.len(),
            ),
            Err(TelemetryError::SourceOpen { .. }) => data@.len() < HEADER_SIZE || !header_fits(
                spec_header(data@),
                data@.len(),
            ),
            Err(_) => false,
        },
{
    let len = data.len();
    if len < HEADER_SIZE {
        return Err(source_open_error("file is shorter than its header"));
    }
    let h = IbtHeader {
        version: read_i32_le(data, 0),
        status: read_i32_le(data, 4),
        tick_rate: read_i32_le(data, 8),
        session_info_update: read_i32_le(data, 12),
        session_info_len: read_i32_le(data, 16),
        session_info_offset: read_i32_le(data, 20),
        num_vars: read_i32_le(data, 24),
        var_header_offset: read_i32_le(data, 28),
        num_buf: read_i32_le(data, 32),
        buf_len: read_i32_le(data, 36),
        buf_offset: read_i32_le(data, 52),
    };
    if h.tick_rate <= 0 {
        return Err(source_open_error("tick rate is not positive"));
    }
    if h.num_vars < 0 || h.var_header_offset < 0 {
        return Err(source_open_error("variable directory is missing"));
    }
    let directory_len: u64 = (h.num_vars as u64) * (VAR_HEADER_SIZE as u64);
    if (h.var_header_offset as u64) + directory_len > len as u64 {
        return Err(source_open_error("variable directory lies outside the file"));
    }
    if h.session_info_len < 0 || h.session_info_offset < 0 || (h.session_info_offset as u64) + (
    h.session_info_len as u64) > len as u64 {
        return Err(source_open_error("session metadata lies outside the file"));
    }
    if h.buf_len < 0 || h.buf_offset < 0 || (h.buf_offset as u64) > len as u64 {
        return Err(source_open_error("frames lie outside the file"));
    }
    Ok(h)
}

/// The wire type that a type code stands for.
pub open spec fn spec_type_of_code(code: i32) -> Option<VariableType> {
    if code == 0 {
        Some(VariableType::Char)
    } else if code == 1 {
        Some(VariableType::Bool)
    } else if code == 2 {
        Some(VariableType::Int)
    } else if code == 3 {
        Some(VariableType::BitField)
    } else if code == 4 {
        Some(VariableType::Float)
    } else if code == 5 {
        Some(VariableType::Double)
    } else {
        None
    }
}

/// The wire type that a type code stands for.
pub fn type_of_code(code: i32) -> (r: Option<VariableType>)
    ensures
        r == spec_type_of_code(code),
{
    if code == 0 {
        Some(VariableType::Char)
    } else if code == 1 {
        Some(VariableType::Bool)
    } else if code == 2 {
        Some(VariableType::Int)
    } else if code == 3 {
        Some(VariableType::BitField)
    } else if code == 4 {
        Some(VariableType::Float)
    } else if code == 5 {
        Some(VariableType::Double)
    } else {
        None
    }
}

/// The text that bytes spell up to the first zero byte, or up to their
/// end: each byte is the character of that code.
pub open spec fn spec_text(bytes: Seq<u8>) -> Seq<char>
    decreases bytes.len(),
{
    if bytes.len() == 0 || bytes[0] == 0 {
        Seq::empty()
    } else {
        seq![bytes[0] as char] + spec_text(bytes.drop_first())
    }
}

/// Appends a character with `String::push`.
#[verifier::external_body]
fn push_char(s: &mut String, c: char)
    ensures
        final(s)@ == old(s)@.push(c),
{
    s.push(c);
}

/// Reads the text that the bytes from `start` to `end` spell.
pub fn read_text(data: &[u8], start: usize, end: usize) -> (r: String)
    requires
        start <= end <= data@.len(),
    ensures
        r@ == spec_text(data@.subrange(start as int, end as int)),
{
    let mut out = String::new();
    let mut i: usize = start;
    let ghost all = data@.subrange(start as int, end as int);
    while i < end
        invariant
            start <= i <= end <= data@.len(),
            all == data@.subrange(start as int, end as int),
            spec_text(all) == out@ + spec_text(data@.subrange(i as int, end as int)),
        decreases end - i,
    {
        let b = data[i];
        let ghost rest = data@.subrange(i as int, end as int);
        proof {
            assert(rest[0] == b);
            assert(rest.drop_first() =~= data@.subrange(i + 1, end as int));
        }
        if b == 0 {
            proof {
                assert(out@ + Seq::<char>::empty() =~= out@);
            }
            return out;
        }
        let ghost before = out@;
        push_char(&mut out, b as char);
        proof {
            assert(before + (seq![b as char] + spec_text(rest.drop_first())) =~= before.push(
                b as char,
            ) + spec_text(rest.drop_first()));
        }
        i += 1;
    }
    proof {
        assert(data@.subrange(end as int, end as int) =~= Seq::<u8>::empty());
        assert(out@ + Seq::<char>::empty() =~= out@);
    }
    out
}

/// What a directory entry at `at` says, where it says anything: the type
/// code has to be known, and offset and count not negative.
pub open spec fn spec_variable(data: Seq<u8>, at: int) -> Option<VariableLayout> {
    let code = le_i32(data, at);
    let offset = le_i32(data, at + 4);
    let count = le_i32(data, at + 8);
    match spec_type_of_code(code) {
        Some(t) => if offset >= 0 && count >= 0 {
            Some(
                VariableLayout {
                    name: spec_text(
                        data.subrange(at + VAR_NAME_OFFSET, at + VAR_NAME_OFFSET + VAR_NAME_SIZE),
                    ),
                    offset: offset as nat,
                    data_type: t,
                    count: count as nat,
                },
            )
        } else {
            None
        },
        None => None,
    }
}

/// Reads the directory entry at `at`.
pub fn parse_variable(data: &[u8], at: usize) -> (r: Option<RawVariableInfo>)
    requires
        at + VAR_HEADER_SIZE <= data@.len(),
    ensures
        match r {
            Some(v) => spec_variable(data@, at as int) == Some(v@),
            None => spec_variable(data@, at as int) is None,
        },
{
    let len = data.len();
    let code = read_i32_le(data, at);
    let offset = read_i32_le(data, at + 4);
    let count = read_i32_le(data, at + 8);
    match type_of_code(code) {
        Some(t) => {
            if offset >= 0 && count >= 0 {
                let name = read_text(data, at + VAR_NAME_OFFSET, at + VAR_NAME_OFFSET + VAR_NAME_SIZE);
                Some(RawVariableInfo::new(name, offset as usize, t, count as usize))
            } else {
                None
            }
        },
        None => None,
    }
}

/// Where the `i`-th directory entry lies.
pub open spec fn entry_at(h: IbtHeader, i: int) -> int {
    h.var_header_offset + i * VAR_HEADER_SIZE
}

/// Whether the directory of a file is sound: every entry says something,
/// and no two entries have the same name.
pub open spec fn directory_sound(data: Seq<u8>, h: IbtHeader) -> bool {
    &&& forall|i: int| 0 <= i < h.num_vars ==> spec_variable(data, #[trigger] entry_at(h, i)) is Some
    &&& forall|i: int, j: int|
        0 <= i < j < h.num_vars ==> spec_variable(data, #[trigger] entry_at(h, i))->Some_0.name
            != spec_variable(data, #[trigger] entry_at(h, j))->Some_0.name
}

/// The entries of a sound directory, in order.
pub open spec fn spec_directory(data: Seq<u8>, h: IbtHeader) -> Seq<VariableLayout> {
    Seq::new(h.num_vars as nat, |i: int| spec_variable(data, entry_at(h, i))->Some_0)
}

/// Reads the variable directory into a schema for frames of the length
/// that the header gives. It fails where an entry is corrupt or a name
/// occurs twice.
pub fn parse_schema(data: &[u8], header: &IbtHeader) -> (r: Result<VariableSchema, TelemetryError>)
    requires
        header_fits(*header, data@.len()),
    ensures
        match r {
            Ok(s) => s.wf() && directory_sound(data@, *header) && s.layouts() == spec_directory(
                data@,
                *header,
            ) && s.frame_size == header.buf_len,
            Err(TelemetryError::SourceOpen { .. }) => !directory_sound(data@, *header),
            Err(_) => false,
        },
{
    let len = data.len();
    let mut schema = VariableSchema::new(header.buf_len as usize);
    let count = header.num_vars as usize;
    let base = header.var_header_offset as usize;
    let mut i: usize = 0;
    while i < count
        invariant
            i <= count,
            count == header.num_vars,
            base == header.var_header_offset,
            len == data@.len(),
            header_fits(*header, data@.len()),
            schema.wf(),
            schema.frame_size == header.buf_len,
            schema.layouts().len() == i,
            forall|k: int|
                0 <= k < i ==> spec_variable(data@, #[trigger] entry_at(*header, k)) == Some(
                    schema.layouts()[k],
                ),
        decreases count - i,
    {
        assert(base + i * VAR_HEADER_SIZE + VAR_HEADER_SIZE <= len) by (nonlinear_arith)
            requires
                i < count,
                base + count * VAR_HEADER_SIZE <= len,
        ;
        let at = base + i * VAR_HEADER_SIZE;
        assert(at == entry_at(*header, i as int));
        let info = match parse_variable(data, at) {
            Some(v) => v,
            None => {
                return Err(source_open_error("variable directory holds a corrupt entry"));
            },
        };
        if schema.contains_key(info.name.as_str()) {
            proof {
                let ls = schema.layouts();
                let k = choose|k: int| 0 <= k < ls.len() && #[trigger] ls[k].name == info.name@;
                assert(spec_variable(data@, entry_at(*header, k))->Some_0.name == info.name@);
                assert(spec_variable(data@, entry_at(*header, i as int))->Some_0.name
                    == info.name@);
            }
            return Err(source_open_error("variable directory names a variable twice"));
        }
        let ghost before = schema.layouts();
        schema.insert(info);
        assert(schema.layouts() == before.push(info@));
        i += 1;
    }
    proof {
        assert(schema.layouts() =~= spec_directory(data@, *header));
        assert forall|a: int, b: int| 0 <= a < b < header.num_vars implies spec_variable(
            data@,
            #[trigger] entry_at(*header, a),
        )->Some_0.name != spec_variable(data@, #[trigger] entry_at(*header, b))->Some_0.name by {
            assert(schema.layouts()[a].name != schema.layouts()[b].name);
        }
    }
    Ok(schema)
}

/// Number of whole frames that a file of `len` bytes holds.
pub open spec fn spec_total_frames(h: IbtHeader, len: nat) -> nat {
    if h.buf_len <= 0 || h.buf_offset < 0 || h.buf_offset > len {
        0
    } else {
        ((len - h.buf_offset) / (h.buf_len as int)) as nat
    }
}

/// Number of whole frames that the file holds.
pub fn total_frames(data: &[u8], header: &IbtHeader) -> (r: usize)
    ensures
        r == spec_total_frames(*header, data@.len()),
{
    let len = data.len();
    if header.buf_len <= 0 || header.buf_offset < 0 || header.buf_offset as usize > len {
        0
    } else {
        (len - header.buf_offset as usize) / (header.buf_len as usize)
    }
}

/// The bytes of the frame with the given index: the frames lie one after
/// the other from where the header says the first one lies.
pub open spec fn spec_frame_bytes(data: Seq<u8>, h: IbtHeader, index: int) -> Seq<u8> {
    data.subrange(
        h.buf_offset + index * h.buf_len,
        h.buf_offset + index * h.buf_len + h.buf_len,
    )
}

/// The bytes of the frame with the given index; none past the last whole frame.
pub fn frame_bytes(data: &[u8], header: &IbtHeader, index: usize) -> (r: Option<Vec<u8>>)
    ensures
        match r {
            Some(v) => index < spec_total_frames(*header, data@.len()) && v@ == spec_frame_bytes(
                data@,
                *header,
                index as int,
            ),
            None => index >= spec_total_frames(*header, data@.len()),
        },
{
    let total = total_frames(data, header);
    if index >= total {
        return None;
    }
    let len = data.len();
    let frame_len = header.buf_len as usize;
    let first = header.buf_offset as usize;
    assert(first + index * frame_len + frame_len <= len) by (nonlinear_arith)
        requires
            index < total,
            frame_len > 0,
            first <= len,
            total == (len - first) / (frame_len as int),
    ;
    let start = first + index * frame_len;
    Some(slice_to_vec(slice_subrange(data, start, start + frame_len)))
}

/// A frame of a file lies within the file.
pub proof fn lemma_frame_within(h: IbtHeader, len: nat, index: int)
    requires
        0 <= index < spec_total_frames(h, len),
    ensures
        h.buf_len > 0,
        0 <= h.buf_offset + index * h.buf_len,
        h.buf_offset + index * h.buf_len + h.buf_len <= len,
{
    let total = spec_total_frames(h, len) as int;
    let frame_len = h.buf_len as int;
    let room = len - h.buf_offset;
    assert(index * frame_len + frame_len <= room && index * frame_len >= 0) by (nonlinear_arith)
        requires
            0 <= index < total,
            frame_len > 0,
            room >= 0,
            total == room / frame_len,
    ;
}

/// The session metadata text of the file.
pub fn session_yaml(data: &[u8], header: &IbtHeader) -> (r: String)
    requires
        header_fits(*header, data@.len()),
    ensures
        r@ == spec_text(
            data@.subrange(
                header.session_info_offset as int,
                header.session_info_offset + header.session_info_len,
            ),
        ),
{
    let start = header.session_info_offset as usize;
    let end = start + header.session_info_len as usize;
    read_text(data, start, end)
}

/// Whether the bytes are a recording that can be opened: long enough for
/// a header, with a header that fits them and a sound directory.
pub open spec fn can_open(data: Seq<u8>) -> bool {
    &&& data.len() >= HEADER_SIZE
    &&& header_fits(spec_header(data), data.len())
    &&& directory_sound(data, spec_header(data))
}

/// The tick of the frame with the given index: the index, as far as it fits.
pub open spec fn spec_tick(index: usize) -> u32 {
    if index <= u32::MAX {
        index as u32
    } else {
        u32::MAX
    }
}

/// The version of the session metadata of a recording; a negative number
/// in the header counts as zero.
pub open spec fn spec_session_version(h: IbtHeader) -> u32 {
    if h.session_info_update >= 0 {
        h.session_info_update as u32
    } else {
        0
    }
}

/// A recording in memory: its bytes, its header, and the schema that its
/// directory gives. The schema is read once and shared with every packet.
#[derive(Debug)]
pub struct Recording {
    pub data: Vec<u8>,
    pub header: IbtHeader,
    pub schema: Arc<VariableSchema>,
}

impl Recording {
    /// The invariant of a recording: header and schema are those of the
    /// bytes, and the bytes can be opened.
    pub open spec fn wf(&self) -> bool {
        &&& can_open(self.data@)
        &&& self.header == spec_header(self.data@)
        &&& self.schema.wf()
        &&& self.schema.layouts() == spec_directory(self.data@, self.header)
        &&& self.schema.frame_size == self.header.buf_len
    }

    /// Opens a recording from the bytes of its file. It fails, with the
    /// error of a source that cannot be opened, exactly where the header is
    /// cut short or does not fit the file, or the directory is corrupt.
    pub fn open(data: Vec<u8>) -> (r: Result<Recording, TelemetryError>)
        ensures
            match r {
                Ok(rec) => rec.wf() && rec.data == data,
                Err(TelemetryError::SourceOpen { .. }) => !can_open(data@),
                Err(_) => false,
            },
    {
        let header = match parse_header(data.as_slice()) {
            Ok(h) => h,
            Err(e) => {
                return Err(e);
            },
        };
        let schema = match parse_schema(data.as_slice(), &header) {
            Ok(s) => s,
            Err(e) => {
                return Err(e);
            },
        };
        Ok(Recording { data, header, schema: Arc::new(schema) })
    }

    /// Frames per second of the recording.
    pub fn tick_rate(&self) -> (r: u32)
        requires
            self.wf(),
        ensures
            r == self.header.tick_rate,
            r > 0,
    {
        self.header.tick_rate as u32
    }

    /// Number of whole frames in the recording.
    pub fn total_frames(&self) -> (r: usize)
        ensures
            r == spec_total_frames(self.header, self.data@.len()),
    {
        total_frames(self.data.as_slice(), &self.header)
    }

    /// The packet of the frame with the given index: its bytes, its tick,
    /// the version of the session metadata, and the schema of the
    /// recording. None past the last whole frame.
    pub fn packet(&self, index: usize) -> (r: Option<FramePacket>)
        ensures
            match r {
                Some(p) => {
                    &&& index < spec_total_frames(self.header, self.data@.len())
                    &&& p.data@ == spec_frame_bytes(self.data@, self.header, index as int)
                    &&& p.data@.len() == self.header.buf_len
                    &&& p.tick == spec_tick(index)
                    &&& p.session_version == spec_session_version(self.header)
                    &&& p.schema == self.schema
                },
                None => index >= spec_total_frames(self.header, self.data@.len()),
            },
    {
        match frame_bytes(self.data.as_slice(), &self.header, index) {
            Some(bytes) => {
                proof {
                    lemma_frame_within(self.header, self.data@.len(), index as int);
                }
                let tick: u32 = if index <= u32::MAX as usize {
                    index as u32
                } else {
                    u32::MAX
                };
                let version: u32 = if self.header.session_info_update >= 0 {
                    self.header.session_info_update as u32
                } else {
                    0
                };
                Some(FramePacket::new(bytes, tick, version, share(&self.schema)))
            },
            None => None,
        }
    }

    /// The session metadata text of the recording.
    pub fn session_yaml(&self) -> (r: String)
        requires
            self.wf(),
        ensures
            r@ == spec_text(
                self.data@.subrange(
                    self.header.session_info_offset as int,
                    self.header.session_info_offset + self.header.session_info_len,
                ),
            ),
    {
        session_yaml(self.data.as_slice(), &self.header)
    }
}

} // verus!
