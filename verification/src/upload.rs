//! Multipart extraction: at most one body part of a request is parsed and
//! its data copied into the worker's upload buffer.
//!
//! The buffer has a capacity that is fixed when the worker is made, and it
//! is overwritten on each use. What happens to a part that is larger than
//! the capacity is a setting of the worker, the [`OverflowPolicy`].

use crate::err::BeakError;
use crate::header::{find_bytes_from, find_header, first_header, first_occurrence_from, Header};
use vstd::prelude::*;
use vstd::string::*;
use vstd::utf8::{encode_utf8, is_ascii_chars};

verus! {

/// What is done with a body part whose data does not fit the upload buffer.
#[derive(Clone, Copy, Debug, PartialEq, Eq, Structural)]
pub enum OverflowPolicy {
    /// The request fails with [`BeakError::UploadTooLarge`]; its handler is
    /// not called.
    Reject,
    /// The data is cut at the capacity of the buffer, and the upload is
    /// marked as truncated.
    Truncate,
}

/// The bytes of `boundary=`.
pub open spec fn boundary_key() -> Seq<u8> {
    seq![0x62u8, 0x6f, 0x75, 0x6e, 0x64, 0x61, 0x72, 0x79, 0x3d]
}

/// The byte `;`, which ends the boundary.
pub open spec fn boundary_end() -> Seq<u8> {
    seq![0x3bu8]
}

/// Where the multipart boundary stands in the bytes of a content type:
/// after the first `boundary=`, up to the next `;` or to the end.
pub open spec fn boundary_span(value: Seq<u8>) -> Option<(int, int)> {
    match first_occurrence_from(value, boundary_key(), 0) {
        None => None,
        Some(key) => {
            let start = key + boundary_key().len();
            match first_occurrence_from(value, boundary_end(), start) {
                None => Some((start, value.len() as int)),
                Some(end) => Some((start, end)),
            }
        },
    }
}

/// The multipart boundary that a content type declares. A content type
/// that is not ASCII declares none.
pub open spec fn boundary_in(content_type: Seq<char>) -> Option<Seq<char>> {
    if !is_ascii_chars(content_type) {
        None
    } else {
        match boundary_span(encode_utf8(content_type)) {
            None => None,
            Some((start, end)) => Some(content_type.subrange(start, end)),
        }
    }
}

/// The multipart boundary of a request with the given headers: the one
/// that the first `Content-Type` line declares.
pub open spec fn boundary_of(headers: Seq<Header>) -> Option<Seq<char>> {
    match first_header(headers, "Content-Type"@) {
        None => None,
        Some(i) => boundary_in(headers[i]@.value),
    }
}

/// The content of an optional string.
pub open spec fn string_view(s: Option<String>) -> Option<Seq<char>> {
    match s {
        Some(s) => Some(s@),
        None => None,
    }
}

/// Reads the multipart boundary that a content type declares.
pub fn boundary_in_content_type(content_type: &str) -> (boundary: Option<String>)
    ensures
        string_view(boundary) == boundary_in(content_type@),
{
    if !content_type.is_ascii() {
        return None;
    }
    let bytes = content_type.as_bytes();
    let total = bytes.len();
    proof {
        is_ascii_spec_bytes(content_type);
    }
    let key: [u8; 9] = [0x62, 0x6f, 0x75, 0x6e, 0x64, 0x61, 0x72, 0x79, 0x3d];
    let end_mark: [u8; 1] = [0x3b];
    proof {
        assert(key@ =~= boundary_key());
        assert(end_mark@ =~= boundary_end());
    }
    match find_bytes_from(bytes, key.as_slice(), 0) {
        None => None,
        Some(at) => {
            let start = at + 9;
            let end = match find_bytes_from(bytes, end_mark.as_slice(), start) {
                None => total,
                Some(end) => end,
            };
            Some(content_type.substring_ascii(start, end).to_owned())
        },
    }
}

/// Reads the multipart boundary of a request from its headers.
pub fn multipart_boundary(headers: &[Header]) -> (boundary: Option<String>)
    ensures
        string_view(boundary) == boundary_of(headers@),
{
    match find_header(headers, "Content-Type") {
        None => None,
        Some(i) => boundary_in_content_type(headers[i].value()),
    }
}

/// One body part as the multipart parser hands it out.
#[derive(Debug)]
pub struct ParsedPart {
    /// The name of the form field.
    pub name: String,
    /// The file name that the client gave, if any.
    pub file_name: Option<String>,
    /// The content type that the client declared for the part, if any, as
    /// the `mime` crate writes a media type: type, subtype and parameter
    /// names in lower case.
    pub content_type: Option<String>,
    /// The data of the part.
    pub data: Vec<u8>,
}

/// The mathematical content of a [`ParsedPart`].
pub ghost struct PartSpec {
    pub name: Seq<char>,
    pub file_name: Option<Seq<char>>,
    pub content_type: Option<Seq<char>>,
    pub data: Seq<u8>,
}

impl View for ParsedPart {
    type V = PartSpec;

    open spec fn view(&self) -> PartSpec {
        PartSpec {
            name: self.name@,
            file_name: string_view(self.file_name),
            content_type: string_view(self.content_type),
            data: self.data@,
        }
    }
}

/// The content of an optional part.
pub open spec fn part_view(part: Option<ParsedPart>) -> Option<PartSpec> {
    match part {
        Some(part) => Some(part@),
        None => None,
    }
}

/// The first part of the multipart body `body` under the boundary
/// `boundary`, as the `multipart` crate reads it, or `None` where it finds
/// no part or fails on the body.
pub uninterp spec fn first_part(boundary: Seq<char>, body: Seq<u8>) -> Option<PartSpec>;

/// Parses the first part of a multipart body held in memory, with
/// `multipart::server::Multipart::with_body` and `into_entry`, and reads the
/// data of the part to its end.
///
/// Trusted: the result depends on the boundary and on the body alone. It is
/// `None` where the parser finds no part, where it fails on the framing or
/// on the headers of the part, and where reading the data fails.
#[verifier::external_body]
fn read_first_part(boundary: &str, body: &[u8]) -> (part: Option<ParsedPart>)
    ensures
        part_view(part) == first_part(boundary@, body@),
{
    let entry = multipart::server::Multipart::with_body(body, boundary).into_entry();
    let mut field = entry.into_result().ok().flatten()?;
    let mut data = Vec::new();
    std::io::Read::read_to_end(&mut field.data, &mut data).ok()?;
    Some(
        ParsedPart {
            name: field.headers.name.to_string(),
            file_name: field.headers.filename,
            content_type: field.headers.content_type.map(|mime| mime.to_string()),
            data,
        },
    )
}

/// The first part of the body of a request with the given headers: none
/// where the headers declare no boundary.
pub open spec fn parsed_part(headers: Seq<Header>, body: Seq<u8>) -> Option<PartSpec> {
    match boundary_of(headers) {
        None => None,
        Some(boundary) => first_part(boundary, body),
    }
}

/// Parses the first part of the body of a request. A request that declares
/// no multipart boundary, or whose body cannot be parsed, has no part.
pub fn parse_first_part(headers: &[Header], body: &[u8]) -> (part: Option<ParsedPart>)
    ensures
        part_view(part) == parsed_part(headers@, body@),
{
    match multipart_boundary(headers) {
        None => None,
        Some(boundary) => read_first_part(boundary.as_str(), body),
    }
}

/// What is kept of data of the given length in a buffer of the given
/// capacity: all of it where it fits, its front under `Truncate`, nothing
/// under `Reject`.
pub open spec fn kept_len(len: int, capacity: int, policy: OverflowPolicy) -> Option<int> {
    if len <= capacity {
        Some(len)
    } else if policy == OverflowPolicy::Truncate {
        Some(capacity)
    } else {
        None
    }
}

/// The buffer of one worker into which the data of an upload is copied. It
/// never holds more than its capacity.
#[derive(Debug)]
pub struct UploadBuffer {
    bytes: Vec<u8>,
    capacity: usize,
}

impl View for UploadBuffer {
    type V = Seq<u8>;

    closed spec fn view(&self) -> Seq<u8> {
        self.bytes@
    }
}

impl UploadBuffer {
    /// The capacity that the buffer was made with.
    pub closed spec fn capacity(&self) -> usize {
        self.capacity
    }

    /// The invariant of a buffer: its contents fit its capacity.
    pub closed spec fn wf(&self) -> bool {
        self.bytes@.len() <= self.capacity
    }

    /// An empty buffer of the given capacity.
    pub fn with_capacity(capacity: usize) -> (buffer: UploadBuffer)
        ensures
            buffer.wf(),
            buffer.capacity() == capacity,
            buffer@.len() == 0,
    {
        UploadBuffer { bytes: Vec::with_capacity(capacity), capacity }
    }

    /// The capacity that the buffer was made with.
    pub fn limit(&self) -> (capacity: usize)
        ensures
            capacity == self.capacity(),
    {
        self.capacity
    }

    /// The bytes that the buffer holds.
    pub fn contents(&self) -> (bytes: &[u8])
        ensures
            bytes@ == self@,
    {
        self.bytes.as_slice()
    }

    /// Empties the buffer.
    pub fn clear(&mut self)
        ensures
            final(self)@.len() == 0,
            final(self).capacity() == old(self).capacity(),
            final(self).wf(),
    {
        self.bytes.clear();
    }

    /// Overwrites the buffer with `data`.
    ///
    /// Data that fits is stored whole. Data that is longer than the
    /// capacity is cut at the capacity under `Truncate`, and the result is
    /// `Ok(true)`; under `Reject` the buffer is left empty and the result is
    /// the error `UploadTooLarge`, with the capacity and the length of the
    /// data. What the buffer held before never shows in what it holds
    /// afterwards.
    pub fn store(&mut self, data: &[u8], policy: OverflowPolicy) -> (res: Result<bool, BeakError>)
        ensures
            final(self).wf(),
            final(self).capacity() == old(self).capacity(),
            res is Ok <==> kept_len(data@.len() as int, old(self).capacity() as int, policy)
                is Some,
            res matches Ok(truncated) ==> truncated == (data@.len() > old(self).capacity())
                && final(self)@ == data@.take(
                kept_len(data@.len() as int, old(self).capacity() as int, policy).unwrap(),
            ),
            res matches Err(e) ==> final(self)@.len() == 0 && e == too_large(
                old(self).capacity(),
                data@.len(),
            ),
    {
        self.bytes.clear();
        let truncated = data.len() > self.capacity;
        if truncated && policy == OverflowPolicy::Reject {
            return Err(BeakError::UploadTooLarge { limit: self.capacity, size: data.len() });
        }
        let keep = if truncated {
            self.capacity
        } else {
            data.len()
        };
        let mut i: usize = 0;
        while i < keep
            invariant
                i <= keep <= data.len(),
                keep <= self.capacity,
                self.capacity == old(self).capacity,
                self.bytes@ == data@.take(i as int),
            decreases keep - i,
        {
            self.bytes.push(data[i]);
            i += 1;
        }
        Ok(truncated)
    }
}

/// The error of an upload of `size` bytes for a buffer of `limit` bytes.
pub open spec fn too_large(limit: usize, size: nat) -> BeakError {
    BeakError::UploadTooLarge { limit, size: size as usize }
}

/// The single body part that a handler may see: what the client said of
/// it, and its data, which lies in the upload buffer of the worker and is
/// overwritten by the next request that brings a part.
#[derive(Debug)]
pub struct MultipartEntry<'v> {
    /// The name of the form field.
    pub name: String,
    /// The file name that the client gave, if any.
    pub file_name: Option<String>,
    /// The content type that the client declared for the part, if any.
    pub content_type: Option<String>,
    /// The data of the part, or its front where it was truncated.
    pub data: &'v [u8],
    /// Whether the data was cut at the capacity of the upload buffer.
    pub truncated: bool,
}

/// The mathematical content of a [`MultipartEntry`].
pub ghost struct EntrySpec {
    pub part: PartSpec,
    pub truncated: bool,
}

impl<'v> View for MultipartEntry<'v> {
    type V = EntrySpec;

    open spec fn view(&self) -> EntrySpec {
        EntrySpec {
            part: PartSpec {
                name: self.name@,
                file_name: string_view(self.file_name),
                content_type: string_view(self.content_type),
                data: self.data@,
            },
            truncated: self.truncated,
        }
    }
}

/// The content of an optional upload.
pub open spec fn entry_view(entry: Option<MultipartEntry<'_>>) -> Option<EntrySpec> {
    match entry {
        Some(entry) => Some(entry@),
        None => None,
    }
}

/// What a handler sees of a part under the given capacity and policy, or
/// `None` where the part is rejected.
pub open spec fn entry_of(part: PartSpec, capacity: usize, policy: OverflowPolicy) -> Option<
    EntrySpec,
> {
    match kept_len(part.data.len() as int, capacity as int, policy) {
        None => None,
        Some(len) => Some(
            EntrySpec {
                part: PartSpec {
                    name: part.name,
                    file_name: part.file_name,
                    content_type: part.content_type,
                    data: part.data.take(len),
                },
                truncated: part.data.len() > capacity,
            },
        ),
    }
}

/// Copies the data of a part into the upload buffer and makes the entry
/// that a handler sees.
///
/// The part is rejected with `UploadTooLarge` where its data is longer than
/// the capacity of the buffer and the policy is `Reject`. Else the entry
/// has the name, the file name and the content type of the part, and its
/// data is what the buffer holds afterwards: the data of the part, cut at
/// the capacity where it is longer.
pub fn store_part<'v>(buffer: &'v mut UploadBuffer, part: ParsedPart, policy: OverflowPolicy) -> (res:
    Result<MultipartEntry<'v>, BeakError>)
    requires
        old(buffer).wf(),
    ensures
        final(buffer).wf(),
        final(buffer).capacity() == old(buffer).capacity(),
        res is Ok <==> entry_of(part@, old(buffer).capacity(), policy) is Some,
        res matches Ok(entry) ==> Some(entry@) == entry_of(part@, old(buffer).capacity(), policy)
            && entry.data@ == final(buffer)@,
        res matches Err(e) ==> final(buffer)@.len() == 0 && e == too_large(
            old(buffer).capacity(),
            part@.data.len(),
        ),
{
    match buffer.store(part.data.as_slice(), policy) {
        Err(e) => Err(e),
        Ok(truncated) => Ok(
            MultipartEntry {
                name: part.name,
                file_name: part.file_name,
                content_type: part.content_type,
                data: buffer.contents(),
                truncated,
            },
        ),
    }
}

} // verus!
