//! Header lines as plain values, and the searches that the dispatch core
//! makes in them.

use vstd::prelude::*;
use vstd::string::*;
use vstd::utf8::{encode_utf8, is_ascii_chars};

verus! {

/// One header line of a request or of a response. The name of the field
/// and the value are ASCII.
#[derive(Debug)]
pub struct Header {
    field: String,
    value: String,
}

/// The mathematical content of a [`Header`].
pub ghost struct HeaderSpec {
    pub field: Seq<char>,
    pub value: Seq<char>,
}

impl View for Header {
    type V = HeaderSpec;

    closed spec fn view(&self) -> HeaderSpec {
        HeaderSpec { field: self.field@, value: self.value@ }
    }
}

/// The lower-case form of an ASCII letter; any other byte is kept.
pub open spec fn ascii_lower(b: u8) -> u8 {
    if 0x41 <= b <= 0x5a {
        (b + 0x20) as u8
    } else {
        b
    }
}

/// Whether two byte strings are equal up to the case of their ASCII letters.
pub open spec fn eq_ignoring_case(a: Seq<u8>, b: Seq<u8>) -> bool {
    &&& a.len() == b.len()
    &&& forall|i: int| 0 <= i < a.len() ==> ascii_lower(#[trigger] a[i]) == ascii_lower(b[i])
}

/// Whether `header` is a line of the field called `name`. Field names are
/// compared without regard to the case of ASCII letters.
pub open spec fn is_field(header: Header, name: Seq<char>) -> bool {
    eq_ignoring_case(encode_utf8(header@.field), encode_utf8(name))
}

/// The position of the first line of the field `name` at or after `from`.
pub open spec fn first_header_from(headers: Seq<Header>, name: Seq<char>, from: int) -> Option<
    int,
>
    decreases headers.len() - from,
{
    if from < 0 || from >= headers.len() {
        None
    } else if is_field(headers[from], name) {
        Some(from)
    } else {
        first_header_from(headers, name, from + 1)
    }
}

/// The position of the first line of the field `name`.
pub open spec fn first_header(headers: Seq<Header>, name: Seq<char>) -> Option<int> {
    first_header_from(headers, name, 0)
}

/// Whether `needle` stands in `hay` at position `at`.
pub open spec fn occurs_at(hay: Seq<u8>, needle: Seq<u8>, at: int) -> bool {
    &&& 0 <= at
    &&& at + needle.len() <= hay.len()
    &&& hay.subrange(at, at + needle.len()) == needle
}

/// The first position at or after `from` at which `needle` stands in `hay`.
pub open spec fn first_occurrence_from(hay: Seq<u8>, needle: Seq<u8>, from: int) -> Option<int>
    decreases hay.len() - from + 1,
{
    if from < 0 || from + needle.len() > hay.len() {
        None
    } else if occurs_at(hay, needle, from) {
        Some(from)
    } else {
        first_occurrence_from(hay, needle, from + 1)
    }
}

/// The lower-case form of an ASCII letter.
pub fn to_ascii_lower(b: u8) -> (l: u8)
    ensures
        l == ascii_lower(b),
{
    if 0x41 <= b && b <= 0x5a {
        b + 0x20
    } else {
        b
    }
}

/// Compares two byte strings without regard to the case of ASCII letters.
pub fn bytes_eq_ignoring_case(a: &[u8], b: &[u8]) -> (same: bool)
    ensures
        same == eq_ignoring_case(a@, b@),
{
    if a.len() != b.len() {
        return false;
    }
    let mut i: usize = 0;
    while i < a.len()
        invariant
            i <= a.len(),
            a.len() == b.len(),
            forall|j: int| 0 <= j < i ==> ascii_lower(#[trigger] a@[j]) == ascii_lower(b@[j]),
        decreases a.len() - i,
    {
        if to_ascii_lower(a[i]) != to_ascii_lower(b[i]) {
            return false;
        }
        i += 1;
    }
    true
}

/// Whether `needle` stands in `hay` at position `at`.
pub fn bytes_occur_at(hay: &[u8], needle: &[u8], at: usize) -> (found: bool)
    ensures
        found == occurs_at(hay@, needle@, at as int),
{
    if needle.len() > hay.len() || at > hay.len() - needle.len() {
        return false;
    }
    let mut i: usize = 0;
    while i < needle.len()
        invariant
            i <= needle.len(),
            at + needle.len() <= hay.len(),
            forall|j: int| 0 <= j < i ==> hay@[at + j] == #[trigger] needle@[j],
        decreases needle.len() - i,
    {
        if hay[at + i] != needle[i] {
            return false;
        }
        i += 1;
    }
    proof {
        assert(hay@.subrange(at as int, at + needle.len()) =~= needle@);
    }
    true
}

/// Finds the first position at or after `from` at which `needle` stands in
/// `hay`.
pub fn find_bytes_from(hay: &[u8], needle: &[u8], from: usize) -> (found: Option<usize>)
    ensures
        found.is_some() == first_occurrence_from(hay@, needle@, from as int).is_some(),
        found matches Some(at) ==> first_occurrence_from(hay@, needle@, from as int) == Some(
            at as int,
        ),
        found matches Some(at) ==> from <= at && occurs_at(hay@, needle@, at as int),
{
    let mut at: usize = from;
    while at < hay.len() && needle.len() <= hay.len() - at
        invariant
            from <= at,
            first_occurrence_from(hay@, needle@, from as int) == first_occurrence_from(
                hay@,
                needle@,
                at as int,
            ),
        decreases hay.len() - at,
    {
        if bytes_occur_at(hay, needle, at) {
            return Some(at);
        }
        at += 1;
    }
    if at == hay.len() && needle.len() == 0 {
        proof {
            assert(hay@.subrange(at as int, at as int) =~= needle@);
        }
        return Some(at);
    }
    None
}

impl Header {
    #[verifier::type_invariant]
    spec fn ascii(&self) -> bool {
        is_ascii_chars(self.field@) && is_ascii_chars(self.value@)
    }

    /// Makes a header line of a field name and a value. There is no such
    /// line where either of them is not ASCII.
    pub fn new(field: String, value: String) -> (header: Option<Header>)
        ensures
            header is Some <==> is_ascii_chars(field@) && is_ascii_chars(value@),
            header matches Some(h) ==> h@.field == field@ && h@.value == value@,
    {
        if field.is_ascii() && value.is_ascii() {
            Some(Header { field, value })
        } else {
            None
        }
    }

    /// The name of the field.
    pub fn field(&self) -> (field: &str)
        ensures
            field@ == self@.field,
            is_ascii_chars(field@),
    {
        proof {
            use_type_invariant(self);
        }
        self.field.as_str()
    }

    /// The value of the line.
    pub fn value(&self) -> (value: &str)
        ensures
            value@ == self@.value,
            is_ascii_chars(value@),
    {
        proof {
            use_type_invariant(self);
        }
        self.value.as_str()
    }

    /// Whether this is a line of the field called `name`.
    pub fn field_is(&self, name: &str) -> (same: bool)
        ensures
            same == is_field(*self, name@),
    {
        bytes_eq_ignoring_case(self.field.as_str().as_bytes(), name.as_bytes())
    }
}

/// Finds the first line of the field called `name`.
pub fn find_header(headers: &[Header], name: &str) -> (found: Option<usize>)
    ensures
        found.is_some() == first_header(headers@, name@).is_some(),
        found matches Some(i) ==> first_header(headers@, name@) == Some(i as int),
        found matches Some(i) ==> i < headers@.len() && is_field(headers@[i as int], name@),
{
    let mut i: usize = 0;
    while i < headers.len()
        invariant
            i <= headers.len(),
            first_header(headers@, name@) == first_header_from(headers@, name@, i as int),
        decreases headers.len() - i,
    {
        if headers[i].field_is(name) {
            return Some(i);
        }
        i += 1;
    }
    None
}

} // verus!
