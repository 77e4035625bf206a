//! Telling the pad apart from other input devices by name.
//!
//! The caller lists the candidates and opens them; this module only judges
//! the names. Names are compared byte by byte in their UTF-8 form.

use vstd::prelude::*;
use vstd::string::*;

verus! {

/// `needle` stands in `hay` at position `at`.
pub open spec fn occurs_at(hay: Seq<u8>, needle: Seq<u8>, at: int) -> bool {
    &&& 0 <= at
    &&& at + needle.len() <= hay.len()
    &&& hay.subrange(at, at + needle.len()) == needle
}

/// `needle` stands somewhere in `hay`.
pub open spec fn has_substring(hay: Seq<u8>, needle: Seq<u8>) -> bool {
    exists|at: int| occurs_at(hay, needle, at)
}

/// `hay` begins with `prefix`.
pub open spec fn has_prefix(hay: Seq<u8>, prefix: Seq<u8>) -> bool {
    occurs_at(hay, prefix, 0)
}

/// A byte with its ASCII capital letter, if it is one, made small.
pub open spec fn lower_byte(b: u8) -> u8 {
    if 65 <= b <= 90 {
        (b + 32) as u8
    } else {
        b
    }
}

/// `bytes` with every ASCII capital letter made small.
pub open spec fn ascii_lower(bytes: Seq<u8>) -> Seq<u8> {
    Seq::new(bytes.len(), |i: int| lower_byte(bytes[i]))
}

/// A name under `/dev/input/by-id` that belongs to the pad: it holds
/// `Wacom`, it holds `pad` in any mix of capital and small ASCII letters, and it
/// holds `event`.
pub open spec fn spec_is_pad_link(name: Seq<u8>) -> bool {
    &&& has_substring(name, "Wacom".spec_bytes())
    &&& has_substring(ascii_lower(name), "pad".spec_bytes())
    &&& has_substring(name, "event".spec_bytes())
}

/// A file name under `/dev/input` that is an event node: it begins with
/// `event`.
pub open spec fn spec_is_event_node(file_name: Seq<u8>) -> bool {
    has_prefix(file_name, "event".spec_bytes())
}

/// A device name that belongs to the pad: it holds `Wacom` and `Pad`.
pub open spec fn spec_is_pad_name(device_name: Seq<u8>) -> bool {
    &&& has_substring(device_name, "Wacom".spec_bytes())
    &&& has_substring(device_name, "Pad".spec_bytes())
}

fn lowered(b: u8) -> (l: u8)
    ensures
        l == lower_byte(b),
{
    if 65 <= b && b <= 90 {
        b + 32
    } else {
        b
    }
}

/// Whether `needle` stands at `at` in `hay`, or, with `fold` set, in `hay`
/// with its capital letters made small.
fn matches_at(hay: &[u8], needle: &[u8], at: usize, fold: bool) -> (found: bool)
    requires
        at + needle@.len() <= hay@.len(),
    ensures
        found == occurs_at(
            if fold {
                ascii_lower(hay@)
            } else {
                hay@
            },
            needle@,
            at as int,
        ),
{
    let ghost text = if fold {
        ascii_lower(hay@)
    } else {
        hay@
    };
    let len = hay.len();
    let mut k: usize = 0;
    while k < needle.len()
        invariant
            k <= needle@.len(),
            len == hay@.len(),
            at + needle@.len() <= hay@.len(),
            text == if fold {
                ascii_lower(hay@)
            } else {
                hay@
            },
            forall|j: int| 0 <= j < k ==> text[at + j] == needle@[j],
        decreases needle@.len() - k,
    {
        let b = if fold {
            lowered(hay[at + k])
        } else {
            hay[at + k]
        };
        if b != needle[k] {
            proof {
                let window = text.subrange(at as int, at + needle@.len());
                assert(window[k as int] == text[at + k]);
            }
            return false;
        }
        k += 1;
    }
    assert(text.subrange(at as int, at + needle@.len()) =~= needle@);
    true
}

/// Whether `needle` stands somewhere in `hay`, or, with `fold` set, in
/// `hay` with its capital letters made small.
fn search(hay: &[u8], needle: &[u8], fold: bool) -> (found: bool)
    ensures
        found == has_substring(
            if fold {
                ascii_lower(hay@)
            } else {
                hay@
            },
            needle@,
        ),
{
    let ghost text = if fold {
        ascii_lower(hay@)
    } else {
        hay@
    };
    if needle.len() > hay.len() {
        assert(forall|at: int| !occurs_at(text, needle@, at));
        return false;
    }
    let last = hay.len() - needle.len();
    let mut at: usize = 0;
    loop
        invariant
            at <= last,
            last == hay@.len() - needle@.len(),
            text == if fold {
                ascii_lower(hay@)
            } else {
                hay@
            },
            text.len() == hay@.len(),
            forall|j: int| 0 <= j < at ==> !occurs_at(text, needle@, j),
        decreases last - at,
    {
        if matches_at(hay, needle, at, fold) {
            assert(occurs_at(text, needle@, at as int));
            return true;
        }
        if at == last {
            assert(forall|j: int| !occurs_at(text, needle@, j));
            return false;
        }
        at += 1;
    }
}

/// Whether `needle` stands somewhere in `hay`.
pub fn contains(hay: &[u8], needle: &[u8]) -> (found: bool)
    ensures
        found == has_substring(hay@, needle@),
{
    search(hay, needle, false)
}

/// Whether `needle` stands somewhere in `hay` once the capital ASCII
/// letters of `hay` are made small.
pub fn contains_lowered(hay: &[u8], needle: &[u8]) -> (found: bool)
    ensures
        found == has_substring(ascii_lower(hay@), needle@),
{
    search(hay, needle, true)
}

/// Whether `hay` begins with `prefix`.
pub fn starts_with(hay: &[u8], prefix: &[u8]) -> (found: bool)
    ensures
        found == has_prefix(hay@, prefix@),
{
    if prefix.len() > hay.len() {
        false
    } else {
        matches_at(hay, prefix, 0, false)
    }
}

pub fn is_pad_link(name: &str) -> (pad: bool)
    ensures
        pad == spec_is_pad_link(name.spec_bytes()),
{
    let bytes = name.as_bytes();
    contains(bytes, "Wacom".as_bytes()) && contains_lowered(bytes, "pad".as_bytes()) && contains(
        bytes,
        "event".as_bytes(),
    )
}

pub fn is_event_node(file_name: &str) -> (event: bool)
    ensures
        event == spec_is_event_node(file_name.spec_bytes()),
{
    starts_with(file_name.as_bytes(), "event".as_bytes())
}

pub fn is_pad_name(device_name: &str) -> (pad: bool)
    ensures
        pad == spec_is_pad_name(device_name.spec_bytes()),
{
    let bytes = device_name.as_bytes();
    contains(bytes, "Wacom".as_bytes()) && contains(bytes, "Pad".as_bytes())
}

} // verus!
