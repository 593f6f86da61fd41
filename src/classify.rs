//! Classification of the chain's rejection messages.
use vstd::prelude::*;
use vstd::string::*;

verus! {

/// How a failed submission is handled.
#[derive(Clone, Copy, Debug, PartialEq, Eq, Structural)]
pub enum ErrorClass {
    /// The same transaction, or one with its nonce, is already pending:
    /// resubmit with a corrected nonce or price.
    AlreadyKnown,
    /// The request can never succeed as it stands (insufficient funds, bad
    /// signature): give up at once.
    Fatal,
    /// Anything else, network failures included: retry unchanged.
    TransientNetwork,
}

/// `needle` occurs in `hay` at `pos`.
pub open spec fn occurs_at(hay: Seq<u8>, needle: Seq<u8>, pos: int) -> bool {
    0 <= pos && pos + needle.len() <= hay.len() && hay.subrange(pos, pos + needle.len()) == needle
}

/// `needle` occurs somewhere in `hay`.
pub open spec fn contains_bytes(hay: Seq<u8>, needle: Seq<u8>) -> bool {
    exists|pos: int| occurs_at(hay, needle, pos)
}

pub open spec fn already_known_markers() -> Seq<Seq<u8>> {
    seq![
        "already known".spec_bytes(),
        "replacement transaction underpriced".spec_bytes(),
    ]
}

pub open spec fn fatal_markers() -> Seq<Seq<u8>> {
    seq![
        "insufficient funds".spec_bytes(),
        "invalid signature".spec_bytes(),
        "invalid sender".spec_bytes(),
    ]
}

pub open spec fn contains_any(hay: Seq<u8>, markers: Seq<Seq<u8>>) -> bool {
    exists|i: int| 0 <= i < markers.len() && contains_bytes(hay, #[trigger] markers[i])
}

/// The class of a rejection with message `msg`: a duplicate or underpriced
/// replacement is `AlreadyKnown`, insufficient funds or a bad signature is
/// `Fatal`, anything else is `TransientNetwork`.
pub open spec fn classify_spec(msg: Seq<u8>) -> ErrorClass {
    if contains_any(msg, already_known_markers()) {
        ErrorClass::AlreadyKnown
    } else if contains_any(msg, fatal_markers()) {
        ErrorClass::Fatal
    } else {
        ErrorClass::TransientNetwork
    }
}

fn occurs_at_exec(hay: &[u8], needle: &[u8], pos: usize) -> (r: bool)
    requires
        pos + needle@.len() <= hay@.len(),
    ensures
        r == occurs_at(hay@, needle@, pos as int),
{
    let hay_len: usize = hay.len();
    let mut k: usize = 0;
    while k < needle.len()
        invariant
            hay_len == hay@.len(),
            pos + needle@.len() <= hay@.len(),
            k <= needle@.len(),
            forall|j: int| 0 <= j < k ==> hay@[pos + j] == needle@[j],
        decreases needle@.len() - k,
    {
        if hay[pos + k] != needle[k] {
            assert(hay@.subrange(pos as int, pos + needle@.len())[k as int] != needle@[k as int]);
            return false;
        }
        k = k + 1;
    }
    assert(hay@.subrange(pos as int, pos + needle@.len()) =~= needle@);
    true
}

/// Whether `needle` occurs in `hay`.
pub fn contains(hay: &[u8], needle: &[u8]) -> (r: bool)
    ensures
        r == contains_bytes(hay@, needle@),
{
    if needle.len() > hay.len() {
        return false;
    }
    let last: usize = hay.len() - needle.len();
    let mut pos: usize = 0;
    loop
        invariant
            last + needle@.len() == hay@.len(),
            pos <= last,
            forall|p: int| 0 <= p < pos ==> !occurs_at(hay@, needle@, p),
        decreases last - pos,
    {
        if occurs_at_exec(hay, needle, pos) {
            return true;
        }
        if pos == last {
            assert forall|p: int| #[trigger] occurs_at(hay@, needle@, p) implies p <= last by {}
            return false;
        }
        pos = pos + 1;
    }
}

fn contains_any_exec(hay: &[u8], markers: &Vec<Vec<u8>>) -> (r: bool)
    ensures
        r == (exists|i: int| 0 <= i < markers@.len() && contains_bytes(hay@, #[trigger] markers@[i]@)),
{
    let mut i: usize = 0;
    while i < markers.len()
        invariant
            i <= markers@.len(),
            forall|j: int| 0 <= j < i ==> !contains_bytes(hay@, #[trigger] markers@[j]@),
        decreases markers@.len() - i,
    {
        if contains(hay, markers[i].as_slice()) {
            return true;
        }
        i = i + 1;
    }
    false
}

/// The class of the rejection whose message is `msg`, as `classify_spec`
/// describes it.
pub fn classify_rejection(msg: &[u8]) -> (r: ErrorClass)
    ensures
        r == classify_spec(msg@),
{
    let already_known: Vec<Vec<u8>> = vec![
        "already known".as_bytes_vec(),
        "replacement transaction underpriced".as_bytes_vec(),
    ];
    let fatal: Vec<Vec<u8>> = vec![
        "insufficient funds".as_bytes_vec(),
        "invalid signature".as_bytes_vec(),
        "invalid sender".as_bytes_vec(),
    ];
    let ghost ak_view = already_known@.map_values(|v: Vec<u8>| v@);
    let ghost fatal_view = fatal@.map_values(|v: Vec<u8>| v@);
    assert(ak_view =~= already_known_markers());
    assert(fatal_view =~= fatal_markers());
    let is_known = contains_any_exec(msg, &already_known);
    assert(is_known == contains_any(msg@, already_known_markers())) by {
        if is_known {
            let i = choose|i: int| 0 <= i < already_known@.len() && contains_bytes(msg@, #[trigger] already_known@[i]@);
            assert(ak_view[i] == already_known@[i]@);
        }
        if contains_any(msg@, already_known_markers()) {
            let i = choose|i: int| 0 <= i < already_known_markers().len() && contains_bytes(msg@, #[trigger] already_known_markers()[i]);
            assert(ak_view[i] == already_known@[i]@);
        }
    }
    if is_known {
        return ErrorClass::AlreadyKnown;
    }
    let is_fatal = contains_any_exec(msg, &fatal);
    assert(is_fatal == contains_any(msg@, fatal_markers())) by {
        if is_fatal {
            let i = choose|i: int| 0 <= i < fatal@.len() && contains_bytes(msg@, #[trigger] fatal@[i]@);
            assert(fatal_view[i] == fatal@[i]@);
        }
        if contains_any(msg@, fatal_markers()) {
            let i = choose|i: int| 0 <= i < fatal_markers().len() && contains_bytes(msg@, #[trigger] fatal_markers()[i]);
            assert(fatal_view[i] == fatal@[i]@);
        }
    }
    if is_fatal {
        ErrorClass::Fatal
    } else {
        ErrorClass::TransientNetwork
    }
}

} // verus!
