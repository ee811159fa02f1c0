//! The two wire vocabularies: fields of the streamer's status document and
//! the amplifier's ASCII commands and replies.
use vstd::prelude::*;
use vstd::string::StringSliceAdditionalSpecFns;

verus! {

/// A field of the streamer's status document that the controller reads.
#[derive(Clone, Copy, Debug, PartialEq, Eq, Structural)]
pub enum Field {
    State,
    InputId,
    Secs,
}

pub open spec fn field_tag(f: Field) -> Seq<char> {
    match f {
        Field::State => "state"@,
        Field::InputId => "inputId"@,
        Field::Secs => "secs"@,
    }
}

impl Field {
    /// The tag name of this field in the status document.
    pub fn tag(&self) -> (r: &'static str)
        ensures
            r@ == field_tag(*self),
    {
        match self {
            Field::State => "state",
            Field::InputId => "inputId",
            Field::Secs => "secs",
        }
    }
}

/// An amplifier query: written, then answered with a reply.
#[derive(Clone, Copy, Debug, PartialEq, Eq, Structural)]
pub enum Query {
    Power,
    Source,
}

pub open spec fn query_text(q: Query) -> Seq<char> {
    match q {
        Query::Power => "power?"@,
        Query::Source => "source?"@,
    }
}

impl Query {
    /// The ASCII text written to the amplifier for this query.
    pub fn text(&self) -> (r: &'static str)
        ensures
            r@ == query_text(*self),
    {
        match self {
            Query::Power => "power?",
            Query::Source => "source?",
        }
    }
}

/// An amplifier command that changes its state.
#[derive(Clone, Copy, Debug, PartialEq, Eq, Structural)]
pub enum Command {
    /// Selects the aux1 input, which also powers the amplifier on.
    Aux1,
    PowerOff,
}

pub open spec fn command_text(c: Command) -> Seq<char> {
    match c {
        Command::Aux1 => "aux1!"@,
        Command::PowerOff => "power_off!"@,
    }
}

impl Command {
    /// The ASCII text written to the amplifier for this command.
    pub fn text(&self) -> (r: &'static str)
        ensures
            r@ == command_text(*self),
    {
        match self {
            Command::Aux1 => "aux1!",
            Command::PowerOff => "power_off!",
        }
    }
}

/// The reply marker of an amplifier in standby.
pub open spec fn standby_marker() -> Seq<u8> {
    "power=standby$".spec_bytes()
}

/// The reply marker of a powered amplifier.
pub open spec fn on_marker() -> Seq<u8> {
    "power=on$".spec_bytes()
}

/// The reply marker of an amplifier listening to its aux1 input.
pub open spec fn aux1_marker() -> Seq<u8> {
    "source=aux1$".spec_bytes()
}

/// `needle` occurs in `hay` at position `i`.
pub open spec fn occurs_at(hay: Seq<u8>, needle: Seq<u8>, i: int) -> bool {
    0 <= i && i + needle.len() <= hay.len() && hay.subrange(i, i + needle.len()) == needle
}

/// `needle` occurs somewhere in `hay`.
pub open spec fn contains(hay: Seq<u8>, needle: Seq<u8>) -> bool {
    exists|i: int| occurs_at(hay, needle, i)
}

/// Whether `needle` occurs in `hay`; a reply is read as raw bytes, so a
/// truncated or partly garbled frame is searched as it is.
pub fn contains_bytes(hay: &[u8], needle: &[u8]) -> (r: bool)
    ensures
        r == contains(hay@, needle@),
{
    if needle.len() > hay.len() {
        assert forall|i: int| !occurs_at(hay@, needle@, i) by {}
        return false;
    }
    let last: usize = hay.len() - needle.len();
    assert(hay@.len() == hay.len());
    let mut i: usize = 0;
    while i <= last
        invariant
            last == hay@.len() - needle@.len(),
            needle@.len() <= hay@.len(),
            i <= last,
            forall|k: int| 0 <= k < i ==> !occurs_at(hay@, needle@, k),
        ensures
            forall|k: int| 0 <= k <= last ==> !occurs_at(hay@, needle@, k),
        decreases last - i,
    {
        let mut j: usize = 0;
        let mut same = true;
        while j < needle.len()
            invariant
                i <= last,
                last == hay@.len() - needle@.len(),
                needle@.len() <= hay@.len(),
                hay@.len() == hay.len(),
                j <= needle@.len(),
                same == (forall|m: int| 0 <= m < j ==> hay@[i + m] == needle@[m]),
            decreases needle@.len() - j,
        {
            if hay[i + j] != needle[j] {
                same = false;
            }
            j = j + 1;
        }
        if same {
            assert(hay@.subrange(i as int, i + needle@.len()) =~= needle@);
            assert(occurs_at(hay@, needle@, i as int));
            return true;
        }
        assert(!(hay@.subrange(i as int, i + needle@.len()) =~= needle@));
        if i == last {
            break;
        }
        i = i + 1;
    }
    assert forall|k: int| !occurs_at(hay@, needle@, k) by {
        if 0 <= k && k + needle@.len() <= hay@.len() {
            assert(k <= last);
        }
    }
    false
}

/// Whether a reply holds `marker`.
pub fn reply_holds(reply: &[u8], marker: &str) -> (r: bool)
    ensures
        r == contains(reply@, marker.spec_bytes()),
{
    contains_bytes(reply, marker.as_bytes())
}

} // verus!
