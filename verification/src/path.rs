//! Derivation paths: ordered lists of child numbers, each normal or hardened.
//!
//! A child number is modelled as the pair of its index and its hardness flag,
//! a path as the sequence of such pairs. On the wire a child number is one
//! `u32` whose top bit is the hardness flag; `raw_of` gives that encoding.
//! Path texts are read by the `bitcoin` crate; what is believed of it is
//! stated on the private function at the end of this file.

use vstd::prelude::*;
use bdk_wallet::bitcoin::bip32::DerivationPath as Bip32Path;
use crate::error::Error;
use crate::text::decimal_text;

verus! {

/// The smallest raw child number that stands for a hardened child. An index
/// is always below it.
pub const HARDENED_START: u32 = 0x8000_0000;

/// Whether a segment's index is in range.
pub open spec fn valid_segment(c: (u32, bool)) -> bool {
    c.0 < HARDENED_START
}

/// Whether every segment of a path has an index in range.
pub open spec fn valid_path(p: Seq<(u32, bool)>) -> bool {
    forall|i: int| 0 <= i < p.len() ==> valid_segment(#[trigger] p[i])
}

/// The `u32` that encodes a segment: the index, with the top bit set for a
/// hardened child.
pub open spec fn raw_of(c: (u32, bool)) -> u32 {
    if c.1 {
        (c.0 + HARDENED_START) as u32
    } else {
        c.0
    }
}

/// The segment that a raw `u32` encodes.
pub open spec fn segment_of_raw(raw: u32) -> (u32, bool) {
    if raw >= HARDENED_START {
        ((raw - HARDENED_START) as u32, true)
    } else {
        (raw, false)
    }
}

/// The raw encoding of every segment of a path.
pub open spec fn raw_path(p: Seq<(u32, bool)>) -> Seq<u32> {
    p.map_values(|c: (u32, bool)| raw_of(c))
}

/// The segments that a list of raw `u32` encodes.
pub open spec fn path_of_raw(raw: Seq<u32>) -> Seq<(u32, bool)> {
    raw.map_values(|r: u32| segment_of_raw(r))
}

/// The raw child numbers of the path that a text writes, such as
/// `m/84h/1h/0h` or `0/1'`. `None` where the text is no path: where a
/// segment is empty or no number, a hardened marker is malformed, or an
/// index is not below `HARDENED_START`.
pub uninterp spec fn path_of_text(text: Seq<char>) -> Option<Seq<u32>>;

/// How a segment is written inside a key expression: the index in decimal,
/// followed by `'` for a hardened child.
pub open spec fn segment_text(c: (u32, bool)) -> Seq<char> {
    if c.1 {
        decimal_text(c.0 as nat) + seq!['\'']
    } else {
        decimal_text(c.0 as nat)
    }
}

/// How a path is written inside a key expression: `/` and the segment, for
/// each segment in order.
pub open spec fn path_suffix(p: Seq<(u32, bool)>) -> Seq<char>
    decreases p.len(),
{
    if p.len() == 0 {
        Seq::<char>::empty()
    } else {
        path_suffix(p.drop_last()) + seq!['/'] + segment_text(p.last())
    }
}

/// A segment that is in range is recovered from its raw encoding.
pub proof fn lemma_raw_round_trip(c: (u32, bool))
    requires
        valid_segment(c),
    ensures
        segment_of_raw(raw_of(c)) == c,
{
}

/// A path whose segments are in range is recovered from its raw encoding.
pub proof fn lemma_raw_path_round_trip(p: Seq<(u32, bool)>)
    requires
        valid_path(p),
    ensures
        path_of_raw(raw_path(p)) == p,
{
    assert forall|i: int| 0 <= i < p.len() implies #[trigger] path_of_raw(raw_path(p))[i]
        == p[i] by {
        lemma_raw_round_trip(p[i]);
    }
    assert(path_of_raw(raw_path(p)) =~= p);
}

/// One step of a derivation path.
#[derive(Clone, Copy, Debug, PartialEq, Eq)]
pub struct ChildNumber {
    index: u32,
    hardened: bool,
}

impl View for ChildNumber {
    type V = (u32, bool);

    closed spec fn view(&self) -> (u32, bool) {
        (self.index, self.hardened)
    }
}

impl ChildNumber {
    #[verifier::type_invariant]
    spec fn in_range(self) -> bool {
        self.index < HARDENED_START
    }

    /// A normal child, if `index` is in range.
    pub fn from_normal_idx(index: u32) -> (r: Result<ChildNumber, Error>)
        ensures
            index < HARDENED_START ==> r is Ok && r->Ok_0@ == (index, false),
            index >= HARDENED_START ==> r == Err::<ChildNumber, Error>(
                Error::InvalidDerivationPath,
            ),
    {
        if index < HARDENED_START {
            Ok(ChildNumber { index, hardened: false })
        } else {
            Err(Error::InvalidDerivationPath)
        }
    }

    /// A hardened child, if `index` is in range.
    pub fn from_hardened_idx(index: u32) -> (r: Result<ChildNumber, Error>)
        ensures
            index < HARDENED_START ==> r is Ok && r->Ok_0@ == (index, true),
            index >= HARDENED_START ==> r == Err::<ChildNumber, Error>(
                Error::InvalidDerivationPath,
            ),
    {
        if index < HARDENED_START {
            Ok(ChildNumber { index, hardened: true })
        } else {
            Err(Error::InvalidDerivationPath)
        }
    }

    /// The child that a raw `u32` encodes.
    pub fn from_raw(raw: u32) -> (r: ChildNumber)
        ensures
            r@ == segment_of_raw(raw),
            raw_of(r@) == raw,
    {
        if raw >= HARDENED_START {
            ChildNumber { index: raw - HARDENED_START, hardened: true }
        } else {
            ChildNumber { index: raw, hardened: false }
        }
    }

    /// The index, without the hardness flag.
    pub fn index(&self) -> (i: u32)
        ensures
            i == self@.0,
            valid_segment(self@),
    {
        proof {
            use_type_invariant(self);
        }
        self.index
    }

    /// Whether this is a hardened child.
    pub fn is_hardened(&self) -> (h: bool)
        ensures
            h == self@.1,
    {
        self.hardened
    }

    /// Whether this is a normal child.
    pub fn is_normal(&self) -> (n: bool)
        ensures
            n == !self@.1,
    {
        !self.hardened
    }

    /// The raw `u32` that encodes this child.
    pub fn to_raw(&self) -> (raw: u32)
        ensures
            raw == raw_of(self@),
            valid_segment(self@),
    {
        proof {
            use_type_invariant(self);
        }
        if self.hardened {
            self.index + HARDENED_START
        } else {
            self.index
        }
    }
}

/// An ordered list of child numbers. Once made, a path never changes: every
/// operation returns a new path.
#[derive(Debug)]
pub struct DerivationPath {
    segments: Vec<ChildNumber>,
}

impl View for DerivationPath {
    type V = Seq<(u32, bool)>;

    closed spec fn view(&self) -> Seq<(u32, bool)> {
        self.segments@.map_values(|c: ChildNumber| c@)
    }
}

impl Clone for DerivationPath {
    fn clone(&self) -> (r: Self)
        ensures
            r@ == self@,
    {
        proof {
            use_type_invariant(self);
        }
        DerivationPath { segments: self.copy_segments() }
    }
}

impl DerivationPath {
    #[verifier::type_invariant]
    spec fn in_range(self) -> bool {
        forall|i: int|
            0 <= i < self.segments@.len() ==> (#[trigger] self.segments@[i]).index
                < HARDENED_START
    }

    /// A copy of the segments.
    fn copy_segments(&self) -> (segments: Vec<ChildNumber>)
        ensures
            segments@ == self.segments@,
    {
        let mut segments: Vec<ChildNumber> = Vec::new();
        let n = self.segments.len();
        let mut i: usize = 0;
        while i < n
            invariant
                n == self.segments@.len(),
                0 <= i <= n,
                segments@ == self.segments@.take(i as int),
            decreases n - i,
        {
            segments.push(self.segments[i]);
            assert(segments@ =~= self.segments@.take(i + 1));
            i = i + 1;
        }
        assert(segments@ =~= self.segments@);
        segments
    }

    /// The empty path, that of a master key.
    pub fn master() -> (r: DerivationPath)
        ensures
            r@ == Seq::<(u32, bool)>::empty(),
    {
        let r = DerivationPath { segments: Vec::new() };
        assert(r@ =~= Seq::<(u32, bool)>::empty());
        r
    }

    /// The number of segments.
    pub fn len(&self) -> (n: usize)
        ensures
            n == self@.len(),
            valid_path(self@),
    {
        proof {
            use_type_invariant(self);
        }
        self.segments.len()
    }

    /// Whether the path has no segment.
    pub fn is_empty(&self) -> (e: bool)
        ensures
            e == (self@.len() == 0),
    {
        self.segments.len() == 0
    }

    /// The segment at position `i`, if the path is that long.
    pub fn get(&self, i: usize) -> (r: Option<ChildNumber>)
        ensures
            match r {
                Some(c) => i < self@.len() && c@ == self@[i as int],
                None => i >= self@.len(),
            },
    {
        if i < self.segments.len() {
            Some(self.segments[i])
        } else {
            None
        }
    }

    /// This path with one more segment at its end.
    pub fn child(&self, cn: ChildNumber) -> (r: DerivationPath)
        ensures
            r@ == self@.push(cn@),
    {
        proof {
            use_type_invariant(self);
            use_type_invariant(&cn);
        }
        let mut segments = self.copy_segments();
        segments.push(cn);
        let r = DerivationPath { segments };
        assert(r@ =~= self@.push(cn@));
        r
    }

    /// This path followed by `tail`. Nothing is parsed or checked again: the
    /// segments of both paths are kept as they are, in order.
    pub fn extend(&self, tail: &DerivationPath) -> (r: DerivationPath)
        ensures
            r@ == self@ + tail@,
    {
        proof {
            use_type_invariant(self);
            use_type_invariant(tail);
        }
        let mut segments: Vec<ChildNumber> = self.copy_segments();
        let n = tail.segments.len();
        let mut i: usize = 0;
        while i < n
            invariant
                n == tail.segments@.len(),
                0 <= i <= n,
                segments@ == self.segments@ + tail.segments@.take(i as int),
                forall|j: int|
                    0 <= j < self.segments@.len() ==> (#[trigger] self.segments@[j]).index
                        < HARDENED_START,
                forall|j: int|
                    0 <= j < n ==> (#[trigger] tail.segments@[j]).index < HARDENED_START,
            decreases n - i,
        {
            segments.push(tail.segments[i]);
            assert(segments@ =~= self.segments@ + tail.segments@.take(i + 1));
            i = i + 1;
        }
        assert(tail.segments@.take(n as int) =~= tail.segments@);
        let r = DerivationPath { segments };
        assert(r@ =~= self@ + tail@);
        r
    }

    /// The path of one normal segment that selects a keychain below an
    /// account: `0` for receiving, `1` for change.
    pub fn branch(index: u32) -> (r: Result<DerivationPath, Error>)
        ensures
            index < HARDENED_START ==> r is Ok && r->Ok_0@ == seq![(index, false)],
            index >= HARDENED_START ==> r == Err::<DerivationPath, Error>(
                Error::InvalidDerivationPath,
            ),
    {
        match ChildNumber::from_normal_idx(index) {
            Ok(cn) => {
                let r = DerivationPath::master().child(cn);
                assert(r@ =~= seq![(index, false)]);
                Ok(r)
            },
            Err(e) => Err(e),
        }
    }

    /// The raw encoding of every segment, in order.
    pub fn to_raw(&self) -> (raw: Vec<u32>)
        ensures
            raw@ == raw_path(self@),
            valid_path(self@),
    {
        proof {
            use_type_invariant(self);
        }
        let mut raw: Vec<u32> = Vec::new();
        let n = self.segments.len();
        let mut i: usize = 0;
        while i < n
            invariant
                n == self.segments@.len(),
                0 <= i <= n,
                raw@ == raw_path(self@.take(i as int)),
            decreases n - i,
        {
            let r = self.segments[i].to_raw();
            raw.push(r);
            assert(raw@ =~= raw_path(self@.take(i + 1)));
            i = i + 1;
        }
        assert(self@.take(n as int) =~= self@);
        raw
    }

    /// The path that a list of raw child numbers encodes.
    pub fn from_raw(raw: &Vec<u32>) -> (r: DerivationPath)
        ensures
            r@ == path_of_raw(raw@),
            raw_path(r@) == raw@,
    {
        let mut segments: Vec<ChildNumber> = Vec::new();
        let n = raw.len();
        let mut i: usize = 0;
        while i < n
            invariant
                n == raw@.len(),
                0 <= i <= n,
                segments@.len() == i,
                forall|j: int| 0 <= j < i ==> (#[trigger] segments@[j]).index < HARDENED_START,
                forall|j: int| 0 <= j < i ==> (#[trigger] segments@[j])@ == segment_of_raw(raw@[j]),
                forall|j: int| 0 <= j < i ==> raw_of((#[trigger] segments@[j])@) == raw@[j],
            decreases n - i,
        {
            let c = ChildNumber::from_raw(raw[i]);
            proof {
                use_type_invariant(&c);
            }
            segments.push(c);
            i = i + 1;
        }
        let r = DerivationPath { segments };
        assert(r@ =~= path_of_raw(raw@));
        assert(raw_path(r@) =~= raw@);
        r
    }

    /// Reads a path text such as `m/84h/1h/0h` or `0/1'`.
    pub fn from_str(s: &str) -> (r: Result<DerivationPath, Error>)
        ensures
            match r {
                Ok(p) => path_of_text(s@) matches Some(raw) && p@ == path_of_raw(raw),
                Err(e) => path_of_text(s@) is None && e == Error::InvalidDerivationPath,
            },
    {
        match parse_raw_path(s) {
            Some(raw) => Ok(DerivationPath::from_raw(&raw)),
            None => Err(Error::InvalidDerivationPath),
        }
    }
}

/// `DerivationPath::from_str` of the `bitcoin` crate, followed by
/// `DerivationPath::to_u32_vec`, which gives the raw encoding of every
/// child number.
#[verifier::external_body]
fn parse_raw_path(text: &str) -> (r: Option<Vec<u32>>)
    ensures
        match r {
            Some(raw) => path_of_text(text@) == Some(raw@),
            None => path_of_text(text@) is None,
        },
{
    text.parse::<Bip32Path>().ok().map(|p| p.to_u32_vec())
}

} // verus!
