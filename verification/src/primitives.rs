//! Small attribute primitives, and the one-or-many collection convenience
//! that setter methods for sequence-valued fields rely on.

use vstd::prelude::*;

verus! {

/// The rgba components selector.
#[derive(Debug, PartialEq, Eq, Structural, PartialOrd, Clone, Copy)]
pub enum ChannelSelector {
    R,
    G,
    B,
    A,
}

impl Default for ChannelSelector {
    /// The alpha channel.
    fn default() -> (r: Self)
        ensures
            r == ChannelSelector::A,
    {
        ChannelSelector::A
    }
}

/// An IRI reference.
#[derive(Debug, PartialEq, PartialOrd, Clone)]
pub struct Href(pub String);

/// Defines the coordinate system for the contents.
#[derive(Debug, PartialEq, Eq, Structural, PartialOrd, Clone, Copy)]
pub enum Units {
    UserSpaceOnUse,
    ObjectBoundingBox,
}

/// A set of Unicode characters: a single character or an inclusive range.
#[derive(Debug, PartialEq, Eq, Structural, PartialOrd, Clone, Copy)]
pub enum UnicodeRange {
    Char(char),
    Range { from: char, to: char },
}

impl Default for UnicodeRange {
    /// The range of all Unicode characters.
    fn default() -> (r: Self)
        ensures
            r == (UnicodeRange::Range { from: '\u{0}', to: '\u{10ffff}' }),
    {
        UnicodeRange::Range { from: '\u{0}', to: '\u{10ffff}' }
    }
}

/// Collect one value, or a fixed-arity sequence of values, into a vector,
/// keeping the listed order.
pub trait MapCollect<Item>: Sized {
    /// The items this value collects to, in order.
    spec fn collected(self) -> Seq<Item>;

    /// Collect into a vector holding exactly `collected`.
    fn map_collect(self) -> (r: Vec<Item>)
        ensures
            r@ == self.collected(),
    ;
}

impl MapCollect<String> for String {
    open spec fn collected(self) -> Seq<String> {
        seq![self]
    }

    fn map_collect(self) -> (r: Vec<String>) {
        let ghost me = self;
        let mut v: Vec<String> = Vec::new();
        v.push(self);
        proof {
            assert(v@ =~= seq![me]);
        }
        v
    }
}

impl MapCollect<String> for (String, String) {
    open spec fn collected(self) -> Seq<String> {
        seq![self.0, self.1]
    }

    fn map_collect(self) -> (r: Vec<String>) {
        let ghost me = self;
        let (a, b) = self;
        let mut v: Vec<String> = Vec::new();
        v.push(a);
        v.push(b);
        proof {
            assert(v@ =~= seq![me.0, me.1]);
        }
        v
    }
}

impl MapCollect<String> for (String, String, String) {
    open spec fn collected(self) -> Seq<String> {
        seq![self.0, self.1, self.2]
    }

    fn map_collect(self) -> (r: Vec<String>) {
        let ghost me = self;
        let (a, b, c) = self;
        let mut v: Vec<String> = Vec::new();
        v.push(a);
        v.push(b);
        v.push(c);
        proof {
            assert(v@ =~= seq![me.0, me.1, me.2]);
        }
        v
    }
}

impl MapCollect<UnicodeRange> for UnicodeRange {
    open spec fn collected(self) -> Seq<UnicodeRange> {
        seq![self]
    }

    fn map_collect(self) -> (r: Vec<UnicodeRange>) {
        let mut v: Vec<UnicodeRange> = Vec::new();
        v.push(self);
        proof {
            assert(v@ =~= seq![self]);
        }
        v
    }
}

impl MapCollect<UnicodeRange> for (UnicodeRange, UnicodeRange) {
    open spec fn collected(self) -> Seq<UnicodeRange> {
        seq![self.0, self.1]
    }

    fn map_collect(self) -> (r: Vec<UnicodeRange>) {
        let mut v: Vec<UnicodeRange> = Vec::new();
        v.push(self.0);
        v.push(self.1);
        proof {
            assert(v@ =~= seq![self.0, self.1]);
        }
        v
    }
}

impl MapCollect<Href> for Href {
    open spec fn collected(self) -> Seq<Href> {
        seq![self]
    }

    fn map_collect(self) -> (r: Vec<Href>) {
        let ghost me = self;
        let mut v: Vec<Href> = Vec::new();
        v.push(self);
        proof {
            assert(v@ =~= seq![me]);
        }
        v
    }
}

} // verus!
