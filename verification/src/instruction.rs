//! The instruction log model: typed instructions, their mathematical view,
//! and the bracket-balance discipline over scope markers.

use vstd::prelude::*;

use crate::animatable::AnimatableV;
use crate::text::{Font, FontV, Text, TextLayout, TextLayoutV, TextSpan, TextSpanV, TextV};

verus! {

/// A structured attribute-bearing value: the payload of a `ScopeOpen`
/// instruction. One variant per element of the catalogue.
#[derive(Debug, Clone, PartialEq)]
pub enum ScopeValue {
    Font(Font),
    TextLayout(TextLayout),
    Text(Text),
    TextSpan(TextSpan),
}

/// The model of a `ScopeValue`.
pub enum ScopeValueV {
    Font(FontV),
    TextLayout(TextLayoutV),
    Text(TextV),
    TextSpan(TextSpanV),
}

impl View for ScopeValue {
    type V = ScopeValueV;

    open spec fn view(&self) -> ScopeValueV {
        match self {
            ScopeValue::Font(f) => ScopeValueV::Font(f@),
            ScopeValue::TextLayout(l) => ScopeValueV::TextLayout(l@),
            ScopeValue::Text(t) => ScopeValueV::Text(t@),
            ScopeValue::TextSpan(s) => ScopeValueV::TextSpan(s@),
        }
    }
}

impl ScopeValue {
    /// An owned copy holding the same value.
    pub fn duplicate(&self) -> (r: Self)
        ensures
            r == *self,
    {
        match self {
            ScopeValue::Font(f) => ScopeValue::Font(f.duplicate()),
            ScopeValue::TextLayout(l) => ScopeValue::TextLayout(l.duplicate()),
            ScopeValue::Text(t) => ScopeValue::Text(t.duplicate()),
            ScopeValue::TextSpan(s) => ScopeValue::TextSpan(s.duplicate()),
        }
    }
}

/// One typed instruction of the log.
#[derive(Debug, Clone, PartialEq)]
pub enum Instr {
    /// A leaf of character content.
    Leaf(String),
    /// A leaf referencing the named animation register.
    AnimatedRef(String),
    /// Open an attribute or container scope carrying `ScopeValue`.
    ScopeOpen(ScopeValue),
    /// Close the given number of innermost open scopes.
    ScopeClose(usize),
}

impl Instr {
    /// An owned copy holding the same instruction.
    pub fn duplicate(&self) -> (r: Self)
        ensures
            r == *self,
    {
        match self {
            Instr::Leaf(s) => Instr::Leaf(s.clone()),
            Instr::AnimatedRef(n) => Instr::AnimatedRef(n.clone()),
            Instr::ScopeOpen(v) => Instr::ScopeOpen(v.duplicate()),
            Instr::ScopeClose(n) => Instr::ScopeClose(*n),
        }
    }
}

/// The model of an instruction.
pub enum InstrV {
    Leaf(Seq<char>),
    AnimatedRef(Seq<char>),
    ScopeOpen(ScopeValueV),
    ScopeClose(int),
}

impl View for Instr {
    type V = InstrV;

    open spec fn view(&self) -> InstrV {
        match self {
            Instr::Leaf(s) => InstrV::Leaf(s@),
            Instr::AnimatedRef(n) => InstrV::AnimatedRef(n@),
            Instr::ScopeOpen(v) => InstrV::ScopeOpen(v@),
            Instr::ScopeClose(n) => InstrV::ScopeClose(*n as int),
        }
    }
}

/// The model of a whole instruction vector.
pub open spec fn log_view(s: Seq<Instr>) -> Seq<InstrV> {
    s.map_values(|i: Instr| i@)
}

/// How one instruction moves the running open/close counter: `ScopeOpen`
/// counts +1, `ScopeClose(n)` counts -n, leaves count 0.
pub open spec fn delta(i: InstrV) -> int {
    match i {
        InstrV::ScopeOpen(_) => 1,
        InstrV::ScopeClose(n) => -n,
        _ => 0,
    }
}

/// The open/close counter after running a whole sequence.
pub open spec fn depth(s: Seq<InstrV>) -> int
    decreases s.len(),
{
    if s.len() == 0 {
        0
    } else {
        depth(s.drop_last()) + delta(s.last())
    }
}

/// The running counter never goes negative over any prefix.
pub open spec fn prefixes_nonneg(s: Seq<InstrV>) -> bool {
    forall|k: int| 0 <= k <= s.len() ==> depth(#[trigger] s.take(k)) >= 0
}

/// The bracket-balance invariant of a complete authoring pass: the running
/// open/close counter never goes negative and ends at zero.
pub open spec fn balanced(s: Seq<InstrV>) -> bool {
    prefixes_nonneg(s) && depth(s) == 0
}

/// The `ScopeOpen` instructions for a sequence of scope values, in order.
pub open spec fn open_instrs(vs: Seq<ScopeValueV>) -> Seq<InstrV> {
    vs.map_values(|v: ScopeValueV| InstrV::ScopeOpen(v))
}

/// `n` single-level `ScopeClose` instructions: the standard wrappers always
/// close exactly one level at a time.
pub open spec fn close_instrs(n: nat) -> Seq<InstrV> {
    Seq::new(n, |i: int| InstrV::ScopeClose(1))
}

/// The empty log is balanced: a fresh authoring pass starts from it.
pub proof fn lemma_empty_balanced()
    ensures
        balanced(Seq::<InstrV>::empty()),
{
    assert forall|k: int| 0 <= k <= Seq::<InstrV>::empty().len() implies depth(
        #[trigger] Seq::<InstrV>::empty().take(k),
    ) >= 0 by {
        assert(Seq::<InstrV>::empty().take(k) =~= Seq::<InstrV>::empty());
    }
}

/// The counter is additive over concatenation.
pub proof fn lemma_depth_concat(a: Seq<InstrV>, b: Seq<InstrV>)
    ensures
        depth(a + b) == depth(a) + depth(b),
    decreases b.len(),
{
    if b.len() == 0 {
        assert(a + b =~= a);
    } else {
        assert((a + b).drop_last() =~= a + b.drop_last());
        lemma_depth_concat(a, b.drop_last());
    }
}

/// Appending one instruction is concatenating a one-instruction sequence.
pub proof fn lemma_push_is_concat(s: Seq<InstrV>, i: InstrV)
    ensures
        s.push(i) == s + seq![i],
{
    assert(s.push(i) =~= s + seq![i]);
}

/// The counter of a one-instruction sequence is that instruction's delta.
pub proof fn lemma_depth_singleton(i: InstrV)
    ensures
        depth(seq![i]) == delta(i),
{
    assert(seq![i].drop_last() =~= Seq::<InstrV>::empty());
    assert(depth(Seq::<InstrV>::empty()) == 0);
    assert(seq![i].last() == i);
}

/// Two balanced sequences concatenate to a balanced sequence.
pub proof fn lemma_balanced_concat(a: Seq<InstrV>, b: Seq<InstrV>)
    requires
        balanced(a),
        balanced(b),
    ensures
        balanced(a + b),
{
    lemma_depth_concat(a, b);
    assert forall|k: int| 0 <= k <= (a + b).len() implies depth(#[trigger] (a + b).take(k)) >= 0 by {
        if k <= a.len() {
            assert((a + b).take(k) =~= a.take(k));
        } else {
            assert((a + b).take(k) =~= a + b.take(k - a.len()));
            lemma_depth_concat(a, b.take(k - a.len()));
        }
    }
}

/// A sequence of counter-neutral instructions is balanced; in particular a
/// single leaf is.
pub proof fn lemma_flat_balanced(i: InstrV)
    requires
        delta(i) == 0,
    ensures
        balanced(seq![i]),
{
    let s = seq![i];
    lemma_depth_singleton(i);
    assert forall|k: int| 0 <= k <= s.len() implies depth(#[trigger] s.take(k)) >= 0 by {
        if k == 0 {
            assert(s.take(k) =~= Seq::<InstrV>::empty());
        } else {
            assert(s.take(k) =~= s);
        }
    }
}

/// Bracketing a balanced sequence in one matched open/close pair keeps it
/// balanced.
pub proof fn lemma_balanced_wrap(v: ScopeValueV, inner: Seq<InstrV>)
    requires
        balanced(inner),
    ensures
        balanced(seq![InstrV::ScopeOpen(v)] + inner + seq![InstrV::ScopeClose(1)]),
{
    let open = seq![InstrV::ScopeOpen(v)];
    let close = seq![InstrV::ScopeClose(1)];
    let s = open + inner + close;
    lemma_depth_singleton(InstrV::ScopeOpen(v));
    lemma_depth_singleton(InstrV::ScopeClose(1));
    assert(depth(open) == 1);
    assert(depth(close) == -1);
    lemma_depth_concat(open, inner);
    lemma_depth_concat(open + inner, close);
    assert(depth(s) == 0);
    assert forall|k: int| 0 <= k <= s.len() implies depth(#[trigger] s.take(k)) >= 0 by {
        if k == 0 {
            assert(s.take(k) =~= Seq::<InstrV>::empty());
        } else if k <= 1 + inner.len() {
            assert(s.take(k) =~= open + inner.take(k - 1));
            lemma_depth_concat(open, inner.take(k - 1));
            assert(depth(inner.take(k - 1)) >= 0);
        } else {
            assert(s.take(k) =~= s);
        }
    }
}

/// Bracketing a balanced sequence in any run of scopes, each closed one level
/// at a time, keeps it balanced.
pub proof fn lemma_balanced_wrap_many(vs: Seq<ScopeValueV>, inner: Seq<InstrV>)
    requires
        balanced(inner),
    ensures
        balanced(open_instrs(vs) + inner + close_instrs(vs.len())),
    decreases vs.len(),
{
    if vs.len() == 0 {
        assert(open_instrs(vs) + inner + close_instrs(vs.len()) =~= inner);
    } else {
        let rest = vs.drop_first();
        lemma_balanced_wrap_many(rest, inner);
        let mid = open_instrs(rest) + inner + close_instrs(rest.len());
        lemma_balanced_wrap(vs.first(), mid);
        assert(open_instrs(vs) + inner + close_instrs(vs.len()) =~= seq![
            InstrV::ScopeOpen(vs.first()),
        ] + mid + seq![InstrV::ScopeClose(1)]);
    }
}

/// Extending a prefix by one instruction moves the counter by its delta.
pub proof fn lemma_depth_take_step(s: Seq<InstrV>, i: int)
    requires
        0 <= i < s.len(),
    ensures
        depth(s.take(i + 1)) == depth(s.take(i)) + delta(s[i]),
{
    assert(s.take(i + 1).drop_last() =~= s.take(i));
    assert(s.take(i + 1).last() == s[i]);
}

/// Walking one instruction forward through a suffix.
pub proof fn lemma_skip_step(s: Seq<InstrV>, i: int)
    requires
        0 <= i < s.len(),
    ensures
        s.skip(i).len() == s.len() - i,
        s.skip(i).first() == s[i],
        s.skip(i).drop_first() == s.skip(i + 1),
{
    assert(s.skip(i).drop_first() =~= s.skip(i + 1));
}

} // verus!
