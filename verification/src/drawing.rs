//! The drawable and scoping capabilities: how a nested drawing description
//! linearizes depth-first into the instruction log.

use vstd::prelude::*;

use crate::generator::Generator;
use crate::instruction::{
    balanced, close_instrs, lemma_balanced_concat, lemma_balanced_wrap, lemma_balanced_wrap_many,
    lemma_empty_balanced, lemma_flat_balanced, lemma_push_is_concat, open_instrs, Instr, InstrV,
    ScopeValueV,
};

verus! {

/// A drawable description: consumed exactly once, it appends its
/// instructions to a generator's log. `instructions` is the mathematical
/// statement of what one drawing pass records, and every description is
/// scope-balanced by construction.
pub trait Graphic: Sized {
    /// The instruction sequence this description linearizes to.
    spec fn instructions(self) -> Seq<InstrV>;

    /// The running open/close counter over `instructions` never goes
    /// negative and ends at zero.
    proof fn instructions_balanced(self)
        ensures
            balanced(self.instructions()),
    ;

    /// Consume self and append exactly `instructions` to the log.
    fn draw(self, g: &mut Generator)
        ensures
            final(g)@ == old(g)@ + self.instructions(),
    ;
}

impl Graphic for String {
    open spec fn instructions(self) -> Seq<InstrV> {
        seq![InstrV::Leaf(self@)]
    }

    proof fn instructions_balanced(self) {
        lemma_flat_balanced(InstrV::Leaf(self@));
    }

    fn draw(self, g: &mut Generator) {
        let ghost pre = g@;
        let ghost iv = InstrV::Leaf(self@);
        g.push(Instr::Leaf(self));
        proof {
            lemma_push_is_concat(pre, iv);
        }
    }
}

impl<'a> Graphic for &'a str {
    open spec fn instructions(self) -> Seq<InstrV> {
        seq![InstrV::Leaf(self@)]
    }

    proof fn instructions_balanced(self) {
        lemma_flat_balanced(InstrV::Leaf(self@));
    }

    fn draw(self, g: &mut Generator) {
        let ghost pre = g@;
        let ghost iv = InstrV::Leaf(self@);
        g.push(Instr::Leaf(self.to_owned()));
        proof {
            lemma_push_is_concat(pre, iv);
        }
    }
}

/// A leaf referencing the named animation register; see [`animated`].
#[derive(Debug, Clone, PartialEq)]
pub struct AnimatedRegister {
    /// The register name, resolved by the backend at compile time.
    pub name: String,
}

impl Graphic for AnimatedRegister {
    open spec fn instructions(self) -> Seq<InstrV> {
        seq![InstrV::AnimatedRef(self.name@)]
    }

    proof fn instructions_balanced(self) {
        lemma_flat_balanced(InstrV::AnimatedRef(self.name@));
    }

    fn draw(self, g: &mut Generator) {
        let ghost pre = g@;
        let ghost iv = InstrV::AnimatedRef(self.name@);
        g.push(Instr::AnimatedRef(self.name));
        proof {
            lemma_push_is_concat(pre, iv);
        }
    }
}

/// A graphic element that records one reference to the animation register
/// called `name`, to be fed by a running animation rather than inline data.
pub fn animated(name: &str) -> (r: AnimatedRegister)
    ensures
        r.name@ == name@,
{
    AnimatedRegister { name: name.to_owned() }
}

/// A scope attribute: a value that brackets inner content between its
/// `ScopeOpen` instructions and one matching single-level close per scope.
pub trait Appliable: Sized {
    /// The scope values this attribute opens, outermost first.
    spec fn scope_values(self) -> Seq<ScopeValueV>;

    /// Draw `content` bracketed by this attribute's scopes: all opens in
    /// order, the content, then one single-level close per scope.
    fn draw_applied<C: Graphic>(self, content: C, g: &mut Generator)
        ensures
            final(g)@ == old(g)@ + open_instrs(self.scope_values()) + content.instructions()
                + close_instrs(self.scope_values().len()),
    ;

    /// Wrap `graphic` in this attribute's scopes.
    fn apply<C: Graphic>(self, graphic: C) -> (r: Applied<Self, C>)
        ensures
            r == (Applied { attrs: self, content: graphic }),
    {
        Applied { attrs: self, content: graphic }
    }
}

/// The result of applying scope attributes to a target element.
#[derive(Debug, Clone, PartialEq)]
pub struct Applied<A, C> {
    /// The scope attributes, opened outermost first.
    pub attrs: A,
    /// The bracketed inner element.
    pub content: C,
}

impl<A: Appliable, C: Graphic> Graphic for Applied<A, C> {
    open spec fn instructions(self) -> Seq<InstrV> {
        open_instrs(self.attrs.scope_values()) + self.content.instructions() + close_instrs(
            self.attrs.scope_values().len(),
        )
    }

    proof fn instructions_balanced(self) {
        self.content.instructions_balanced();
        lemma_balanced_wrap_many(self.attrs.scope_values(), self.content.instructions());
    }

    fn draw(self, g: &mut Generator) {
        let Applied { attrs, content } = self;
        attrs.draw_applied(content, g);
    }
}

/// Apply scope attributes to a `target` element. For attributes (A, B, C)
/// the scopes nest outer-to-inner in listed order.
pub fn apply<A: Appliable, C: Graphic>(attrs: A, target: C) -> (r: Applied<A, C>)
    ensures
        r == (Applied { attrs, content: target }),
{
    attrs.apply(target)
}

/// A graphic element that may contain children: it brackets them in one
/// matched open/close pair representing containment, kept distinct from
/// attribute scoping so the two cannot be interchanged by mistake.
pub trait WithContent: Sized {
    /// The scope value that opens this container.
    spec fn container_value(self) -> ScopeValueV;

    /// Record this container's `ScopeOpen` instruction.
    fn open_scope(self, g: &mut Generator)
        ensures
            final(g)@ == old(g)@.push(InstrV::ScopeOpen(self.container_value())),
    ;

    /// Put `graphic` inside this container.
    fn with_content<C: Graphic>(self, graphic: C) -> (r: Contained<Self, C>)
        ensures
            r == (Contained { parent: self, content: graphic }),
    {
        Contained { parent: self, content: graphic }
    }
}

/// A container element together with its children.
#[derive(Debug, Clone, PartialEq)]
pub struct Contained<P, C> {
    /// The containing element.
    pub parent: P,
    /// The contained children.
    pub content: C,
}

impl<P: WithContent, C: Graphic> Graphic for Contained<P, C> {
    open spec fn instructions(self) -> Seq<InstrV> {
        seq![InstrV::ScopeOpen(self.parent.container_value())] + self.content.instructions()
            + seq![InstrV::ScopeClose(1)]
    }

    proof fn instructions_balanced(self) {
        self.content.instructions_balanced();
        lemma_balanced_wrap(self.parent.container_value(), self.content.instructions());
    }

    fn draw(self, g: &mut Generator) {
        let Contained { parent, content } = self;
        let ghost cv = parent.container_value();
        let ghost ci = content.instructions();
        let ghost pre = g@;
        parent.open_scope(g);
        content.draw(g);
        g.pop(1);
        proof {
            assert(g@ =~= pre + (seq![InstrV::ScopeOpen(cv)] + ci + seq![
                InstrV::ScopeClose(1),
            ]));
        }
    }
}

/// Draw `content` as the children of the `parent` element.
pub fn with<P: WithContent, C: Graphic>(parent: P, content: C) -> (r: Contained<P, C>)
    ensures
        r == (Contained { parent, content }),
{
    parent.with_content(content)
}

impl<A0: Graphic, A1: Graphic> Graphic for (A0, A1) {
    open spec fn instructions(self) -> Seq<InstrV> {
        self.0.instructions() + self.1.instructions()
    }

    proof fn instructions_balanced(self) {
        self.0.instructions_balanced();
        self.1.instructions_balanced();
        lemma_balanced_concat(self.0.instructions(), self.1.instructions());
    }

    fn draw(self, g: &mut Generator) {
        let (a0, a1) = self;
        let ghost i0 = a0.instructions();
        let ghost i1 = a1.instructions();
        let ghost pre = g@;
        a0.draw(g);
        a1.draw(g);
        proof {
            assert(g@ =~= pre + (i0 + i1));
        }
    }
}

impl<A0: Graphic, A1: Graphic, A2: Graphic> Graphic for (A0, A1, A2) {
    open spec fn instructions(self) -> Seq<InstrV> {
        self.0.instructions() + self.1.instructions() + self.2.instructions()
    }

    proof fn instructions_balanced(self) {
        self.0.instructions_balanced();
        self.1.instructions_balanced();
        self.2.instructions_balanced();
        lemma_balanced_concat(self.0.instructions(), self.1.instructions());
        lemma_balanced_concat(
            self.0.instructions() + self.1.instructions(),
            self.2.instructions(),
        );
    }

    fn draw(self, g: &mut Generator) {
        let (a0, a1, a2) = self;
        let ghost i0 = a0.instructions();
        let ghost i1 = a1.instructions();
        let ghost i2 = a2.instructions();
        let ghost pre = g@;
        a0.draw(g);
        a1.draw(g);
        a2.draw(g);
        proof {
            assert(g@ =~= pre + (i0 + i1 + i2));
        }
    }
}

impl<A0: Graphic, A1: Graphic, A2: Graphic, A3: Graphic> Graphic for (A0, A1, A2, A3) {
    open spec fn instructions(self) -> Seq<InstrV> {
        self.0.instructions() + self.1.instructions() + self.2.instructions()
            + self.3.instructions()
    }

    proof fn instructions_balanced(self) {
        self.0.instructions_balanced();
        self.1.instructions_balanced();
        self.2.instructions_balanced();
        self.3.instructions_balanced();
        lemma_balanced_concat(self.0.instructions(), self.1.instructions());
        lemma_balanced_concat(
            self.0.instructions() + self.1.instructions(),
            self.2.instructions(),
        );
        lemma_balanced_concat(
            self.0.instructions() + self.1.instructions() + self.2.instructions(),
            self.3.instructions(),
        );
    }

    fn draw(self, g: &mut Generator) {
        let (a0, a1, a2, a3) = self;
        let ghost i0 = a0.instructions();
        let ghost i1 = a1.instructions();
        let ghost i2 = a2.instructions();
        let ghost i3 = a3.instructions();
        let ghost pre = g@;
        a0.draw(g);
        a1.draw(g);
        a2.draw(g);
        a3.draw(g);
        proof {
            assert(g@ =~= pre + (i0 + i1 + i2 + i3));
        }
    }
}

impl<A0: Graphic, A1: Graphic, A2: Graphic, A3: Graphic, A4: Graphic> Graphic for (
    A0,
    A1,
    A2,
    A3,
    A4,
) {
    open spec fn instructions(self) -> Seq<InstrV> {
        self.0.instructions() + self.1.instructions() + self.2.instructions()
            + self.3.instructions() + self.4.instructions()
    }

    proof fn instructions_balanced(self) {
        self.0.instructions_balanced();
        self.1.instructions_balanced();
        self.2.instructions_balanced();
        self.3.instructions_balanced();
        self.4.instructions_balanced();
        lemma_balanced_concat(self.0.instructions(), self.1.instructions());
        lemma_balanced_concat(
            self.0.instructions() + self.1.instructions(),
            self.2.instructions(),
        );
        lemma_balanced_concat(
            self.0.instructions() + self.1.instructions() + self.2.instructions(),
            self.3.instructions(),
        );
        lemma_balanced_concat(
            self.0.instructions() + self.1.instructions() + self.2.instructions()
                + self.3.instructions(),
            self.4.instructions(),
        );
    }

    fn draw(self, g: &mut Generator) {
        let (a0, a1, a2, a3, a4) = self;
        let ghost i0 = a0.instructions();
        let ghost i1 = a1.instructions();
        let ghost i2 = a2.instructions();
        let ghost i3 = a3.instructions();
        let ghost i4 = a4.instructions();
        let ghost pre = g@;
        a0.draw(g);
        a1.draw(g);
        a2.draw(g);
        a3.draw(g);
        a4.draw(g);
        proof {
            assert(g@ =~= pre + (i0 + i1 + i2 + i3 + i4));
        }
    }
}

impl<A0: Graphic, A1: Graphic, A2: Graphic, A3: Graphic, A4: Graphic, A5: Graphic> Graphic for (
    A0,
    A1,
    A2,
    A3,
    A4,
    A5,
) {
    open spec fn instructions(self) -> Seq<InstrV> {
        self.0.instructions() + self.1.instructions() + self.2.instructions() + self.3.instructions() + self.4.instructions() + self.5.instructions()
    }

    proof fn instructions_balanced(self) {
        self.0.instructions_balanced();
        self.1.instructions_balanced();
        self.2.instructions_balanced();
        self.3.instructions_balanced();
        self.4.instructions_balanced();
        self.5.instructions_balanced();
        lemma_balanced_concat(
            self.0.instructions(),
            self.1.instructions(),
        );
        lemma_balanced_concat(
            self.0.instructions() + self.1.instructions(),
            self.2.instructions(),
        );
        lemma_balanced_concat(
            self.0.instructions() + self.1.instructions() + self.2.instructions(),
            self.3.instructions(),
        );
        lemma_balanced_concat(
            self.0.instructions() + self.1.instructions() + self.2.instructions() + self.3.instructions(),
            self.4.instructions(),
        );
        lemma_balanced_concat(
            self.0.instructions() + self.1.instructions() + self.2.instructions() + self.3.instructions() + self.4.instructions(),
            self.5.instructions(),
        );
    }

    fn draw(self, g: &mut Generator) {
        let (a0, a1, a2, a3, a4, a5) = self;
        let ghost i0 = a0.instructions();
        let ghost i1 = a1.instructions();
        let ghost i2 = a2.instructions();
        let ghost i3 = a3.instructions();
        let ghost i4 = a4.instructions();
        let ghost i5 = a5.instructions();
        let ghost pre = g@;
        a0.draw(g);
        a1.draw(g);
        a2.draw(g);
        a3.draw(g);
        a4.draw(g);
        a5.draw(g);
        proof {
            assert(g@ =~= pre + (i0 + i1 + i2 + i3 + i4 + i5));
        }
    }
}

impl<A0: Graphic, A1: Graphic, A2: Graphic, A3: Graphic, A4: Graphic, A5: Graphic, A6: Graphic> Graphic for (
    A0,
    A1,
    A2,
    A3,
    A4,
    A5,
    A6,
) {
    open spec fn instructions(self) -> Seq<InstrV> {
        self.0.instructions() + self.1.instructions() + self.2.instructions() + self.3.instructions() + self.4.instructions() + self.5.instructions() + self.6.instructions()
    }

    proof fn instructions_balanced(self) {
        self.0.instructions_balanced();
        self.1.instructions_balanced();
        self.2.instructions_balanced();
        self.3.instructions_balanced();
        self.4.instructions_balanced();
        self.5.instructions_balanced();
        self.6.instructions_balanced();
        lemma_balanced_concat(
            self.0.instructions(),
            self.1.instructions(),
        );
        lemma_balanced_concat(
            self.0.instructions() + self.1.instructions(),
            self.2.instructions(),
        );
        lemma_balanced_concat(
            self.0.instructions() + self.1.instructions() + self.2.instructions(),
            self.3.instructions(),
        );
        lemma_balanced_concat(
            self.0.instructions() + self.1.instructions() + self.2.instructions() + self.3.instructions(),
            self.4.instructions(),
        );
        lemma_balanced_concat(
            self.0.instructions() + self.1.instructions() + self.2.instructions() + self.3.instructions() + self.4.instructions(),
            self.5.instructions(),
        );
        lemma_balanced_concat(
            self.0.instructions() + self.1.instructions() + self.2.instructions() + self.3.instructions() + self.4.instructions() + self.5.instructions(),
            self.6.instructions(),
        );
    }

    fn draw(self, g: &mut Generator) {
        let (a0, a1, a2, a3, a4, a5, a6) = self;
        let ghost i0 = a0.instructions();
        let ghost i1 = a1.instructions();
        let ghost i2 = a2.instructions();
        let ghost i3 = a3.instructions();
        let ghost i4 = a4.instructions();
        let ghost i5 = a5.instructions();
        let ghost i6 = a6.instructions();
        let ghost pre = g@;
        a0.draw(g);
        a1.draw(g);
        a2.draw(g);
        a3.draw(g);
        a4.draw(g);
        a5.draw(g);
        a6.draw(g);
        proof {
            assert(g@ =~= pre + (i0 + i1 + i2 + i3 + i4 + i5 + i6));
        }
    }
}

impl<A0: Graphic, A1: Graphic, A2: Graphic, A3: Graphic, A4: Graphic, A5: Graphic, A6: Graphic, A7: Graphic> Graphic for (
    A0,
    A1,
    A2,
    A3,
    A4,
    A5,
    A6,
    A7,
) {
    open spec fn instructions(self) -> Seq<InstrV> {
        self.0.instructions() + self.1.instructions() + self.2.instructions() + self.3.instructions() + self.4.instructions() + self.5.instructions() + self.6.instructions() + self.7.instructions()
    }

    proof fn instructions_balanced(self) {
        self.0.instructions_balanced();
        self.1.instructions_balanced();
        self.2.instructions_balanced();
        self.3.instructions_balanced();
        self.4.instructions_balanced();
        self.5.instructions_balanced();
        self.6.instructions_balanced();
        self.7.instructions_balanced();
        lemma_balanced_concat(
            self.0.instructions(),
            self.1.instructions(),
        );
        lemma_balanced_concat(
            self.0.instructions() + self.1.instructions(),
            self.2.instructions(),
        );
        lemma_balanced_concat(
            self.0.instructions() + self.1.instructions() + self.2.instructions(),
            self.3.instructions(),
        );
        lemma_balanced_concat(
            self.0.instructions() + self.1.instructions() + self.2.instructions() + self.3.instructions(),
            self.4.instructions(),
        );
        lemma_balanced_concat(
            self.0.instructions() + self.1.instructions() + self.2.instructions() + self.3.instructions() + self.4.instructions(),
            self.5.instructions(),
        );
        lemma_balanced_concat(
            self.0.instructions() + self.1.instructions() + self.2.instructions() + self.3.instructions() + self.4.instructions() + self.5.instructions(),
            self.6.instructions(),
        );
        lemma_balanced_concat(
            self.0.instructions() + self.1.instructions() + self.2.instructions() + self.3.instructions() + self.4.instructions() + self.5.instructions() + self.6.instructions(),
            self.7.instructions(),
        );
    }

    fn draw(self, g: &mut Generator) {
        let (a0, a1, a2, a3, a4, a5, a6, a7) = self;
        let ghost i0 = a0.instructions();
        let ghost i1 = a1.instructions();
        let ghost i2 = a2.instructions();
        let ghost i3 = a3.instructions();
        let ghost i4 = a4.instructions();
        let ghost i5 = a5.instructions();
        let ghost i6 = a6.instructions();
        let ghost i7 = a7.instructions();
        let ghost pre = g@;
        a0.draw(g);
        a1.draw(g);
        a2.draw(g);
        a3.draw(g);
        a4.draw(g);
        a5.draw(g);
        a6.draw(g);
        a7.draw(g);
        proof {
            assert(g@ =~= pre + (i0 + i1 + i2 + i3 + i4 + i5 + i6 + i7));
        }
    }
}

impl<A0: Appliable, A1: Appliable> Appliable for (A0, A1) {
    open spec fn scope_values(self) -> Seq<ScopeValueV> {
        self.0.scope_values() + self.1.scope_values()
    }

    fn draw_applied<C: Graphic>(self, content: C, g: &mut Generator) {
        let (a0, a1) = self;
        let ghost sv0 = a0.scope_values();
        let ghost sv1 = a1.scope_values();
        let ghost ci = content.instructions();
        let ghost pre = g@;
        let inner = Applied { attrs: a1, content };
        a0.draw_applied(inner, g);
        proof {
            assert(g@ =~= pre + open_instrs(sv0 + sv1) + ci + close_instrs((sv0 + sv1).len()));
        }
    }
}

impl<A0: Appliable, A1: Appliable, A2: Appliable> Appliable for (A0, A1, A2) {
    open spec fn scope_values(self) -> Seq<ScopeValueV> {
        self.0.scope_values() + self.1.scope_values() + self.2.scope_values()
    }

    fn draw_applied<C: Graphic>(self, content: C, g: &mut Generator) {
        let (a0, a1, a2) = self;
        let ghost sv0 = a0.scope_values();
        let ghost sv1 = a1.scope_values();
        let ghost sv2 = a2.scope_values();
        let ghost ci = content.instructions();
        let ghost pre = g@;
        let inner = Applied { attrs: (a1, a2), content };
        a0.draw_applied(inner, g);
        proof {
            assert(g@ =~= pre + open_instrs(sv0 + sv1 + sv2) + ci + close_instrs(
                (sv0 + sv1 + sv2).len(),
            ));
        }
    }
}

impl<A0: Appliable, A1: Appliable, A2: Appliable, A3: Appliable> Appliable for (A0, A1, A2, A3) {
    open spec fn scope_values(self) -> Seq<ScopeValueV> {
        self.0.scope_values() + self.1.scope_values() + self.2.scope_values()
            + self.3.scope_values()
    }

    fn draw_applied<C: Graphic>(self, content: C, g: &mut Generator) {
        let (a0, a1, a2, a3) = self;
        let ghost sv0 = a0.scope_values();
        let ghost sv1 = a1.scope_values();
        let ghost sv2 = a2.scope_values();
        let ghost sv3 = a3.scope_values();
        let ghost ci = content.instructions();
        let ghost pre = g@;
        let inner = Applied { attrs: (a1, a2, a3), content };
        a0.draw_applied(inner, g);
        proof {
            assert(g@ =~= pre + open_instrs(sv0 + sv1 + sv2 + sv3) + ci + close_instrs(
                (sv0 + sv1 + sv2 + sv3).len(),
            ));
        }
    }
}

/// Scope balance: over the log of any description drawn into a fresh
/// generator, the running open/close counter never goes negative and ends
/// at zero.
pub proof fn lemma_scope_balance<T: Graphic>(t: T, log: Seq<InstrV>)
    requires
        log == Seq::<InstrV>::empty() + t.instructions(),
    ensures
        balanced(log),
{
    t.instructions_balanced();
    lemma_empty_balanced();
    lemma_balanced_concat(Seq::<InstrV>::empty(), t.instructions());
}

/// Scope balance is kept across authoring passes: whatever description
/// extends a log whose counter is balanced, the extended log's running
/// open/close counter still never goes negative and still ends at zero.
pub proof fn lemma_authored_log_balanced<T: Graphic>(t: T, log0: Seq<InstrV>, log1: Seq<InstrV>)
    requires
        balanced(log0),
        log1 == log0 + t.instructions(),
    ensures
        balanced(log1),
{
    t.instructions_balanced();
    lemma_balanced_concat(log0, t.instructions());
}

/// Draw order: drawables combined without scoping linearize to the
/// concatenation of their individually-drawn logs, in original order.
pub proof fn lemma_draw_order<A: Graphic, B: Graphic>(a: A, b: B)
    ensures
        (a, b).instructions() == a.instructions() + b.instructions(),
{
}

/// Determinism: drawing equal descriptions records equal logs, so the same
/// description drawn into two fresh generators yields identical logs.
pub proof fn lemma_draw_deterministic<T: Graphic>(t1: T, t2: T, log1: Seq<InstrV>, log2: Seq<InstrV>)
    requires
        t1 == t2,
        log1 == t1.instructions(),
        log2 == t2.instructions(),
    ensures
        log1 == log2,
{
}

} // verus!
