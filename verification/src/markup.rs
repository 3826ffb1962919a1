//! The reference backend: compiles a finished log into a self-contained
//! program after checking scope balance and register names, then serializes
//! it into a markup document in one forward pass that reconstructs the
//! nesting from the scope markers. Animation references are deferred: the
//! serializer emits a `${name}` placeholder for a later resolver.

use vstd::prelude::*;
use vstd::string::StringExecFns;

use crate::animatable::{opt_view, Animatable, AnimatableV};
use crate::device::{check_structure, Device, Program};
use crate::errors::Error;
use crate::instruction::{balanced, lemma_skip_step, log_view, Instr, InstrV, ScopeValue,
    ScopeValueV};

verus! {

/// An optional attribute is acceptable when it is absent, constant, or an
/// animation reference with a non-empty register name.
pub open spec fn attr_ok(a: Option<AnimatableV>) -> bool {
    match a {
        Some(AnimatableV::Animated(n)) => n.len() > 0,
        _ => true,
    }
}

/// Every register name inside a scope payload is non-empty.
pub open spec fn scope_value_ok(v: ScopeValueV) -> bool {
    match v {
        ScopeValueV::Font(f) => attr_ok(f.family) && attr_ok(f.style),
        ScopeValueV::TextLayout(l) => attr_ok(l.anchor),
        ScopeValueV::Text(t) => attr_ok(t.lang),
        ScopeValueV::TextSpan(s) => attr_ok(s.lang),
    }
}

/// Every register name an instruction mentions is non-empty.
pub open spec fn instr_ok(i: InstrV) -> bool {
    match i {
        InstrV::AnimatedRef(n) => n.len() > 0,
        InstrV::ScopeOpen(v) => scope_value_ok(v),
        _ => true,
    }
}

/// Every register name in the log is non-empty: the name validity deferred
/// from authoring to compile time.
pub open spec fn names_ok(s: Seq<InstrV>) -> bool {
    forall|k: int| 0 <= k < s.len() ==> instr_ok(#[trigger] s[k])
}

/// The register name that makes an optional attribute unacceptable, if any.
fn check_attr(a: &Option<Animatable<String>>) -> (r: Option<String>)
    ensures
        (r is None) == attr_ok(opt_view(*a)),
        r matches Some(n) ==> n@.len() == 0,
{
    match a {
        Some(Animatable::Animated(n)) => {
            if n.as_str().is_empty() {
                Some(n.clone())
            } else {
                None
            }
        },
        _ => None,
    }
}

/// The register name that makes a scope payload unacceptable, if any.
fn check_scope_value(v: &ScopeValue) -> (r: Option<String>)
    ensures
        (r is None) == scope_value_ok(v@),
        r matches Some(n) ==> n@.len() == 0,
{
    match v {
        ScopeValue::Font(f) => {
            match check_attr(&f.family) {
                Some(n) => Some(n),
                None => check_attr(&f.style),
            }
        },
        ScopeValue::TextLayout(l) => check_attr(&l.anchor),
        ScopeValue::Text(t) => check_attr(&t.lang),
        ScopeValue::TextSpan(s) => check_attr(&s.lang),
    }
}

/// The register name that makes an instruction unacceptable, if any.
fn check_instr(i: &Instr) -> (r: Option<String>)
    ensures
        (r is None) == instr_ok(i@),
        r matches Some(n) ==> n@.len() == 0,
{
    match i {
        Instr::AnimatedRef(n) => {
            if n.as_str().is_empty() {
                Some(n.clone())
            } else {
                None
            }
        },
        Instr::ScopeOpen(v) => check_scope_value(v),
        _ => None,
    }
}

/// The reference markup device.
#[derive(Debug, Clone, PartialEq)]
pub struct MarkupDevice {}

impl Default for MarkupDevice {
    /// A fresh device; compilation is reentrant per call, so one device may
    /// serve independent documents one after another.
    fn default() -> (r: Self)
        ensures
            r == (MarkupDevice {}),
    {
        MarkupDevice {}
    }
}

/// The structural artifact the markup device compiles a log into: the
/// validated instructions, owned, independent of the source log.
#[derive(Debug, Clone, PartialEq)]
pub struct MarkupProgram {
    instructions: Vec<Instr>,
}

impl View for MarkupProgram {
    type V = Seq<InstrV>;

    closed spec fn view(&self) -> Seq<InstrV> {
        log_view(self.instructions@)
    }
}

impl MarkupProgram {
    /// Borrow the validated instructions.
    pub fn instructions(&self) -> (r: &Vec<Instr>)
        ensures
            log_view(r@) == self@,
    {
        &self.instructions
    }
}

impl Device for MarkupDevice {
    type Prog = MarkupProgram;

    /// Compile a finished log: reject an imbalanced log as a structural
    /// error, reject a log with an empty register name as an unresolved
    /// reference, and otherwise produce a program holding exactly the log.
    fn compile(&mut self, instructions: &Vec<Instr>) -> (r: Result<MarkupProgram, Error>)
        ensures
            (r is Ok) == (balanced(log_view(instructions@)) && names_ok(log_view(instructions@))),
            r matches Ok(p) ==> p@ == log_view(instructions@),
            !balanced(log_view(instructions@)) ==> r == Err::<MarkupProgram, Error>(
                Error::StructuralError,
            ),
            balanced(log_view(instructions@)) && !names_ok(log_view(instructions@)) ==> (
            r matches Err(e) && e matches Error::UnresolvedReference(n) && n@.len() == 0),
    {
        let ghost s = log_view(instructions@);
        if !check_structure(instructions) {
            return Err(Error::StructuralError);
        }
        let mut i: usize = 0;
        while i < instructions.len()
            invariant
                0 <= i <= instructions.len(),
                s == log_view(instructions@),
                s.len() == instructions@.len(),
                balanced(s),
                forall|k: int| 0 <= k < i ==> instr_ok(#[trigger] s[k]),
            decreases instructions.len() - i,
        {
            proof {
                assert(s[i as int] == instructions@[i as int]@);
            }
            match check_instr(&instructions[i]) {
                Some(name) => {
                    proof {
                        assert(!instr_ok(s[i as int]));
                    }
                    return Err(Error::UnresolvedReference(name));
                },
                None => {},
            }
            i = i + 1;
        }
        let mut copied: Vec<Instr> = Vec::new();
        let mut j: usize = 0;
        while j < instructions.len()
            invariant
                0 <= j <= instructions.len(),
                copied@ == instructions@.take(j as int),
            decreases instructions.len() - j,
        {
            copied.push(instructions[j].duplicate());
            proof {
                assert(copied@ =~= instructions@.take(j + 1));
            }
            j = j + 1;
        }
        proof {
            assert(copied@ =~= instructions@);
        }
        Ok(MarkupProgram { instructions: copied })
    }
}

/// The markup tag a scope value serializes to.
pub open spec fn tag_of(v: ScopeValueV) -> Seq<char> {
    match v {
        ScopeValueV::Font(_) => "font"@,
        ScopeValueV::TextLayout(_) => "layout"@,
        ScopeValueV::Text(_) => "text"@,
        ScopeValueV::TextSpan(_) => "tspan"@,
    }
}

/// The text of one optional attribute: nothing when absent, ` name="value"`
/// for a constant, and ` name="${register}"` for a deferred animation
/// reference the later resolver understands.
pub open spec fn attr_text(name: Seq<char>, a: Option<AnimatableV>) -> Seq<char> {
    match a {
        None => Seq::empty(),
        Some(AnimatableV::Constant(s)) => " "@ + name + "=\""@ + s + "\""@,
        Some(AnimatableV::Animated(n)) => " "@ + name + "=\"${"@ + n + "}\""@,
    }
}

/// The attribute text of a scope value, in catalogue order.
pub open spec fn attrs_text(v: ScopeValueV) -> Seq<char> {
    match v {
        ScopeValueV::Font(f) => attr_text("family"@, f.family) + attr_text("style"@, f.style),
        ScopeValueV::TextLayout(l) => attr_text("anchor"@, l.anchor),
        ScopeValueV::Text(t) => attr_text("lang"@, t.lang),
        ScopeValueV::TextSpan(s) => attr_text("lang"@, s.lang),
    }
}

/// The opening tag of a scope value.
pub open spec fn open_text(v: ScopeValueV) -> Seq<char> {
    "<"@ + tag_of(v) + attrs_text(v) + ">"@
}

/// The closing tags for popping `n` levels off the tag stack, innermost
/// first; a stack that runs out simply stops producing text.
pub open spec fn closes_text(stack: Seq<Seq<char>>, n: int) -> Seq<char>
    decreases n,
{
    if n <= 0 || stack.len() == 0 {
        Seq::empty()
    } else {
        "</"@ + stack.last() + ">"@ + closes_text(stack.drop_last(), n - 1)
    }
}

/// The tag stack after popping `n` levels.
pub open spec fn stack_after(stack: Seq<Seq<char>>, n: int) -> Seq<Seq<char>>
    decreases n,
{
    if n <= 0 || stack.len() == 0 {
        stack
    } else {
        stack_after(stack.drop_last(), n - 1)
    }
}

/// The serialized text of a log suffix, given the tags of the scopes open
/// around it: one forward pass that reconstructs nesting from the markers.
pub open spec fn render_from(s: Seq<InstrV>, stack: Seq<Seq<char>>) -> Seq<char>
    decreases s.len(),
{
    if s.len() == 0 {
        Seq::empty()
    } else {
        match s.first() {
            InstrV::Leaf(t) => t + render_from(s.drop_first(), stack),
            InstrV::AnimatedRef(n) => "${"@ + n + "}"@ + render_from(s.drop_first(), stack),
            InstrV::ScopeOpen(v) => open_text(v) + render_from(
                s.drop_first(),
                stack.push(tag_of(v)),
            ),
            InstrV::ScopeClose(n) => closes_text(stack, n) + render_from(
                s.drop_first(),
                stack_after(stack, n),
            ),
        }
    }
}

/// The serialized text of a whole log.
pub open spec fn render(s: Seq<InstrV>) -> Seq<char> {
    render_from(s, Seq::empty())
}

/// The views of the tags on the serializer's stack.
pub open spec fn tag_views(ts: Seq<String>) -> Seq<Seq<char>> {
    ts.map_values(|t: String| t@)
}

/// The markup tag a scope value serializes to.
fn tag_str(v: &ScopeValue) -> (r: &str)
    ensures
        r@ == tag_of(v@),
{
    match v {
        ScopeValue::Font(_) => "font",
        ScopeValue::TextLayout(_) => "layout",
        ScopeValue::Text(_) => "text",
        ScopeValue::TextSpan(_) => "tspan",
    }
}

/// Append the text of one optional attribute to the output.
fn write_attr(out: &mut String, name: &str, a: &Option<Animatable<String>>)
    ensures
        final(out)@ == old(out)@ + attr_text(name@, opt_view(*a)),
{
    let ghost pre = out@;
    match a {
        None => {
            proof {
                assert(out@ =~= pre + attr_text(name@, opt_view(*a)));
            }
        },
        Some(Animatable::Constant(s)) => {
            out.append(" ");
            out.append(name);
            out.append("=\"");
            out.append(s.as_str());
            out.append("\"");
            proof {
                assert(out@ =~= pre + attr_text(name@, opt_view(*a)));
            }
        },
        Some(Animatable::Animated(n)) => {
            out.append(" ");
            out.append(name);
            out.append("=\"${");
            out.append(n.as_str());
            out.append("}\"");
            proof {
                assert(out@ =~= pre + attr_text(name@, opt_view(*a)));
            }
        },
    }
}

/// Append the opening tag of a scope value to the output.
fn write_open(out: &mut String, v: &ScopeValue)
    ensures
        final(out)@ == old(out)@ + open_text(v@),
{
    let ghost pre = out@;
    out.append("<");
    out.append(tag_str(v));
    match v {
        ScopeValue::Font(f) => {
            write_attr(out, "family", &f.family);
            write_attr(out, "style", &f.style);
        },
        ScopeValue::TextLayout(l) => {
            write_attr(out, "anchor", &l.anchor);
        },
        ScopeValue::Text(t) => {
            write_attr(out, "lang", &t.lang);
        },
        ScopeValue::TextSpan(s) => {
            write_attr(out, "lang", &s.lang);
        },
    }
    out.append(">");
    proof {
        assert(out@ =~= pre + open_text(v@));
    }
}

impl Program for MarkupProgram {
    type Output = String;

    /// Serialize the program into a markup document: leaves verbatim,
    /// animation references as `${name}` placeholders, scopes as matched
    /// tag pairs. Serialization of a compiled program cannot fail.
    fn execute(&self) -> (r: Result<String, Error>)
        ensures
            r matches Ok(out) && out@ == render(self@),
    {
        let instructions = &self.instructions;
        let ghost s = self@;
        let mut out = String::new();
        let mut tags: Vec<String> = Vec::new();
        let mut i: usize = 0;
        proof {
            assert(s.skip(0) =~= s);
            assert(tag_views(tags@) =~= Seq::<Seq<char>>::empty());
            assert(out@ + render_from(s, Seq::<Seq<char>>::empty()) =~= render_from(
                s,
                Seq::<Seq<char>>::empty(),
            ));
        }
        while i < instructions.len()
            invariant
                0 <= i <= instructions.len(),
                s == log_view(instructions@),
                s.len() == instructions@.len(),
                render(s) == out@ + render_from(s.skip(i as int), tag_views(tags@)),
            decreases instructions.len() - i,
        {
            proof {
                lemma_skip_step(s, i as int);
                assert(s[i as int] == instructions@[i as int]@);
            }
            let ghost st = tag_views(tags@);
            let ghost rem = s.skip(i as int);
            let ghost preout = out@;
            match &instructions[i] {
                Instr::Leaf(t) => {
                    out.append(t.as_str());
                    proof {
                        assert(render_from(rem, st) == t@ + render_from(s.skip(i + 1), st));
                        assert(preout + render_from(rem, st) =~= out@ + render_from(
                            s.skip(i + 1),
                            st,
                        ));
                    }
                },
                Instr::AnimatedRef(n) => {
                    out.append("${");
                    out.append(n.as_str());
                    out.append("}");
                    proof {
                        assert(render_from(rem, st) == "${"@ + n@ + "}"@ + render_from(
                            s.skip(i + 1),
                            st,
                        ));
                        assert(preout + render_from(rem, st) =~= out@ + render_from(
                            s.skip(i + 1),
                            st,
                        ));
                    }
                },
                Instr::ScopeOpen(v) => {
                    write_open(&mut out, v);
                    let tag = String::from_str(tag_str(v));
                    tags.push(tag);
                    proof {
                        assert(tag_views(tags@) =~= st.push(tag_of(v@)));
                        assert(render_from(rem, st) == open_text(v@) + render_from(
                            s.skip(i + 1),
                            st.push(tag_of(v@)),
                        ));
                        assert(preout + render_from(rem, st) =~= out@ + render_from(
                            s.skip(i + 1),
                            tag_views(tags@),
                        ));
                    }
                },
                Instr::ScopeClose(n) => {
                    let count: usize = *n;
                    let ghost st0 = st;
                    let mut j: usize = 0;
                    while j < count && tags.len() > 0
                        invariant
                            0 <= j <= count,
                            preout + closes_text(st0, count as int) == out@ + closes_text(
                                tag_views(tags@),
                                count as int - j as int,
                            ),
                            stack_after(st0, count as int) == stack_after(
                                tag_views(tags@),
                                count as int - j as int,
                            ),
                        decreases count - j,
                    {
                        let ghost cur = tag_views(tags@);
                        let ghost preclose = out@;
                        let popped = tags.pop();
                        match popped {
                            Some(tag) => {
                                out.append("</");
                                out.append(tag.as_str());
                                out.append(">");
                                proof {
                                    assert(cur.last() == tag@);
                                    assert(cur.drop_last() =~= tag_views(tags@));
                                    assert(closes_text(cur, count as int - j as int) == "</"@
                                        + tag@ + ">"@ + closes_text(
                                        tag_views(tags@),
                                        count as int - j as int - 1,
                                    ));
                                    assert(preclose + closes_text(cur, count as int - j as int)
                                        =~= out@ + closes_text(
                                        tag_views(tags@),
                                        count as int - j as int - 1,
                                    ));
                                    assert(stack_after(cur, count as int - j as int)
                                        == stack_after(
                                        tag_views(tags@),
                                        count as int - j as int - 1,
                                    ));
                                }
                            },
                            None => {},
                        }
                        j = j + 1;
                    }
                    proof {
                        assert(closes_text(tag_views(tags@), count as int - j as int)
                            == Seq::<char>::empty());
                        assert(stack_after(tag_views(tags@), count as int - j as int)
                            == tag_views(tags@));
                        assert(out@ =~= preout + closes_text(st0, count as int));
                        assert(tag_views(tags@) == stack_after(st0, count as int));
                        assert(render_from(rem, st0) == closes_text(st0, count as int)
                            + render_from(s.skip(i + 1), stack_after(st0, count as int)));
                        assert(preout + render_from(rem, st0) =~= out@ + render_from(
                            s.skip(i + 1),
                            tag_views(tags@),
                        ));
                    }
                },
            }
            i = i + 1;
        }
        proof {
            assert(s.skip(i as int) =~= Seq::<InstrV>::empty());
            assert(render(s) == out@ + Seq::<char>::empty());
            assert(out@ + Seq::<char>::empty() =~= out@);
        }
        Ok(out)
    }
}

} // verus!
