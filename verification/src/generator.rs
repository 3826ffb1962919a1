//! The generator: the single mutable owner of the growing instruction log.
//! One authoring pass appends through it; nothing is ever reordered or
//! removed.

use vstd::prelude::*;

use crate::device::Device;
use crate::errors::Error;
use crate::instruction::{balanced, log_view, Instr, InstrV, ScopeValue};

verus! {

/// Owns the append-only instruction log of one authoring pass.
#[derive(Debug)]
pub struct Generator {
    log: Vec<Instr>,
}

impl View for Generator {
    type V = Seq<InstrV>;

    closed spec fn view(&self) -> Seq<InstrV> {
        log_view(self.log@)
    }
}

impl Default for Generator {
    /// A generator with an empty log.
    fn default() -> (r: Self)
        ensures
            r@ == Seq::<InstrV>::empty(),
    {
        let g = Generator { log: Vec::new() };
        proof {
            assert(g@ =~= Seq::<InstrV>::empty());
        }
        g
    }
}

impl Generator {
    /// A generator with an empty log.
    pub fn new() -> (r: Self)
        ensures
            r@ == Seq::<InstrV>::empty(),
    {
        let g = Generator { log: Vec::new() };
        proof {
            assert(g@ =~= Seq::<InstrV>::empty());
        }
        g
    }

    /// Append one instruction.
    pub fn push(&mut self, instruction: Instr)
        ensures
            final(self)@ == old(self)@.push(instruction@),
    {
        let ghost v = instruction@;
        self.log.push(instruction);
        proof {
            assert(self@ =~= old(self)@.push(v));
        }
    }

    /// Decompose a structured attribute-bearing value into its `ScopeOpen`
    /// instruction. Both scoping capabilities share this entry point.
    pub fn push_from(&mut self, value: ScopeValue)
        ensures
            final(self)@ == old(self)@.push(InstrV::ScopeOpen(value@)),
    {
        self.push(Instr::ScopeOpen(value));
    }

    /// Append a `ScopeClose` that closes `count` innermost scopes.
    pub fn pop(&mut self, count: usize)
        ensures
            final(self)@ == old(self)@.push(InstrV::ScopeClose(count as int)),
    {
        self.push(Instr::ScopeClose(count));
    }

    /// The number of instructions recorded so far.
    pub fn len(&self) -> (r: usize)
        ensures
            r == self@.len(),
    {
        self.log.len()
    }

    /// Borrow the finished log, e.g. to hand it to a device.
    pub fn instructions(&self) -> (r: &Vec<Instr>)
        ensures
            log_view(r@) == self@,
    {
        &self.log
    }

    /// Hand the finished log to a device for compilation. The log itself is
    /// only read, never mutated.
    pub fn compile<D: Device>(&self, device: &mut D) -> (r: Result<D::Prog, Error>)
        ensures
            !balanced(self@) ==> (r matches Err(e) && e is StructuralError),
    {
        device.compile(&self.log)
    }

    /// Give up the generator and keep only its log.
    pub fn into_instructions(self) -> (r: Vec<Instr>)
        ensures
            log_view(r@) == self@,
    {
        self.log
    }
}

} // verus!
