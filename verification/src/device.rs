//! The backend contract: a device compiles a finished instruction log into
//! a program, and a program executes into serialized output. Scope imbalance
//! is a backend-independent structural error that every device must report.

use vstd::prelude::*;

use crate::errors::Error;
use crate::instruction::{balanced, depth, lemma_depth_take_step, log_view, Instr, InstrV};

verus! {

/// A compiler backend. `compile` consumes one finished log and produces an
/// owned program independent of the log's storage; it never mutates the log.
pub trait Device: Sized {
    /// The backend-specific structural artifact `compile` produces.
    type Prog;

    /// Compile the finished log. An imbalanced log is rejected as a
    /// structural error by every backend; everything else is backend policy.
    fn compile(&mut self, instructions: &Vec<Instr>) -> (r: Result<Self::Prog, Error>)
        ensures
            !balanced(log_view(instructions@)) ==> (r matches Err(e) && e is StructuralError),
    ;
}

/// A compiled program: a self-contained artifact that serializes itself
/// into backend-defined output, independently of the original log.
pub trait Program: Sized {
    /// The backend-defined serialized output.
    type Output;

    /// Serialize this program.
    fn execute(&self) -> Result<Self::Output, Error>;
}

/// Replay the open/close counter over a log: true exactly when the running
/// counter never goes negative and ends at zero. This is the generic,
/// backend-independent structural check.
pub fn check_structure(instructions: &Vec<Instr>) -> (r: bool)
    ensures
        r == balanced(log_view(instructions@)),
{
    let ghost s = log_view(instructions@);
    let mut depth_now: usize = 0;
    let mut i: usize = 0;
    while i < instructions.len()
        invariant
            0 <= i <= instructions.len(),
            s == log_view(instructions@),
            s.len() == instructions@.len(),
            depth_now <= i,
            depth_now as int == depth(s.take(i as int)),
            forall|k: int| 0 <= k <= i ==> depth(#[trigger] s.take(k)) >= 0,
        decreases instructions.len() - i,
    {
        proof {
            lemma_depth_take_step(s, i as int);
            assert(s[i as int] == instructions@[i as int]@);
        }
        match &instructions[i] {
            Instr::ScopeOpen(_) => {
                depth_now = depth_now + 1;
            },
            Instr::ScopeClose(n) => {
                if *n > depth_now {
                    proof {
                        assert(depth(s.take(i + 1)) < 0);
                    }
                    return false;
                }
                depth_now = depth_now - *n;
            },
            _ => {},
        }
        i = i + 1;
    }
    proof {
        assert(s.take(i as int) =~= s);
    }
    depth_now == 0
}

} // verus!
