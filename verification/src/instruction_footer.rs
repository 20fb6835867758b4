//! The instruction footer: renders the keybinding hints of the active view as
//! one line, separated by vertical bars. Which hints apply is the action
//! handlers' business; this component only joins them.

use vstd::prelude::*;
use vstd::string::StringExecFns;

verus! {

/// The parts joined with the separator between each pair.
pub open spec fn joined_with_sep(parts: Seq<&'static str>, sep: Seq<char>) -> Seq<char>
    decreases parts.len(),
{
    if parts.len() == 0 {
        Seq::empty()
    } else if parts.len() == 1 {
        parts[0]@
    } else {
        joined_with_sep(parts.drop_last(), sep) + sep + parts.last()@
    }
}

pub struct InstructionFooter;

impl InstructionFooter {
    pub fn new() -> (r: Self) {
        InstructionFooter
    }

    /// The footer line: the instructions joined with `" | "`.
    pub fn footer_text(&self, instructions: &Vec<&'static str>) -> (r: String)
        ensures
            r@ == joined_with_sep(instructions@, " | "@),
    {
        let n = instructions.len();
        let mut s = String::new();
        let mut i: usize = 0;
        proof {
            assert(instructions@.take(0) =~= Seq::<&'static str>::empty());
            assert(s@ =~= joined_with_sep(instructions@.take(0), " | "@));
        }
        while i < n
            invariant
                n == instructions@.len(),
                0 <= i <= n,
                s@ == joined_with_sep(instructions@.take(i as int), " | "@),
            decreases n - i,
        {
            proof {
                let t = instructions@.take(i + 1);
                assert(t.drop_last() =~= instructions@.take(i as int));
                assert(t.last() == instructions@[i as int]);
            }
            if i > 0 {
                s.append(" | ");
            }
            let part = *vstd::std_specs::vec::vec_index(instructions, i);
            s.append(part);
            i = i + 1;
        }
        proof {
            assert(instructions@.take(n as int) =~= instructions@);
        }
        s
    }
}

} // verus!
