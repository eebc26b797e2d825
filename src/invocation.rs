//! A program to start and the arguments to hand it.
use vstd::prelude::*;

verus! {

/// An external program together with its argument list.
pub struct Invocation {
    pub program: String,
    pub args: Vec<String>,
}

/// The abstract value of an [`Invocation`]: the program name and each
/// argument as a character sequence.
pub ghost struct InvocationView {
    pub program: Seq<char>,
    pub args: Seq<Seq<char>>,
}

/// The character sequences of a list of string slices.
pub open spec fn strs_view(s: Seq<&str>) -> Seq<Seq<char>> {
    s.map_values(|a: &str| a@)
}

impl View for Invocation {
    type V = InvocationView;

    open spec fn view(&self) -> InvocationView {
        InvocationView { program: self.program@, args: self.args@.map_values(|a: String| a@) }
    }
}

impl Invocation {
    /// Builds an invocation of `program` with the given arguments, in order.
    pub fn new(program: &str, args: &[&str]) -> (r: Invocation)
        ensures
            r@.program == program@,
            r@.args == strs_view(args@),
    {
        let mut owned: Vec<String> = Vec::new();
        let mut i: usize = 0;
        while i < args.len()
            invariant
                i <= args@.len(),
                owned@.len() == i,
                forall|k: int| 0 <= k < i ==> owned@[k]@ == args@[k]@,
            decreases args@.len() - i,
        {
            let a = String::from_str(args[i]);
            owned.push(a);
            i = i + 1;
        }
        assert(owned@.map_values(|a: String| a@) =~= strs_view(args@));
        Invocation { program: String::from_str(program), args: owned }
    }
}

} // verus!
