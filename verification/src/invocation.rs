//! A fully assembled collaborator command: the program to run and its
//! argument vector, reproduced bit-exact for interchangeability. The
//! library only constructs these; the caller spawns them and feeds the
//! observed outcome back into the decision functions.

use vstd::prelude::*;

verus! {

/// Mathematical view of an [`Invocation`].
pub struct InvocationView {
    pub program: Seq<char>,
    pub args: Seq<Seq<char>>,
}

/// One subprocess invocation: `program` with `args`, in order.
#[derive(Debug)]
pub struct Invocation {
    pub program: String,
    pub args: Vec<String>,
}

impl View for Invocation {
    type V = InvocationView;

    open spec fn view(&self) -> InvocationView {
        InvocationView { program: self.program@, args: self.args.deep_view() }
    }
}

impl DeepView for Invocation {
    type V = InvocationView;

    open spec fn deep_view(&self) -> InvocationView {
        self.view()
    }
}

} // verus!
