//! Configuration of the read-eval-print loop: which stages echo their
//! output.  The loop itself — reading lines and printing results — is
//! I/O and belongs to the embedding around the library; it drives the
//! lexer, the parser and the evaluator through their public interfaces.

use vstd::prelude::*;

verus! {

/// Which stages of the pipeline the loop echoes for each input line.
#[derive(Clone, Copy, Debug)]
pub struct Repl {
    pub lexer: bool,
    pub parser: bool,
}

impl Repl {
    /// The default configuration: echo the token stream and the parse.
    pub fn new() -> (r: Self)
        ensures
            r.lexer,
            r.parser,
    {
        Repl { lexer: true, parser: true }
    }
}

} // verus!
