use vstd::prelude::*;
use vstd::string::*;

verus! {

/// The two ways a parse can fail.
#[derive(Clone, Copy, Debug, PartialEq, Eq, Structural)]
pub enum ErrorKind {
    /// The query holds a NUL character, which cannot cross the native
    /// boundary; found before any native call.
    InteriorNul,
    /// The native parser rejected the query.
    Syntax,
}

/// A failed parse: what went wrong, and where.
#[derive(Clone, Debug)]
pub struct Error {
    pub kind: ErrorKind,
    pub message: String,
    /// The native source file that reported the error; empty for an
    /// interior NUL.
    pub file: String,
    /// The line of that file; 0 for an interior NUL.
    pub line: u32,
    /// The position in the query that the error points at: the native cursor
    /// position, or the character position of the first NUL.
    pub index: usize,
}

impl Error {
    /// The error for a native error record: its message, the file and line
    /// that raised it, and the cursor position in the query.
    pub fn from_raw(message: String, file: String, lineno: i32, cursorpos: i32) -> (r: Error)
        ensures
            r.kind == ErrorKind::Syntax,
            r.message@ == message@,
            r.file@ == file@,
            r.line == lineno as u32,
            r.index == cursorpos as usize,
    {
        Error { kind: ErrorKind::Syntax, message, file, line: lineno as u32, index: cursorpos as usize }
    }
}

/// Whether `c` is the NUL character.
pub open spec fn is_nul(c: char) -> bool {
    c == '\0'
}

/// Checks that a query can be handed to the native parser: it is refused if
/// it holds a NUL character, and the error points at the first one.
pub fn check_query(query: &str) -> (r: Result<(), Error>)
    ensures
        r is Ok <==> forall|j: int| 0 <= j < query@.len() ==> !is_nul(#[trigger] query@[j]),
        r matches Err(e) ==> {
            &&& e.kind == ErrorKind::InteriorNul
            &&& e.index < query@.len()
            &&& is_nul(query@[e.index as int])
            &&& forall|j: int| 0 <= j < e.index ==> !is_nul(#[trigger] query@[j])
            &&& e.message@ == "query contains a nul character"@
            &&& e.file@.len() == 0
            &&& e.line == 0
        },
{
    let n = query.unicode_len();
    let mut i: usize = 0;
    while i < n
        invariant
            n == query@.len(),
            i <= n,
            forall|j: int| 0 <= j < i ==> !is_nul(#[trigger] query@[j]),
        decreases n - i,
    {
        if query.get_char(i) == '\0' {
            return Err(
                Error {
                    kind: ErrorKind::InteriorNul,
                    message: "query contains a nul character".to_owned(),
                    file: String::new(),
                    line: 0,
                    index: i,
                },
            );
        }
        i = i + 1;
    }
    Ok(())
}

/// Tracks whether the native library's one-time setup has run. It is held
/// under the lock that serializes every native call, so the calls reach it
/// one after another.
pub struct InitGate {
    initialized: bool,
}

impl InitGate {
    pub closed spec fn is_initialized(&self) -> bool {
        self.initialized
    }

    /// A gate before any call.
    pub fn new() -> (r: InitGate)
        ensures
            !r.is_initialized(),
    {
        InitGate { initialized: false }
    }

    /// Records a native call; tells the caller to run the setup first exactly
    /// when no earlier call has.
    pub fn enter(&mut self) -> (run_setup: bool)
        ensures
            run_setup == !old(self).is_initialized(),
            final(self).is_initialized(),
    {
        let run_setup = !self.initialized;
        self.initialized = true;
        run_setup
    }
}

/// Successive calls of `enter` on one gate: each answer and the state that
/// follows it are as the contract of `enter` says, given the state before.
pub open spec fn is_run(states: Seq<InitGate>, answers: Seq<bool>) -> bool {
    &&& states.len() == answers.len() + 1
    &&& forall|i: int|
        0 <= i < answers.len() ==> {
            &&& #[trigger] answers[i] == !states[i].is_initialized()
            &&& states[i + 1].is_initialized()
        }
}

/// However many calls pass through a new gate, the first one and only the
/// first one runs the native setup.
pub proof fn setup_runs_once(states: Seq<InitGate>, answers: Seq<bool>)
    requires
        is_run(states, answers),
        !states[0].is_initialized(),
        answers.len() >= 1,
    ensures
        answers[0],
        forall|i: int| 1 <= i < answers.len() ==> !answers[i],
{
    assert forall|i: int| 1 <= i < answers.len() implies !answers[i] by {
        assert(answers[i - 1] == !states[i - 1].is_initialized());
    }
}

} // verus!
