//! Fault isolation around compilation tasks: how the end of a task on its
//! worker becomes an outcome, and what is reported when it crashed.
use vstd::prelude::*;

use crate::engine::{after_add, handles_distinct, is_registered, LoadedModule};

verus! {

/// What a crashed task carried.
#[derive(Clone, Copy, Debug, PartialEq, Eq, Structural)]
pub enum PanicKind {
    /// The toolchain's own fatal-error signal, already diagnosed.
    FatalError,
    /// An explicit internal assertion of the toolchain, already reported.
    ExplicitBug,
    /// Anything else: a genuine internal fault.
    Other,
}

/// How a task on its worker ended.
#[derive(Debug)]
pub enum TaskEnd<R> {
    /// It ran to completion with this result.
    Finished(R),
    /// It aborted with an uncaught panic of this kind.
    Panicked(PanicKind),
}

/// What the supervisor reports when a task crashed.
#[derive(Debug)]
pub struct CrashReport {
    /// Whether a generic "unexpected panic" diagnostic is emitted first.
    pub internal_error: bool,
    /// The output the task produced, to be flushed to the user.
    pub output: Vec<u8>,
}

/// Whether a crash of this kind is a generic internal error.
pub open spec fn is_unexpected(kind: PanicKind) -> bool {
    kind == PanicKind::Other
}

/// The result the supervisor hands back for a task that ended with `end`.
pub open spec fn supervised<R>(end: TaskEnd<R>) -> Option<R> {
    match end {
        TaskEnd::Finished(v) => Some(v),
        TaskEnd::Panicked(_) => None,
    }
}

/// The output a task wrote while it was captured.
pub struct OutputBuffer {
    bytes: Vec<u8>,
}

impl OutputBuffer {
    pub closed spec fn spec_bytes(&self) -> Seq<u8> {
        self.bytes@
    }

    pub fn new() -> (r: Self)
        ensures
            r.spec_bytes() == Seq::<u8>::empty(),
    {
        OutputBuffer { bytes: Vec::new() }
    }

    /// Appends all of `buf` and returns how many bytes were taken.
    pub fn write(&mut self, buf: &[u8]) -> (r: usize)
        ensures
            final(self).spec_bytes() == old(self).spec_bytes() + buf@,
            r == buf@.len(),
    {
        let ghost start = self.bytes@;
        let mut i: usize = 0;
        while i < buf.len()
            invariant
                i <= buf@.len(),
                self.bytes@ == start + buf@.subrange(0, i as int),
            decreases buf@.len() - i,
        {
            self.bytes.push(buf[i]);
            assert(buf@.subrange(0, i + 1) =~= buf@.subrange(0, i as int).push(buf@[i as int]));
            i = i + 1;
        }
        assert(buf@.subrange(0, i as int) =~= buf@);
        i
    }

    pub fn into_bytes(self) -> (r: Vec<u8>)
        ensures
            r@ == self.spec_bytes(),
    {
        self.bytes
    }
}

/// Decides what is reported for a crashed task: an expected abort (fatal
/// error or explicit bug, already diagnosed) flushes the captured output
/// only; any other fault first gets a generic internal-error diagnostic.
pub fn handle_compiler_panic(kind: PanicKind, captured: Vec<u8>) -> (r: CrashReport)
    ensures
        r.internal_error == is_unexpected(kind),
        r.output@ == captured@,
{
    let internal_error = match kind {
        PanicKind::FatalError => false,
        PanicKind::ExplicitBug => false,
        PanicKind::Other => true,
    };
    CrashReport { internal_error, output: captured }
}

/// Turns the end of a supervised task into its outcome: the result of a task
/// that finished, or nothing and a crash report for one that panicked.
pub fn monitor<R>(end: TaskEnd<R>, captured: Vec<u8>) -> (r: (Option<R>, Option<CrashReport>))
    ensures
        r.0 == supervised(end),
        end is Finished ==> r.1 is None,
        end matches TaskEnd::Panicked(k) ==> (r.1 matches Some(rep) && rep.internal_error
            == is_unexpected(k) && rep.output@ == captured@),
{
    match end {
        TaskEnd::Finished(v) => (Some(v), None),
        TaskEnd::Panicked(kind) => (None, Some(handle_compiler_panic(kind, captured))),
    }
}

/// A crash during compilation leaves the context as it was, and the next
/// compilation that succeeds is registered as usual.
pub proof fn lemma_crash_isolation(mods: Seq<LoadedModule>, kind: PanicKind, next: LoadedModule)
    requires
        handles_distinct(mods),
        !is_registered(mods, next.handle),
    ensures
        supervised(TaskEnd::<LoadedModule>::Panicked(kind)) is None,
        after_add(mods, supervised(TaskEnd::<LoadedModule>::Panicked(kind))) == mods,
        after_add(
            after_add(mods, supervised(TaskEnd::<LoadedModule>::Panicked(kind))),
            supervised(TaskEnd::Finished(next)),
        ) == mods.push(next),
        handles_distinct(mods.push(next)),
{
    let s = mods.push(next);
    assert forall|i: int, j: int| 0 <= i < s.len() && 0 <= j < s.len() && i != j implies s[i].handle
        != s[j].handle by {
        if i == mods.len() as int {
            assert(s[j] == mods[j]);
        } else if j == mods.len() as int {
            assert(s[i] == mods[i]);
        }
    }
}

} // verus!
