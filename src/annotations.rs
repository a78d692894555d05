//! The four primitives that a symbolic engine offers to value generation:
//! unconstrained draws, assumptions, silent rejection and reported failure.
//!
//! A path is modelled by the sequence of raw 128-bit words that the engine
//! hands out, one per draw. Each draw of a scalar reads the low bits of one
//! word, so every bit pattern of the scalar is reachable. Once the words run
//! out, further draws read zero, the value a fresh symbolic cell starts from.
use vstd::prelude::*;

verus! {

/// Why a path ended silently: neither counts as a failure.
#[derive(PartialEq, Eq, Structural, Clone, Copy, Debug)]
pub enum Halt {
    /// An assumption did not hold.
    Pruned,
    /// A drawn value could not be turned into a legal one.
    Rejected,
}

/// A checked property did not hold on this path.
#[derive(PartialEq, Eq, Clone, Copy, Debug)]
pub struct Failure {
    pub message: &'static str,
}

/// How one path through generation and checking ended.
#[derive(PartialEq, Eq, Clone, Copy, Debug)]
pub enum Outcome {
    Passed,
    Halted(Halt),
    Failed(Failure),
}

/// The word that the next draw reads from what is left of a path.
pub open spec fn head(s: Seq<u128>) -> u128 {
    if s.len() > 0 {
        s[0]
    } else {
        0
    }
}

/// What is left of a path after one draw.
pub open spec fn tail(s: Seq<u128>) -> Seq<u128> {
    if s.len() > 0 {
        s.drop_first()
    } else {
        s
    }
}

/// One explored path: the words the engine chose and how many were read.
pub struct Path {
    draws: Vec<u128>,
    next: usize,
    replay: bool,
}

impl View for Path {
    type V = Seq<u128>;

    /// The words not yet read.
    closed spec fn view(&self) -> Seq<u128> {
        self.draws@.subrange(self.next as int, self.draws@.len() as int)
    }
}

impl Path {
    pub closed spec fn wf(&self) -> bool {
        self.next <= self.draws@.len()
    }

    /// Whether the words were recorded on an earlier run and are replayed to
    /// show concrete values.
    pub closed spec fn is_replay(&self) -> bool {
        self.replay
    }

    /// A path explored by the engine.
    pub fn new(draws: Vec<u128>) -> (r: Path)
        ensures
            r.wf(),
            r@ == draws@,
            !r.is_replay(),
    {
        let r = Path { draws, next: 0, replay: false };
        assert(r@ =~= r.draws@);
        r
    }

    /// A path replayed from recorded words.
    pub fn replayed(draws: Vec<u128>) -> (r: Path)
        ensures
            r.wf(),
            r@ == draws@,
            r.is_replay(),
    {
        let r = Path { draws, next: 0, replay: true };
        assert(r@ =~= r.draws@);
        r
    }

    /// Marks one word of memory symbolic and returns it.
    pub fn draw(&mut self) -> (w: u128)
        requires
            old(self).wf(),
        ensures
            final(self).wf(),
            final(self).is_replay() == old(self).is_replay(),
            w == head(old(self)@),
            final(self)@ == tail(old(self)@),
    {
        if self.next < self.draws.len() {
            let w = self.draws[self.next];
            self.next = self.next + 1;
            assert(self@ =~= tail(old(self)@));
            w
        } else {
            0
        }
    }

    /// How many words are left unread.
    pub fn remaining(&self) -> (n: usize)
        requires
            self.wf(),
        ensures
            n == self@.len(),
    {
        self.draws.len() - self.next
    }
}

/// Adds an assumption: the path goes on only where `cond` holds.
pub fn verifier_assume(cond: bool) -> (r: Result<(), Halt>)
    ensures
        r == (if cond { Ok::<(), Halt>(()) } else { Err(Halt::Pruned) }),
{
    if cond {
        Ok(())
    } else {
        Err(Halt::Pruned)
    }
}

/// Abandons the path as a vacuous success.
pub fn verifier_reject() -> (r: Halt)
    ensures
        r == Halt::Rejected,
{
    Halt::Rejected
}

/// Whether `path` is replayed to show concrete values.
pub fn verifier_is_replay(path: &Path) -> (r: bool)
    ensures
        r == path.is_replay(),
{
    path.replay
}

/// Ends the path as a failure without a message of its own.
pub fn verifier_abort() -> (r: Failure)
    ensures
        r.message == "aborted",
{
    Failure { message: "aborted" }
}

/// Ends the path as a failure that carries `message`.
pub fn verifier_report_error(message: &'static str) -> (r: Failure)
    ensures
        r.message == message,
{
    Failure { message }
}

/// Checks an assertion: a false one is a reported failure.
pub fn verifier_verify(cond: bool) -> (r: Result<(), Failure>)
    ensures
        r is Ok <==> cond,
        !cond ==> r == Err::<(), Failure>(Failure { message: "verification failed" }),
{
    if !cond {
        Err(verifier_report_error("verification failed"))
    } else {
        Ok(())
    }
}

} // verus!
