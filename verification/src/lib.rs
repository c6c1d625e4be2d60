//! A host security posture scanner: a fixed battery of independent probes,
//! the typed outcome of each, and the harness that scores them.
//!
//! The library judges; it does not touch sockets, files or memory mappings.
//! A caller observes the host, hands each probe what it saw, and prints the
//! text that the outcomes and the harness produce.
use vstd::prelude::*;

pub mod battery;
pub mod containerd;
pub mod docker;
pub mod harness;
pub mod hvdetect;
pub mod mmap;
pub mod text;
pub mod yama;

verus! {

/// Whether the lines are a short confirmation: one line, marked as good
/// news.
pub open spec fn confirms(lines: Seq<Seq<char>>) -> bool {
    &&& lines.len() == 1
    &&& text::opens_with(lines[0], "  + "@)
}

/// Whether a line carries on the part that the line before it began.
pub open spec fn carries_on(line: Seq<char>) -> bool {
    text::opens_with(line, "   "@)
}

/// Whether the lines explain a gap in three parts, in this order: the
/// finding, in one line; why it matters; what to do about it. The second and
/// the third part are marked as such where they begin, and may carry on over
/// further lines.
pub open spec fn explains_gap(lines: Seq<Seq<char>>) -> bool {
    exists|remedy: int|
        {
            &&& 1 < remedy < lines.len()
            &&& text::opens_with(lines[0], "  - "@)
            &&& !text::opens_with(lines[0], "  - Why:"@)
            &&& !text::opens_with(lines[0], "  - Suggestion:"@)
            &&& text::opens_with(lines[1], "  - Why:"@)
            &&& text::opens_with(#[trigger] lines[remedy], "  - Suggestion:"@)
            &&& forall|i: int|
                1 < i < lines.len() && i != remedy ==> carries_on(#[trigger] lines[i])
        }
}

/// Whether the lines explain a verdict as they should: a passing verdict is
/// confirmed in one line, a failing one is explained in three parts.
pub open spec fn explains_verdict(passed: bool, lines: Seq<Seq<char>>) -> bool {
    if passed {
        confirms(lines)
    } else {
        explains_gap(lines)
    }
}

/// The typed result of one probe: the evidence it holds, and the three facts
/// derived from that evidence alone.
pub trait TestResult {
    /// Whether the evidence shows no hardening gap, under the polarity that
    /// is fixed for the probe family.
    spec fn verdict(&self) -> bool;

    /// The status word for the evidence. It names what was seen, not whether
    /// that is good.
    spec fn label(&self) -> Seq<char>;

    /// The lines of the explanation, in the order in which they are shown.
    spec fn explanation(&self) -> Seq<Seq<char>>;

    fn success(&self) -> (passed: bool)
        ensures
            passed == self.verdict(),
    ;

    /// A passing verdict is confirmed in one line; a failing one is
    /// explained in three parts: the finding, why it matters, what to do.
    fn explain(&self) -> (lines: Vec<String>)
        ensures
            text::texts(lines@) == self.explanation(),
            explains_verdict(self.verdict(), self.explanation()),
    ;

    fn as_string(&self) -> (token: String)
        ensures
            token@ == self.label(),
    ;
}

/// The verdict, the label and the explanation are functions of the evidence
/// that an outcome holds: two outcomes with the same evidence agree in all
/// three, however often and in whatever order they were asked.
pub proof fn lemma_outcome_follows_evidence<R: TestResult>(one: R, other: R)
    requires
        one == other,
    ensures
        one.verdict() == other.verdict(),
        one.label() == other.label(),
        one.explanation() == other.explanation(),
{
}

/// Marks a type that says why a probe could not be carried out at all.
pub trait TestError {
}

/// A named, stateless check of one aspect of the host.
pub trait Test {
    /// What has to be observed of the host before the probe can judge.
    type Observed;

    /// The outcome that the probe produces.
    type Outcome: TestResult;

    /// The description shown while the probe runs.
    spec fn title(&self) -> Seq<char>;

    /// Whether `outcome` is what the probe concludes from `seen`.
    spec fn concludes(&self, seen: Self::Observed, outcome: Self::Outcome) -> bool;

    fn name(&self) -> (description: String)
        ensures
            description@ == self.title(),
    ;

    /// An expected negative finding is an outcome; `Err` is for a probe that
    /// could not be carried out.
    fn run(&self, seen: Self::Observed) -> (ran: Result<Self::Outcome, ()>)
        ensures
            ran matches Ok(outcome) ==> self.concludes(seen, outcome),
    ;
}

} // verus!
