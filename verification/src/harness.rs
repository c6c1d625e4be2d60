//! The harness: it owns the probes in registration order, runs them one by
//! one on what was observed of the host, hands back what is to be shown of
//! each, and keeps the score.
//!
//! A probe that could not be carried out ends the run: no later probe runs
//! and no score is given, since a partial score would claim a completeness
//! that the run does not have.
use vstd::prelude::*;
use vstd::string::*;
use crate::battery::{Observation, Probe, ProbeOutcome};
use crate::text::{decimal, decimal_text, texts};
use crate::{Test, TestResult};

verus! {

/// The state of a run: how many probes passed, how many ran, and whether one
/// of them failed to run.
pub struct Tally {
    pub passing: nat,
    pub total: nat,
    pub aborted: bool,
}

impl Tally {
    /// The state before any probe has run.
    pub open spec fn start() -> Tally {
        Tally { passing: 0, total: 0, aborted: false }
    }

    /// The state after one more probe: `Ok` holds its verdict, `Err` says
    /// that it could not be carried out. A run that was ended stays as it is.
    pub open spec fn step(self, ran: Result<bool, ()>) -> Tally {
        if self.aborted {
            self
        } else {
            match ran {
                Ok(passed) => Tally {
                    passing: if passed {
                        self.passing + 1
                    } else {
                        self.passing
                    },
                    total: self.total + 1,
                    aborted: false,
                },
                Err(_) => Tally { passing: self.passing, total: self.total, aborted: true },
            }
        }
    }

    /// The state after the probes of `runs`, taken in order.
    pub open spec fn after(runs: Seq<Result<bool, ()>>) -> Tally
        decreases runs.len(),
    {
        if runs.len() == 0 {
            Tally::start()
        } else {
            Tally::after(runs.drop_last()).step(runs.last())
        }
    }
}

/// How many of the verdicts are true.
pub open spec fn passes(verdicts: Seq<bool>) -> nat
    decreases verdicts.len(),
{
    if verdicts.len() == 0 {
        0
    } else {
        passes(verdicts.drop_last()) + if verdicts.last() {
            1nat
        } else {
            0nat
        }
    }
}

/// A run in which every probe could be carried out.
pub open spec fn completed(verdicts: Seq<bool>) -> Seq<Result<bool, ()>> {
    Seq::new(verdicts.len(), |i: int| Ok::<bool, ()>(verdicts[i]))
}

/// What is shown of an outcome: its label, which ends the line that
/// announced the probe, and then its explanation.
pub open spec fn block<R: TestResult>(outcome: R) -> Seq<Seq<char>> {
    seq![outcome.label()] + outcome.explanation()
}

/// The line that ends a completed run.
pub open spec fn score_line(passing: nat, total: nat) -> Seq<char> {
    "\nScore: "@ + decimal(passing) + "/"@ + decimal(total)
}

/// After a run in which every probe could be carried out, the score is the
/// number of true verdicts over the number of probes.
pub proof fn lemma_score_counts_passes(verdicts: Seq<bool>)
    ensures
        Tally::after(completed(verdicts)) == (Tally {
            passing: passes(verdicts),
            total: verdicts.len(),
            aborted: false,
        }),
    decreases verdicts.len(),
{
    if verdicts.len() > 0 {
        lemma_score_counts_passes(verdicts.drop_last());
        assert(completed(verdicts).drop_last() =~= completed(verdicts.drop_last()));
    }
}

/// A run never counts more passes than probes.
pub proof fn lemma_passes_at_most_total(runs: Seq<Result<bool, ()>>)
    ensures
        Tally::after(runs).passing <= Tally::after(runs).total <= runs.len(),
    decreases runs.len(),
{
    if runs.len() > 0 {
        lemma_passes_at_most_total(runs.drop_last());
    }
}

/// A probe that could not be carried out ends the run where it stands:
/// whatever is handed in after it changes nothing.
pub proof fn lemma_failure_ends_the_run(before: Seq<Result<bool, ()>>, rest: Seq<Result<bool, ()>>)
    ensures
        Tally::after(before.push(Err(())) + rest) == (Tally {
            aborted: true,
            ..Tally::after(before)
        }),
    decreases rest.len(),
{
    let failed = before.push(Err(()));
    if rest.len() == 0 {
        assert(failed + rest =~= failed);
        assert(failed.drop_last() =~= before);
    } else {
        lemma_failure_ends_the_run(before, rest.drop_last());
        assert((failed + rest).drop_last() =~= failed + rest.drop_last());
    }
}

/// The first line of the report.
pub fn banner(version: &str) -> (line: String)
    ensures
        line@ == "Secbench "@ + version@ + ".  Copyright 2024 Edera Inc."@,
{
    let mut line = "Secbench ".to_string();
    line.append(version);
    line.append(".  Copyright 2024 Edera Inc.");
    line
}

/// What is shown before a probe runs. The line is left open: the outcome's
/// label ends it.
pub fn announcement(name: &str) -> (opening: String)
    ensures
        opening@ == "\n* Checking "@ + name@ + "... "@,
{
    let mut opening = "\n* Checking ".to_string();
    opening.append(name);
    opening.append("... ");
    opening
}

/// What a harness stands for: the probes in registration order, and how far
/// the run over them has come.
pub struct Run {
    pub probes: Seq<Probe>,
    pub tally: Tally,
}

impl Run {
    /// The probe that runs next: the first that has not run yet, unless the
    /// run was ended or is complete.
    pub open spec fn pending(self) -> Option<Probe> {
        if !self.tally.aborted && self.tally.total < self.probes.len() {
            Some(self.probes[self.tally.total as int])
        } else {
            None
        }
    }

    /// Whether every probe has run.
    pub open spec fn complete(self) -> bool {
        !self.tally.aborted && self.tally.total == self.probes.len()
    }

    /// The run after one more probe, with the probes as they were.
    pub open spec fn step(self, ran: Result<bool, ()>) -> Run {
        Run { probes: self.probes, tally: self.tally.step(ran) }
    }
}

/// One run over the probes: the probes in the order in which they run, how
/// far the run has come, and the score so far.
pub struct Harness {
    probes: Vec<Probe>,
    passing: usize,
    total: usize,
    aborted: bool,
}

impl View for Harness {
    type V = Run;

    closed spec fn view(&self) -> Run {
        Run {
            probes: self.probes@,
            tally: Tally {
                passing: self.passing as nat,
                total: self.total as nat,
                aborted: self.aborted,
            },
        }
    }
}

impl Harness {
    #[verifier::type_invariant]
    spec fn counted(self) -> bool {
        self.passing <= self.total <= self.probes@.len()
    }

    /// A harness for `probes`, before any of them has run.
    pub fn new(probes: Vec<Probe>) -> (harness: Harness)
        ensures
            harness@ == (Run { probes: probes@, tally: Tally::start() }),
    {
        Harness { probes, passing: 0, total: 0, aborted: false }
    }

    /// How many probes passed so far.
    pub fn passing(&self) -> (count: usize)
        ensures
            count == self@.tally.passing,
            count <= self@.tally.total,
    {
        proof {
            use_type_invariant(self);
        }
        self.passing
    }

    /// How many probes ran so far.
    pub fn total(&self) -> (count: usize)
        ensures
            count == self@.tally.total,
            count <= self@.probes.len(),
    {
        proof {
            use_type_invariant(self);
        }
        self.total
    }

    /// Whether a probe could not be carried out.
    pub fn aborted(&self) -> (ended: bool)
        ensures
            ended == self@.tally.aborted,
    {
        self.aborted
    }

    /// The probe to observe the host for next, if the run goes on.
    pub fn pending(&self) -> (probe: Option<Probe>)
        ensures
            probe == self@.pending(),
    {
        if !self.aborted && self.total < self.probes.len() {
            Some(self.probes[self.total])
        } else {
            None
        }
    }

    /// Runs the pending probe on what was seen and hands back the lines to
    /// show of its outcome. `Err` comes back where the probe could not be
    /// carried out, which ends the run, and where no probe is pending.
    pub fn record(&mut self, seen: Observation) -> (shown: Result<Vec<String>, ()>)
        ensures
            shown is Ok <==> (old(self)@.pending() matches Some(probe) && probe.accepts(seen)),
            old(self)@.pending() is None ==> final(self)@ == old(self)@,
            old(self)@.pending() is Some && shown is Err ==> final(self)@ == old(self)@.step(
                Err(()),
            ),
            shown matches Ok(lines) ==> exists|outcome: ProbeOutcome|
                {
                    &&& #[trigger] old(self)@.pending()->Some_0.concludes(seen, outcome)
                    &&& texts(lines@) == block(outcome)
                    &&& final(self)@ == old(self)@.step(Ok(outcome.verdict()))
                },
    {
        proof {
            use_type_invariant(&*self);
        }
        if self.aborted || self.total >= self.probes.len() {
            return Err(());
        }
        let probe = self.probes[self.total];
        let ghost observed = seen;
        match probe.run(seen) {
            Ok(outcome) => {
                let mut lines: Vec<String> = Vec::new();
                lines.push(outcome.as_string());
                let mut explanation = outcome.explain();
                lines.append(&mut explanation);
                assert(texts(lines@) =~= block(outcome));
                self.total = self.total + 1;
                if outcome.success() {
                    self.passing = self.passing + 1;
                }
                assert(probe.concludes(observed, outcome));
                Ok(lines)
            },
            Err(_) => {
                self.aborted = true;
                Err(())
            },
        }
    }

    /// The line that ends the report: the score, once every probe has run.
    /// A run that was ended or is still under way has no score.
    pub fn score(&self) -> (line: Option<String>)
        ensures
            line is Some <==> self@.complete(),
            line matches Some(text) ==> text@ == score_line(
                self@.tally.passing,
                self@.tally.total,
            ),
    {
        if self.aborted || self.total < self.probes.len() {
            return None;
        }
        proof {
            use_type_invariant(self);
        }
        let mut text = "\nScore: ".to_string();
        text.append(decimal_text(self.passing).as_str());
        text.append("/");
        text.append(decimal_text(self.total).as_str());
        Some(text)
    }
}

} // verus!
