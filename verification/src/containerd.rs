//! The probe for a reachable container-runtime control socket.
use vstd::prelude::*;
use vstd::string::*;
use crate::text::{opens_with, texts};
use crate::{carries_on, explains_verdict, Test, TestResult};

verus! {

pub struct ContainerDTest {}

/// Whether a connection to the runtime's socket could be made.
pub struct ContainerDResult {
    pub allowed: bool,
}

impl Default for ContainerDResult {
    fn default() -> (outcome: ContainerDResult)
        ensures
            !outcome.allowed,
    {
        ContainerDResult { allowed: false }
    }
}

impl Test for ContainerDTest {
    type Observed = bool;

    type Outcome = ContainerDResult;

    open spec fn title(&self) -> Seq<char> {
        "for containerd socket"@
    }

    /// The socket is usable exactly when the connection attempt succeeded.
    open spec fn concludes(&self, seen: bool, outcome: ContainerDResult) -> bool {
        outcome.allowed == seen
    }

    fn name(&self) -> (description: String) {
        "for containerd socket".to_string()
    }

    /// `connected` says whether a connection to the runtime's socket
    /// succeeded.
    fn run(&self, connected: bool) -> (ran: Result<ContainerDResult, ()>)
        ensures
            ran == Ok::<ContainerDResult, ()>(ContainerDResult { allowed: connected }),
    {
        let mut result = ContainerDResult { allowed: false };
        if connected {
            result.allowed = true;
        }
        Ok(result)
    }
}

/// A reachable socket is explained in three parts, an unreachable one is
/// confirmed in one line.
pub proof fn lemma_containerd_explanation_has_its_parts(outcome: ContainerDResult)
    ensures
        explains_verdict(outcome.verdict(), outcome.explanation()),
{
    let lines = outcome.explanation();
    reveal_strlit("  + ");
    reveal_strlit("   ");
    reveal_strlit("  - ");
    reveal_strlit("  - Why:");
    reveal_strlit("  - Suggestion:");
    if !outcome.allowed {
        reveal_strlit("  + No usable containerd socket was found.");
        assert(lines[0].subrange(0, 4) =~= "  + "@);
    } else {
        reveal_strlit("  - A usable containerd socket was found.");
        reveal_strlit(
            "  - Why: `nerdctl run --privileged` can be used to compromise the system through",
        );
        reveal_strlit("         the use of privileged containers.");
        reveal_strlit("  - Suggestion: Don't share the docker socket with untrusted containers.");
        assert(lines[0].subrange(0, 4) =~= "  - "@);
        assert(lines[0].subrange(0, 8)[4] != "  - Why:"@[4]);
        assert(lines[0].subrange(0, 15)[4] != "  - Suggestion:"@[4]);
        assert(lines[1].subrange(0, 8) =~= "  - Why:"@);
        assert(lines[2].subrange(0, 3) =~= "   "@);
        assert(lines[3].subrange(0, 15) =~= "  - Suggestion:"@);
        assert(carries_on(lines[2]));
        assert(opens_with(lines[3], "  - Suggestion:"@));
    }
}

impl TestResult for ContainerDResult {
    /// A reachable control socket is an escalation path: absence passes.
    open spec fn verdict(&self) -> bool {
        !self.allowed
    }

    open spec fn label(&self) -> Seq<char> {
        if self.allowed {
            "usable"@
        } else {
            "not usable"@
        }
    }

    open spec fn explanation(&self) -> Seq<Seq<char>> {
        if !self.allowed {
            seq!["  + No usable containerd socket was found."@]
        } else {
            seq![
                "  - A usable containerd socket was found."@,
                "  - Why: `nerdctl run --privileged` can be used to compromise the system through"@,
                "         the use of privileged containers."@,
                "  - Suggestion: Don't share the docker socket with untrusted containers."@,
            ]
        }
    }

    fn success(&self) -> (passed: bool) {
        !self.allowed
    }

    fn explain(&self) -> (lines: Vec<String>) {
        let mut lines: Vec<String> = Vec::new();
        if !self.allowed {
            lines.push("  + No usable containerd socket was found.".to_string());
        } else {
            lines.push("  - A usable containerd socket was found.".to_string());
            lines.push(
                "  - Why: `nerdctl run --privileged` can be used to compromise the system through".to_string(),
            );
            lines.push("         the use of privileged containers.".to_string());
            lines.push(
                "  - Suggestion: Don't share the docker socket with untrusted containers.".to_string(),
            );
        }
        assert(texts(lines@) =~= self.explanation());
        proof {
            lemma_containerd_explanation_has_its_parts(*self);
        }
        lines
    }

    fn as_string(&self) -> (token: String) {
        if self.allowed {
            return "usable".to_string();
        }
        "not usable".to_string()
    }
}

} // verus!
