//! The probe for a reachable container-engine control socket.
use vstd::prelude::*;
use vstd::string::*;
use crate::text::{opens_with, texts};
use crate::{carries_on, explains_verdict, Test, TestResult};

verus! {

pub struct DockerTest {}

/// Whether a connection to the engine's socket could be made.
pub struct DockerResult {
    pub allowed: bool,
}

impl Default for DockerResult {
    fn default() -> (outcome: DockerResult)
        ensures
            !outcome.allowed,
    {
        DockerResult { allowed: false }
    }
}

impl Test for DockerTest {
    type Observed = bool;

    type Outcome = DockerResult;

    open spec fn title(&self) -> Seq<char> {
        "for docker socket"@
    }

    /// The socket is usable exactly when the connection attempt succeeded.
    open spec fn concludes(&self, seen: bool, outcome: DockerResult) -> bool {
        outcome.allowed == seen
    }

    fn name(&self) -> (description: String) {
        "for docker socket".to_string()
    }

    /// `connected` says whether a connection to the engine's socket succeeded.
    fn run(&self, connected: bool) -> (ran: Result<DockerResult, ()>)
        ensures
            ran == Ok::<DockerResult, ()>(DockerResult { allowed: connected }),
    {
        let mut result = DockerResult { allowed: false };
        if connected {
            result.allowed = true;
        }
        Ok(result)
    }
}

/// A reachable socket is explained in three parts, an unreachable one is
/// confirmed in one line.
pub proof fn lemma_docker_explanation_has_its_parts(outcome: DockerResult)
    ensures
        explains_verdict(outcome.verdict(), outcome.explanation()),
{
    let lines = outcome.explanation();
    reveal_strlit("  + ");
    reveal_strlit("   ");
    reveal_strlit("  - ");
    reveal_strlit("  - Why:");
    reveal_strlit("  - Suggestion:");
    if !outcome.allowed {
        reveal_strlit("  + No usable docker socket was found.");
        assert(lines[0].subrange(0, 4) =~= "  + "@);
    } else {
        reveal_strlit("  - A usable docker socket was found.");
        reveal_strlit(
            "  - Why: `docker run --privileged` can be used to compromise the system through",
        );
        reveal_strlit("         the use of privileged containers.");
        reveal_strlit("  - Suggestion: Don't share the docker socket with untrusted containers.");
        assert(lines[0].subrange(0, 4) =~= "  - "@);
        assert(lines[0].subrange(0, 8)[4] != "  - Why:"@[4]);
        assert(lines[0].subrange(0, 15)[4] != "  - Suggestion:"@[4]);
        assert(lines[1].subrange(0, 8) =~= "  - Why:"@);
        assert(lines[2].subrange(0, 3) =~= "   "@);
        assert(lines[3].subrange(0, 15) =~= "  - Suggestion:"@);
        assert(carries_on(lines[2]));
        assert(opens_with(lines[3], "  - Suggestion:"@));
    }
}

impl TestResult for DockerResult {
    /// A reachable control socket is an escalation path: absence passes.
    open spec fn verdict(&self) -> bool {
        !self.allowed
    }

    open spec fn label(&self) -> Seq<char> {
        if self.allowed {
            "usable"@
        } else {
            "not usable"@
        }
    }

    open spec fn explanation(&self) -> Seq<Seq<char>> {
        if !self.allowed {
            seq!["  + No usable docker socket was found."@]
        } else {
            seq![
                "  - A usable docker socket was found."@,
                "  - Why: `docker run --privileged` can be used to compromise the system through"@,
                "         the use of privileged containers."@,
                "  - Suggestion: Don't share the docker socket with untrusted containers."@,
            ]
        }
    }

    fn success(&self) -> (passed: bool) {
        !self.allowed
    }

    fn explain(&self) -> (lines: Vec<String>) {
        let mut lines: Vec<String> = Vec::new();
        if !self.allowed {
            lines.push("  + No usable docker socket was found.".to_string());
        } else {
            lines.push("  - A usable docker socket was found.".to_string());
            lines.push(
                "  - Why: `docker run --privileged` can be used to compromise the system through".to_string(),
            );
            lines.push("         the use of privileged containers.".to_string());
            lines.push(
                "  - Suggestion: Don't share the docker socket with untrusted containers.".to_string(),
            );
        }
        assert(texts(lines@) =~= self.explanation());
        proof {
            lemma_docker_explanation_has_its_parts(*self);
        }
        lines
    }

    fn as_string(&self) -> (token: String) {
        if self.allowed {
            return "usable".to_string();
        }
        "not usable".to_string()
    }
}

} // verus!
