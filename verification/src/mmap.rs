//! The probe for memory mappings that are writable and executable at once.
use vstd::prelude::*;
use vstd::string::*;
use crate::text::{opens_with, texts};
use crate::{carries_on, explains_verdict, Test, TestResult};

verus! {

pub struct MmapRWXTest {}

/// Whether the operating system granted a read-write-execute mapping.
pub struct MmapRWXResult {
    pub allowed: bool,
}

impl Default for MmapRWXResult {
    fn default() -> (outcome: MmapRWXResult)
        ensures
            !outcome.allowed,
    {
        MmapRWXResult { allowed: false }
    }
}

impl Test for MmapRWXTest {
    type Observed = bool;

    type Outcome = MmapRWXResult;

    open spec fn title(&self) -> Seq<char> {
        "whether RWX memory mappings are allowed"@
    }

    /// Such mappings are allowed exactly when the request was granted.
    open spec fn concludes(&self, seen: bool, outcome: MmapRWXResult) -> bool {
        outcome.allowed == seen
    }

    fn name(&self) -> (description: String) {
        "whether RWX memory mappings are allowed".to_string()
    }

    /// `granted` says whether the operating system handed out an anonymous
    /// mapping with read, write and execute protection. The caller has
    /// released the mapping again.
    fn run(&self, granted: bool) -> (ran: Result<MmapRWXResult, ()>)
        ensures
            ran == Ok::<MmapRWXResult, ()>(MmapRWXResult { allowed: granted }),
    {
        let mut result = MmapRWXResult { allowed: false };
        if granted {
            result.allowed = true;
        }
        Ok(result)
    }
}

/// A granted mapping is explained in three parts, a refused one is confirmed
/// in one line.
pub proof fn lemma_mmap_explanation_has_its_parts(outcome: MmapRWXResult)
    ensures
        explains_verdict(outcome.verdict(), outcome.explanation()),
{
    let lines = outcome.explanation();
    reveal_strlit("  + ");
    reveal_strlit("   ");
    reveal_strlit("  - ");
    reveal_strlit("  - Why:");
    reveal_strlit("  - Suggestion:");
    if !outcome.allowed {
        reveal_strlit("  + RWX memory mappings are not allowed.");
        assert(lines[0].subrange(0, 4) =~= "  + "@);
    } else {
        reveal_strlit("  - RWX memory mappings are allowed.");
        reveal_strlit(
            "  - Why: RWX and WX memory mappings can be abused as part of a larger memory",
        );
        reveal_strlit("         safety attack chain.");
        reveal_strlit(
            "  - Suggestion: Deploy the OpenPaX kernel patch for memory safety mitigations.",
        );
        assert(lines[0].subrange(0, 4) =~= "  - "@);
        assert(lines[0].subrange(0, 8)[4] != "  - Why:"@[4]);
        assert(lines[0].subrange(0, 15)[4] != "  - Suggestion:"@[4]);
        assert(lines[1].subrange(0, 8) =~= "  - Why:"@);
        assert(lines[2].subrange(0, 3) =~= "   "@);
        assert(lines[3].subrange(0, 15) =~= "  - Suggestion:"@);
        assert(carries_on(lines[2]));
        assert(opens_with(lines[3], "  - Suggestion:"@));
    }
}

impl TestResult for MmapRWXResult {
    /// A mapping that is writable and executable serves an attacker:
    /// refusal passes.
    open spec fn verdict(&self) -> bool {
        !self.allowed
    }

    open spec fn label(&self) -> Seq<char> {
        if self.allowed {
            "allowed"@
        } else {
            "not allowed"@
        }
    }

    open spec fn explanation(&self) -> Seq<Seq<char>> {
        if !self.allowed {
            seq!["  + RWX memory mappings are not allowed."@]
        } else {
            seq![
                "  - RWX memory mappings are allowed."@,
                "  - Why: RWX and WX memory mappings can be abused as part of a larger memory"@,
                "         safety attack chain."@,
                "  - Suggestion: Deploy the OpenPaX kernel patch for memory safety mitigations."@,
            ]
        }
    }

    fn success(&self) -> (passed: bool) {
        !self.allowed
    }

    fn explain(&self) -> (lines: Vec<String>) {
        let mut lines: Vec<String> = Vec::new();
        if !self.allowed {
            lines.push("  + RWX memory mappings are not allowed.".to_string());
        } else {
            lines.push("  - RWX memory mappings are allowed.".to_string());
            lines.push(
                "  - Why: RWX and WX memory mappings can be abused as part of a larger memory".to_string(),
            );
            lines.push("         safety attack chain.".to_string());
            lines.push(
                "  - Suggestion: Deploy the OpenPaX kernel patch for memory safety mitigations.".to_string(),
            );
        }
        assert(texts(lines@) =~= self.explanation());
        proof {
            lemma_mmap_explanation_has_its_parts(*self);
        }
        lines
    }

    fn as_string(&self) -> (token: String) {
        if self.allowed {
            return "allowed".to_string();
        }
        "not allowed".to_string()
    }
}

} // verus!
