//! The probe for the Yama security module, from the kernel's symbol listing.
use vstd::prelude::*;
use vstd::string::*;
use vstd::utf8::encode_utf8;
use crate::text::{contains_bytes, occurs_in, opens_with, texts};
use crate::{explains_verdict, Test, TestResult};

verus! {

pub struct YamaTest {}

/// Whether the listing names the module.
pub struct YamaResult {
    pub present: bool,
}

impl Default for YamaResult {
    fn default() -> (outcome: YamaResult)
        ensures
            !outcome.present,
    {
        YamaResult { present: false }
    }
}

/// Whether the encoded text of `line` holds that of `symbol` somewhere.
pub open spec fn line_names(line: Seq<char>, symbol: Seq<char>) -> bool {
    occurs_in(encode_utf8(line), encode_utf8(symbol))
}

/// Whether some line of the listing holds the module's symbol.
pub open spec fn module_listed(lines: Seq<String>) -> bool {
    exists|i: int| 0 <= i < lines.len() && #[trigger] line_names(lines[i]@, "yama_lsmid"@)
}

/// Whether the module shows in what was read of the listing. A listing that
/// could not be read shows nothing.
pub open spec fn module_found(listing: Result<Vec<String>, ()>) -> bool {
    listing matches Ok(lines) && module_listed(lines@)
}

/// Whether `line` holds `symbol` anywhere.
pub fn mentions(line: &str, symbol: &str) -> (found: bool)
    ensures
        found == line_names(line@, symbol@),
{
    contains_bytes(line.as_bytes(), symbol.as_bytes())
}

impl Test for YamaTest {
    type Observed = Result<Vec<String>, ()>;

    type Outcome = YamaResult;

    open spec fn title(&self) -> Seq<char> {
        "whether the Yama LSM is present"@
    }

    /// The module is present exactly when the listing was read and names it.
    open spec fn concludes(&self, seen: Result<Vec<String>, ()>, outcome: YamaResult) -> bool {
        outcome.present == module_found(seen)
    }

    fn name(&self) -> (description: String) {
        "whether the Yama LSM is present".to_string()
    }

    /// `listing` holds the lines of the kernel's exported-symbol table, or
    /// `Err` where the table could not be read. An unreadable table is a
    /// finding, not a failure.
    fn run(&self, listing: Result<Vec<String>, ()>) -> (ran: Result<YamaResult, ()>)
        ensures
            ran == Ok::<YamaResult, ()>(YamaResult { present: module_found(listing) }),
    {
        let mut result = YamaResult { present: false };
        if let Ok(lines) = listing {
            let mut i: usize = 0;
            while i < lines.len()
                invariant
                    i <= lines@.len(),
                    result.present == exists|k: int|
                        0 <= k < i && #[trigger] line_names(lines@[k]@, "yama_lsmid"@),
                decreases lines@.len() - i,
            {
                if mentions(lines[i].as_str(), "yama_lsmid") {
                    result.present = true;
                }
                i += 1;
            }
        }
        Ok(result)
    }
}

/// A missing module is explained in three parts, a listed one is confirmed
/// in one line.
pub proof fn lemma_yama_explanation_has_its_parts(outcome: YamaResult)
    ensures
        explains_verdict(outcome.verdict(), outcome.explanation()),
{
    let lines = outcome.explanation();
    reveal_strlit("  + ");
    reveal_strlit("  - ");
    reveal_strlit("  - Why:");
    reveal_strlit("  - Suggestion:");
    if outcome.present {
        reveal_strlit("  + Yama LSM is present.");
        assert(lines[0].subrange(0, 4) =~= "  + "@);
    } else {
        reveal_strlit("  - Yama LSM is not present.");
        reveal_strlit("  - Why: Yama LSM prevents several types of ptrace-based container escapes.");
        reveal_strlit("  - Suggestion: Use a kernel with Yama LSM enabled.");
        assert(lines[0].subrange(0, 4) =~= "  - "@);
        assert(lines[0].subrange(0, 8)[4] != "  - Why:"@[4]);
        assert(lines[0].subrange(0, 15)[4] != "  - Suggestion:"@[4]);
        assert(lines[1].subrange(0, 8) =~= "  - Why:"@);
        assert(lines[2].subrange(0, 15) =~= "  - Suggestion:"@);
        assert(opens_with(lines[2], "  - Suggestion:"@));
    }
}

impl TestResult for YamaResult {
    /// The module blocks ptrace-based escapes: presence passes.
    open spec fn verdict(&self) -> bool {
        self.present
    }

    open spec fn label(&self) -> Seq<char> {
        if self.present {
            "present"@
        } else {
            "not present"@
        }
    }

    open spec fn explanation(&self) -> Seq<Seq<char>> {
        if self.present {
            seq!["  + Yama LSM is present."@]
        } else {
            seq![
                "  - Yama LSM is not present."@,
                "  - Why: Yama LSM prevents several types of ptrace-based container escapes."@,
                "  - Suggestion: Use a kernel with Yama LSM enabled."@,
            ]
        }
    }

    fn success(&self) -> (passed: bool) {
        self.present
    }

    fn explain(&self) -> (lines: Vec<String>) {
        let mut lines: Vec<String> = Vec::new();
        if self.present {
            lines.push("  + Yama LSM is present.".to_string());
        } else {
            lines.push("  - Yama LSM is not present.".to_string());
            lines.push(
                "  - Why: Yama LSM prevents several types of ptrace-based container escapes.".to_string(),
            );
            lines.push("  - Suggestion: Use a kernel with Yama LSM enabled.".to_string());
        }
        assert(texts(lines@) =~= self.explanation());
        proof {
            lemma_yama_explanation_has_its_parts(*self);
        }
        lines
    }

    fn as_string(&self) -> (token: String) {
        if self.present {
            return "present".to_string();
        }
        "not present".to_string()
    }
}

} // verus!
