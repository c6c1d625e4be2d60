//! The probe for a hypervisor under the host, from CPU identification data.
//!
//! Four vendors are asked for in a fixed order: Xen, KVM, bhyve, Hyper-V.
//! Every one of them is asked, so where more than one should answer, the
//! last in that order names the outcome. Unlike a reachable socket, a
//! hypervisor is a barrier: finding one passes.
use vstd::prelude::*;
use vstd::string::*;
use crate::text::{opens_with, texts};
use crate::{carries_on, explains_verdict, Test, TestResult};

verus! {

/// The hypervisor products that the CPU's identification leaf can name. An
/// identity that is none of the known ones keeps its three registers.
#[derive(Clone, Copy, Debug, PartialEq, Eq, Structural)]
pub enum Hypervisor {
    Xen,
    VMware,
    HyperV,
    KVM,
    QEMU,
    Bhyve,
    QNX,
    ACRN,
    Unknown(u32, u32, u32),
}

pub struct HypervisorTest {}

/// The vendor that was found, or "unknown", and whether any was.
pub struct HypervisorResult {
    pub hypervisor: String,
    pub present: bool,
}

/// What was read of the CPU for one vendor's probe.
#[derive(Clone, Copy, Debug, PartialEq, Eq, Structural)]
pub struct CpuReading {
    /// Whether this architecture has CPU identification instructions.
    pub probeable: bool,
    /// The hypervisor bit of the standard feature flags; `None` where the
    /// flags were not read or the CPU does not offer them.
    pub hypervisor_flag: Option<bool>,
    /// The vendor named by the identification leaf; `None` where the leaf
    /// was not read or the CPU does not offer it.
    pub identity: Option<Hypervisor>,
}

/// Reads the CPU's standard feature flags with `raw_cpuid::CpuId::new` and
/// `CpuId::get_feature_info`, and takes the hypervisor bit from them with
/// `FeatureInfo::has_hypervisor`. `None` means that the CPU does not offer the
/// feature leaf. What comes back is the machine's answer: nothing is claimed
/// of it.
#[verifier::external_body]
fn cpu_hypervisor_flag() -> (flag: Option<bool>) {
    match raw_cpuid::CpuId::new().get_feature_info() {
        Some(features) => Some(features.has_hypervisor()),
        None => None,
    }
}

/// Reads the CPU's hypervisor identification leaf with
/// `raw_cpuid::CpuId::new` and `CpuId::get_hypervisor_info`, and names the
/// vendor with `HypervisorInfo::identify`, variant for variant. `None` means
/// that the CPU offers no such leaf. What comes back is the machine's answer:
/// nothing is claimed of it.
#[verifier::external_body]
fn cpu_hypervisor_identity() -> (identity: Option<Hypervisor>) {
    match raw_cpuid::CpuId::new().get_hypervisor_info() {
        Some(info) => Some(match info.identify() {
            raw_cpuid::Hypervisor::Xen => Hypervisor::Xen,
            raw_cpuid::Hypervisor::VMware => Hypervisor::VMware,
            raw_cpuid::Hypervisor::HyperV => Hypervisor::HyperV,
            raw_cpuid::Hypervisor::KVM => Hypervisor::KVM,
            raw_cpuid::Hypervisor::QEMU => Hypervisor::QEMU,
            raw_cpuid::Hypervisor::Bhyve => Hypervisor::Bhyve,
            raw_cpuid::Hypervisor::QNX => Hypervisor::QNX,
            raw_cpuid::Hypervisor::ACRN => Hypervisor::ACRN,
            raw_cpuid::Hypervisor::Unknown(ebx, ecx, edx) => Hypervisor::Unknown(ebx, ecx, edx),
        }),
        None => None,
    }
}

/// Whether the feature flags could be read and set the hypervisor bit.
pub fn hypervisor_flagged(flag: Option<bool>) -> (flagged: bool)
    ensures
        flagged == (flag == Some(true)),
{
    match flag {
        Some(set) => set,
        None => false,
    }
}

/// Whether the identification leaf was offered and names exactly `vendor`.
pub fn identity_matches(identity: Option<Hypervisor>, vendor: Hypervisor) -> (matched: bool)
    ensures
        matched == (identity == Some(vendor)),
{
    match identity {
        Some(found) => found == vendor,
        None => false,
    }
}

impl CpuReading {
    /// Whether the reading shows `vendor`: the CPU can be asked at all, its
    /// feature flags set the hypervisor bit, and its identification leaf
    /// names exactly this vendor.
    pub open spec fn names(self, vendor: Hypervisor) -> bool {
        &&& self.probeable
        &&& self.hypervisor_flag == Some(true)
        &&& self.identity == Some(vendor)
    }

    /// Whether the reading is one that `read_cpu` can give: nothing is read
    /// where the CPU cannot be asked, and the identification leaf is read
    /// only under a set hypervisor bit.
    pub open spec fn short_circuited(self) -> bool {
        &&& !self.probeable ==> self.hypervisor_flag is None
        &&& self.hypervisor_flag != Some(true) ==> self.identity is None
    }

    /// What the probe for `vendor` answers for this reading. It never fails.
    pub fn reports(&self, vendor: Hypervisor) -> (found: Result<bool, ()>)
        ensures
            found == Ok::<bool, ()>(self.names(vendor)),
    {
        if !self.probeable {
            return Ok(false);
        }
        if !hypervisor_flagged(self.hypervisor_flag) {
            return Ok(false);
        }
        Ok(identity_matches(self.identity, vendor))
    }
}

/// Reads the CPU for one probe. Where the architecture has no identification
/// instructions (`probeable` is false) nothing is read. Without the
/// hypervisor bit the identification leaf is not read.
pub fn read_cpu(probeable: bool) -> (reading: CpuReading)
    ensures
        reading.probeable == probeable,
        reading.short_circuited(),
{
    if !probeable {
        return CpuReading { probeable, hypervisor_flag: None, identity: None };
    }
    let hypervisor_flag = cpu_hypervisor_flag();
    if !hypervisor_flagged(hypervisor_flag) {
        return CpuReading { probeable, hypervisor_flag, identity: None };
    }
    CpuReading { probeable, hypervisor_flag, identity: cpu_hypervisor_identity() }
}

/// Whether the CPU reports Xen. Never fails; answers no where the CPU cannot
/// be asked.
pub fn xen_probe(probeable: bool) -> (found: Result<bool, ()>)
    ensures
        found is Ok,
        !probeable ==> found == Ok::<bool, ()>(false),
{
    read_cpu(probeable).reports(Hypervisor::Xen)
}

/// Whether the CPU reports KVM. Never fails; answers no where the CPU cannot
/// be asked.
pub fn kvm_probe(probeable: bool) -> (found: Result<bool, ()>)
    ensures
        found is Ok,
        !probeable ==> found == Ok::<bool, ()>(false),
{
    read_cpu(probeable).reports(Hypervisor::KVM)
}

/// Whether the CPU reports bhyve. Never fails; answers no where the CPU
/// cannot be asked.
pub fn bhyve_probe(probeable: bool) -> (found: Result<bool, ()>)
    ensures
        found is Ok,
        !probeable ==> found == Ok::<bool, ()>(false),
{
    read_cpu(probeable).reports(Hypervisor::Bhyve)
}

/// Whether the CPU reports Hyper-V. Never fails; answers no where the CPU
/// cannot be asked.
pub fn hyperv_probe(probeable: bool) -> (found: Result<bool, ()>)
    ensures
        found is Ok,
        !probeable ==> found == Ok::<bool, ()>(false),
{
    read_cpu(probeable).reports(Hypervisor::HyperV)
}

/// The name under which the answers of the four probes are reported: that of
/// the last vendor, in probing order, that answered yes.
pub open spec fn detected_vendor(xen: bool, kvm: bool, bhyve: bool, hyperv: bool) -> Seq<char> {
    if hyperv {
        "Hyper-V"@
    } else if bhyve {
        "bhyve"@
    } else if kvm {
        "KVM"@
    } else if xen {
        "Xen"@
    } else {
        "unknown"@
    }
}

/// Whether `vendor` is one of the four that the probe asks for.
pub open spec fn is_probed_vendor(vendor: Hypervisor) -> bool {
    ||| vendor == Hypervisor::Xen
    ||| vendor == Hypervisor::KVM
    ||| vendor == Hypervisor::Bhyve
    ||| vendor == Hypervisor::HyperV
}

/// The name under which a vendor is reported.
pub open spec fn vendor_name(vendor: Hypervisor) -> Seq<char> {
    match vendor {
        Hypervisor::Xen => "Xen"@,
        Hypervisor::KVM => "KVM"@,
        Hypervisor::Bhyve => "bhyve"@,
        Hypervisor::HyperV => "Hyper-V"@,
        _ => "unknown"@,
    }
}

impl CpuReading {
    /// Whether any of the four probes answers yes for this reading.
    pub open spec fn shows_hypervisor(self) -> bool {
        ||| self.names(Hypervisor::Xen)
        ||| self.names(Hypervisor::KVM)
        ||| self.names(Hypervisor::Bhyve)
        ||| self.names(Hypervisor::HyperV)
    }

    /// The name that the four probes report for this reading.
    pub open spec fn shown_vendor(self) -> Seq<char> {
        detected_vendor(
            self.names(Hypervisor::Xen),
            self.names(Hypervisor::KVM),
            self.names(Hypervisor::Bhyve),
            self.names(Hypervisor::HyperV),
        )
    }
}

/// A CPU that sets the hypervisor bit and carries the signature of one of
/// the four vendors is reported as virtualized, under that vendor's name.
pub proof fn lemma_signature_names_its_vendor(vendor: Hypervisor)
    requires
        is_probed_vendor(vendor),
    ensures
        ({
            let reading = CpuReading {
                probeable: true,
                hypervisor_flag: Some(true),
                identity: Some(vendor),
            };
            &&& reading.shows_hypervisor()
            &&& reading.shown_vendor() == vendor_name(vendor)
        }),
{
}

/// A reading names at most one vendor: two probes never both answer yes for
/// the same reading.
pub proof fn lemma_reading_names_one_vendor(reading: CpuReading, one: Hypervisor, other: Hypervisor)
    requires
        reading.names(one),
        reading.names(other),
    ensures
        one == other,
{
}

/// A CPU whose feature flags do not set the hypervisor bit is reported as
/// bare, whatever its identification leaf would say.
pub proof fn lemma_no_flag_no_hypervisor(reading: CpuReading)
    requires
        reading.hypervisor_flag != Some(true),
    ensures
        !reading.shows_hypervisor(),
        reading.shown_vendor() == "unknown"@,
{
}

/// A signature that is none of the four is not a match: the report is that
/// of a bare CPU.
pub proof fn lemma_foreign_signature_is_no_match(reading: CpuReading)
    requires
        reading.identity matches Some(vendor) ==> !is_probed_vendor(vendor),
    ensures
        !reading.shows_hypervisor(),
        reading.shown_vendor() == "unknown"@,
{
}

/// Where the architecture has no CPU identification instructions, no
/// hypervisor is reported, whatever state the CPU is taken to be in.
pub proof fn lemma_unprobeable_reports_absence(reading: CpuReading)
    requires
        !reading.probeable,
    ensures
        !reading.shows_hypervisor(),
        reading.shown_vendor() == "unknown"@,
{
}

/// What an outcome says follows from the vendor's name and the presence
/// flag alone: outcomes that agree in both agree in verdict, label and
/// explanation. The verdict and the label follow from the flag alone.
pub proof fn lemma_hypervisor_outcome_follows_evidence(one: HypervisorResult, other: HypervisorResult)
    requires
        one.present == other.present,
    ensures
        one.verdict() == other.verdict(),
        one.label() == other.label(),
        one.hypervisor@ == other.hypervisor@ ==> one.explanation() == other.explanation(),
        !one.present ==> one.explanation() == other.explanation(),
{
}

/// The five names under which an outcome is reported differ from each other,
/// so the name tells which vendor was found, and "unknown" that none was.
pub proof fn lemma_vendor_names_differ()
    ensures
        "unknown"@ != "Xen"@,
        "unknown"@ != "KVM"@,
        "unknown"@ != "bhyve"@,
        "unknown"@ != "Hyper-V"@,
        "Xen"@ != "KVM"@,
        "Xen"@ != "bhyve"@,
        "Xen"@ != "Hyper-V"@,
        "KVM"@ != "bhyve"@,
        "KVM"@ != "Hyper-V"@,
        "bhyve"@ != "Hyper-V"@,
{
    reveal_strlit("unknown");
    reveal_strlit("Xen");
    reveal_strlit("KVM");
    reveal_strlit("bhyve");
    reveal_strlit("Hyper-V");
    assert("unknown"@.len() == 7 && "unknown"@[0] == 'u');
    assert("Xen"@.len() == 3 && "Xen"@[0] == 'X');
    assert("KVM"@.len() == 3 && "KVM"@[0] == 'K');
    assert("bhyve"@.len() == 5);
    assert("Hyper-V"@.len() == 7 && "Hyper-V"@[0] == 'H');
}

impl HypervisorResult {
    /// Whether the outcome is one that the four probes can give: a known
    /// vendor found, or none and the name "unknown".
    pub open spec fn consistent(&self) -> bool {
        if self.present {
            ||| self.hypervisor@ == "Xen"@
            ||| self.hypervisor@ == "KVM"@
            ||| self.hypervisor@ == "bhyve"@
            ||| self.hypervisor@ == "Hyper-V"@
        } else {
            self.hypervisor@ == "unknown"@
        }
    }

    /// The outcome for the answers of the four vendor probes.
    pub fn from_probes(xen: bool, kvm: bool, bhyve: bool, hyperv: bool) -> (outcome:
        HypervisorResult)
        ensures
            outcome.present == (xen || kvm || bhyve || hyperv),
            outcome.hypervisor@ == detected_vendor(xen, kvm, bhyve, hyperv),
            outcome.consistent(),
    {
        let mut result = HypervisorResult { hypervisor: "unknown".to_string(), present: false };
        if xen {
            result.hypervisor = "Xen".to_string();
            result.present = true;
        }
        if kvm {
            result.hypervisor = "KVM".to_string();
            result.present = true;
        }
        if bhyve {
            result.hypervisor = "bhyve".to_string();
            result.present = true;
        }
        if hyperv {
            result.hypervisor = "Hyper-V".to_string();
            result.present = true;
        }
        result
    }
}

impl Default for HypervisorResult {
    fn default() -> (outcome: HypervisorResult)
        ensures
            !outcome.present,
            outcome.hypervisor@ == Seq::<char>::empty(),
    {
        HypervisorResult { hypervisor: String::new(), present: false }
    }
}

impl Test for HypervisorTest {
    type Observed = bool;

    type Outcome = HypervisorResult;

    open spec fn title(&self) -> Seq<char> {
        "whether we are running under a hypervisor"@
    }

    /// The outcome is one that the probes can give, and where the CPU cannot
    /// be asked it is that no hypervisor was found.
    open spec fn concludes(&self, seen: bool, outcome: HypervisorResult) -> bool {
        &&& outcome.consistent()
        &&& !seen ==> !outcome.present
    }

    fn name(&self) -> (description: String) {
        "whether we are running under a hypervisor".to_string()
    }

    /// `probeable` says whether this architecture has CPU identification
    /// instructions. The four vendors are asked in order, all of them.
    fn run(&self, probeable: bool) -> (ran: Result<HypervisorResult, ()>)
        ensures
            ran is Ok,
    {
        let xen = xen_probe(probeable)?;
        let kvm = kvm_probe(probeable)?;
        let bhyve = bhyve_probe(probeable)?;
        let hyperv = hyperv_probe(probeable)?;
        Ok(HypervisorResult::from_probes(xen, kvm, bhyve, hyperv))
    }
}

/// A missing hypervisor is explained in three parts, a found one is
/// confirmed in one line, whatever its name.
pub proof fn lemma_hypervisor_explanation_has_its_parts(outcome: HypervisorResult)
    ensures
        explains_verdict(outcome.verdict(), outcome.explanation()),
{
    let lines = outcome.explanation();
    reveal_strlit("  + ");
    reveal_strlit("   ");
    reveal_strlit("  - ");
    reveal_strlit("  - Why:");
    reveal_strlit("  - Suggestion:");
    if outcome.present {
        assert(lines[0].subrange(0, 4) =~= "  + "@);
    } else {
        reveal_strlit("  - No hypervisor detected.");
        reveal_strlit("  - Why: VM-based barriers provide the strongest isolation guarantees");
        reveal_strlit("         for workloads.");
        reveal_strlit("  - Suggestion: Use a hypervisor-based solution such as Edera Protect,");
        reveal_strlit("                Kata Containers or Firecracker.");
        assert(lines[0].subrange(0, 4) =~= "  - "@);
        assert(lines[0].subrange(0, 8)[4] != "  - Why:"@[4]);
        assert(lines[0].subrange(0, 15)[4] != "  - Suggestion:"@[4]);
        assert(lines[1].subrange(0, 8) =~= "  - Why:"@);
        assert(lines[2].subrange(0, 3) =~= "   "@);
        assert(lines[3].subrange(0, 15) =~= "  - Suggestion:"@);
        assert(lines[4].subrange(0, 3) =~= "   "@);
        assert(carries_on(lines[2]));
        assert(carries_on(lines[4]));
        assert(opens_with(lines[3], "  - Suggestion:"@));
    }
}

impl TestResult for HypervisorResult {
    /// A hypervisor under the host is a hardening feature: presence passes.
    open spec fn verdict(&self) -> bool {
        self.present
    }

    open spec fn label(&self) -> Seq<char> {
        if self.present {
            "present"@
        } else {
            "not present"@
        }
    }

    open spec fn explanation(&self) -> Seq<Seq<char>> {
        if !self.present {
            seq![
                "  - No hypervisor detected."@,
                "  - Why: VM-based barriers provide the strongest isolation guarantees"@,
                "         for workloads."@,
                "  - Suggestion: Use a hypervisor-based solution such as Edera Protect,"@,
                "                Kata Containers or Firecracker."@,
            ]
        } else {
            seq!["  + "@ + self.hypervisor@ + " hypervisor control surface detected."@]
        }
    }

    fn success(&self) -> (passed: bool) {
        self.present
    }

    fn explain(&self) -> (lines: Vec<String>) {
        let mut lines: Vec<String> = Vec::new();
        if !self.present {
            lines.push("  - No hypervisor detected.".to_string());
            lines.push(
                "  - Why: VM-based barriers provide the strongest isolation guarantees".to_string(),
            );
            lines.push("         for workloads.".to_string());
            lines.push(
                "  - Suggestion: Use a hypervisor-based solution such as Edera Protect,".to_string(),
            );
            lines.push("                Kata Containers or Firecracker.".to_string());
        } else {
            let mut line = "  + ".to_string();
            line.append(self.hypervisor.as_str());
            line.append(" hypervisor control surface detected.");
            lines.push(line);
        }
        assert(texts(lines@) =~= self.explanation());
        proof {
            lemma_hypervisor_explanation_has_its_parts(*self);
        }
        lines
    }

    fn as_string(&self) -> (token: String) {
        if self.present {
            return "present".to_string();
        }
        "not present".to_string()
    }
}

} // verus!
