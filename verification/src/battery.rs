//! The closed set of probes, as one probe: what each of them has to be told
//! of the host, what each of them concludes, and the order in which they
//! run.
use vstd::prelude::*;
use crate::containerd::{ContainerDResult, ContainerDTest};
use crate::docker::{DockerResult, DockerTest};
use crate::hvdetect::{HypervisorResult, HypervisorTest};
use crate::mmap::{MmapRWXResult, MmapRWXTest};
use crate::yama::{YamaResult, YamaTest};
use crate::{Test, TestResult};

verus! {

/// The probes of the battery.
#[derive(Clone, Copy, Debug, PartialEq, Eq, Structural)]
pub enum Probe {
    Docker,
    ContainerD,
    Hypervisor,
    MmapRWX,
    Yama,
}

/// What was observed of the host for one probe.
pub enum Observation {
    /// Whether a connection to the probed socket could be made.
    Connection(bool),
    /// Whether this architecture has CPU identification instructions.
    Architecture(bool),
    /// Whether the operating system granted a read-write-execute mapping.
    Mapping(bool),
    /// The lines of the kernel's exported-symbol table, or `Err` where the
    /// table could not be read.
    SymbolTable(Result<Vec<String>, ()>),
}

/// The outcome of one probe of the battery.
pub enum ProbeOutcome {
    Docker(DockerResult),
    ContainerD(ContainerDResult),
    Hypervisor(HypervisorResult),
    MmapRWX(MmapRWXResult),
    Yama(YamaResult),
}

/// The battery in registration order: the two sockets, the hypervisor, the
/// memory mapping, the security module.
pub open spec fn registration_order() -> Seq<Probe> {
    seq![Probe::Docker, Probe::ContainerD, Probe::Hypervisor, Probe::MmapRWX, Probe::Yama]
}

/// The probes that a scan runs, in the order in which it runs them.
pub fn battery() -> (probes: Vec<Probe>)
    ensures
        probes@ == registration_order(),
{
    let mut probes: Vec<Probe> = Vec::new();
    probes.push(Probe::Docker);
    probes.push(Probe::ContainerD);
    probes.push(Probe::Hypervisor);
    probes.push(Probe::MmapRWX);
    probes.push(Probe::Yama);
    assert(probes@ =~= registration_order());
    probes
}

impl Probe {
    /// Whether `seen` is the kind of observation that the probe judges.
    pub open spec fn accepts(self, seen: Observation) -> bool {
        match self {
            Probe::Docker => seen is Connection,
            Probe::ContainerD => seen is Connection,
            Probe::Hypervisor => seen is Architecture,
            Probe::MmapRWX => seen is Mapping,
            Probe::Yama => seen is SymbolTable,
        }
    }
}

impl Test for Probe {
    type Observed = Observation;

    type Outcome = ProbeOutcome;

    open spec fn title(&self) -> Seq<char> {
        match self {
            Probe::Docker => (DockerTest {}).title(),
            Probe::ContainerD => (ContainerDTest {}).title(),
            Probe::Hypervisor => (HypervisorTest {}).title(),
            Probe::MmapRWX => (MmapRWXTest {}).title(),
            Probe::Yama => (YamaTest {}).title(),
        }
    }

    /// The outcome belongs to this probe and is what it concludes from an
    /// observation of its kind.
    open spec fn concludes(&self, seen: Observation, outcome: ProbeOutcome) -> bool {
        match (*self, seen, outcome) {
            (Probe::Docker, Observation::Connection(connected), ProbeOutcome::Docker(found)) => {
                (DockerTest {}).concludes(connected, found)
            },
            (
                Probe::ContainerD,
                Observation::Connection(connected),
                ProbeOutcome::ContainerD(found),
            ) => (ContainerDTest {}).concludes(connected, found),
            (
                Probe::Hypervisor,
                Observation::Architecture(probeable),
                ProbeOutcome::Hypervisor(found),
            ) => (HypervisorTest {}).concludes(probeable, found),
            (Probe::MmapRWX, Observation::Mapping(granted), ProbeOutcome::MmapRWX(found)) => {
                (MmapRWXTest {}).concludes(granted, found)
            },
            (Probe::Yama, Observation::SymbolTable(listing), ProbeOutcome::Yama(found)) => {
                (YamaTest {}).concludes(listing, found)
            },
            _ => false,
        }
    }

    fn name(&self) -> (description: String) {
        match self {
            Probe::Docker => (DockerTest {}).name(),
            Probe::ContainerD => (ContainerDTest {}).name(),
            Probe::Hypervisor => (HypervisorTest {}).name(),
            Probe::MmapRWX => (MmapRWXTest {}).name(),
            Probe::Yama => (YamaTest {}).name(),
        }
    }

    /// Judges what was seen. A probe that is handed an observation of
    /// another kind cannot be carried out.
    fn run(&self, seen: Observation) -> (ran: Result<ProbeOutcome, ()>)
        ensures
            ran is Ok <==> self.accepts(seen),
    {
        match (*self, seen) {
            (Probe::Docker, Observation::Connection(connected)) => {
                match (DockerTest {}).run(connected) {
                    Ok(found) => Ok(ProbeOutcome::Docker(found)),
                    Err(failure) => Err(failure),
                }
            },
            (Probe::ContainerD, Observation::Connection(connected)) => {
                match (ContainerDTest {}).run(connected) {
                    Ok(found) => Ok(ProbeOutcome::ContainerD(found)),
                    Err(failure) => Err(failure),
                }
            },
            (Probe::Hypervisor, Observation::Architecture(probeable)) => {
                match (HypervisorTest {}).run(probeable) {
                    Ok(found) => Ok(ProbeOutcome::Hypervisor(found)),
                    Err(failure) => Err(failure),
                }
            },
            (Probe::MmapRWX, Observation::Mapping(granted)) => {
                match (MmapRWXTest {}).run(granted) {
                    Ok(found) => Ok(ProbeOutcome::MmapRWX(found)),
                    Err(failure) => Err(failure),
                }
            },
            (Probe::Yama, Observation::SymbolTable(listing)) => {
                match (YamaTest {}).run(listing) {
                    Ok(found) => Ok(ProbeOutcome::Yama(found)),
                    Err(failure) => Err(failure),
                }
            },
            _ => Err(()),
        }
    }
}

impl TestResult for ProbeOutcome {
    /// The verdict of the outcome that is held, under its own polarity.
    open spec fn verdict(&self) -> bool {
        match self {
            ProbeOutcome::Docker(found) => found.verdict(),
            ProbeOutcome::ContainerD(found) => found.verdict(),
            ProbeOutcome::Hypervisor(found) => found.verdict(),
            ProbeOutcome::MmapRWX(found) => found.verdict(),
            ProbeOutcome::Yama(found) => found.verdict(),
        }
    }

    open spec fn label(&self) -> Seq<char> {
        match self {
            ProbeOutcome::Docker(found) => found.label(),
            ProbeOutcome::ContainerD(found) => found.label(),
            ProbeOutcome::Hypervisor(found) => found.label(),
            ProbeOutcome::MmapRWX(found) => found.label(),
            ProbeOutcome::Yama(found) => found.label(),
        }
    }

    open spec fn explanation(&self) -> Seq<Seq<char>> {
        match self {
            ProbeOutcome::Docker(found) => found.explanation(),
            ProbeOutcome::ContainerD(found) => found.explanation(),
            ProbeOutcome::Hypervisor(found) => found.explanation(),
            ProbeOutcome::MmapRWX(found) => found.explanation(),
            ProbeOutcome::Yama(found) => found.explanation(),
        }
    }

    fn success(&self) -> (passed: bool) {
        match self {
            ProbeOutcome::Docker(found) => found.success(),
            ProbeOutcome::ContainerD(found) => found.success(),
            ProbeOutcome::Hypervisor(found) => found.success(),
            ProbeOutcome::MmapRWX(found) => found.success(),
            ProbeOutcome::Yama(found) => found.success(),
        }
    }

    fn explain(&self) -> (lines: Vec<String>) {
        match self {
            ProbeOutcome::Docker(found) => found.explain(),
            ProbeOutcome::ContainerD(found) => found.explain(),
            ProbeOutcome::Hypervisor(found) => found.explain(),
            ProbeOutcome::MmapRWX(found) => found.explain(),
            ProbeOutcome::Yama(found) => found.explain(),
        }
    }

    fn as_string(&self) -> (token: String) {
        match self {
            ProbeOutcome::Docker(found) => found.as_string(),
            ProbeOutcome::ContainerD(found) => found.as_string(),
            ProbeOutcome::Hypervisor(found) => found.as_string(),
            ProbeOutcome::MmapRWX(found) => found.as_string(),
            ProbeOutcome::Yama(found) => found.as_string(),
        }
    }
}

} // verus!
