//! One diagnostic run, with its ordering discipline made checkable.
//!
//! The run is strictly sequential: probe the topology, open every core's
//! device node, apply the one-way privilege restriction, then read and
//! decode.  The `Session` type carries that discipline as state: opening
//! demands that the restriction has not been applied yet, the restriction
//! is a one-way transition that no operation reverses, and the reads come
//! last.  The restriction itself is an OS mechanism; what this module
//! proves is the plan — which descriptors keep which one operation — and
//! the order around it.

use vstd::prelude::*;

use crate::backend;
use crate::cpuctl;
use crate::decode;
use crate::decode::DecodedState;
use crate::errors::Error;

verus! {

/// The state of one run: the probed topology, the descriptors opened so
/// far in ascending core order, and whether the one-way privilege
/// restriction has been applied.
pub struct Session {
    cores: usize,
    threads_per_core: usize,
    fds: Vec<i32>,
    restricted: bool,
}

/// What stays permitted once the restriction is applied: each listed
/// descriptor keeps exactly the device-control operation category,
/// narrowed to the listed operation codes, and the process may acquire no
/// new resource or capability.  Executing the plan is the platform layer's
/// duty; on platforms without the mechanism it is a documented no-op.
pub struct RestrictionPlan {
    pub fds: Vec<i32>,
    pub ioctl_codes: Vec<u64>,
}

/// The raw register value of every core beside what it decodes to, both in
/// ascending core order.
pub struct Report {
    pub raw: Vec<u64>,
    pub decoded: Vec<DecodedState>,
}

impl Session {
    /// The probed physical core count.
    pub closed spec fn spec_cores(&self) -> usize {
        self.cores
    }

    /// The probed hardware threads per core.
    pub closed spec fn spec_threads_per_core(&self) -> usize {
        self.threads_per_core
    }

    /// The descriptors opened so far, core 0 first.
    pub closed spec fn spec_fds(&self) -> Seq<i32> {
        self.fds@
    }

    /// Whether the one-way privilege restriction has been applied.
    pub closed spec fn spec_restricted(&self) -> bool {
        self.restricted
    }

    /// A well-formed run has a positive topology whose highest thread
    /// index is representable.
    pub closed spec fn wf(&self) -> bool {
        self.cores >= 1 && self.threads_per_core >= 1 && self.cores * self.threads_per_core
            <= usize::MAX
    }

    /// Starts a run for a probed topology, unrestricted and with no handle
    /// open yet.
    pub fn new(cores: usize, threads_per_core: usize) -> (s: Session)
        requires
            cores >= 1,
            threads_per_core >= 1,
            cores * threads_per_core <= usize::MAX,
        ensures
            s.wf(),
            s.spec_cores() == cores,
            s.spec_threads_per_core() == threads_per_core,
            s.spec_fds() =~= Seq::<i32>::empty(),
            !s.spec_restricted(),
    {
        Session { cores, threads_per_core, fds: Vec::new(), restricted: false }
    }

    /// The probed physical core count; report order is ascending core
    /// index up to it.
    pub fn core_count(&self) -> (n: usize)
        ensures
            n == self.spec_cores(),
    {
        self.cores
    }

    /// The probed hardware threads per core.
    pub fn threads_per_core(&self) -> (n: usize)
        ensures
            n == self.spec_threads_per_core(),
    {
        self.threads_per_core
    }

    /// How many descriptors the run has opened so far.
    pub fn handle_count(&self) -> (n: usize)
        ensures
            n == self.spec_fds().len(),
    {
        self.fds.len()
    }

    /// Core `c`'s descriptor, the `c`-th opened.
    pub fn handle_at(&self, c: usize) -> (fd: i32)
        requires
            c < self.spec_fds().len(),
        ensures
            fd == self.spec_fds()[c as int],
    {
        self.fds[c]
    }

    /// Whether the run may still open device nodes: exactly until the
    /// restriction is applied.
    pub fn can_open(&self) -> (b: bool)
        ensures
            b == !self.spec_restricted(),
    {
        !self.restricted
    }
}

/// Hands a freshly opened descriptor to the run, as the next core's, in
/// ascending core order.  Admissible only before the restriction: a
/// restricted run holds every handle it will ever hold.
pub fn register_handle(s: &mut Session, fd: i32)
    requires
        !old(s).spec_restricted(),
    ensures
        final(s).wf() == old(s).wf(),
        !final(s).spec_restricted(),
        final(s).spec_cores() == old(s).spec_cores(),
        final(s).spec_threads_per_core() == old(s).spec_threads_per_core(),
        final(s).spec_fds() =~= old(s).spec_fds().push(fd),
{
    s.fds.push(fd);
}

/// Opens the register device node of every physical core, in ascending
/// core order, each at the first logical thread of its core.  This must
/// precede the privilege restriction — the restriction forecloses opening
/// anything new — and the precondition makes a run that has been
/// restricted unable to reach this at all.  Any failed open is fatal.
pub fn open_cpus(s: &mut Session) -> (r: Result<(), Error>)
    requires
        old(s).wf(),
        !old(s).spec_restricted(),
        old(s).spec_fds().len() == 0,
    ensures
        final(s).wf(),
        !final(s).spec_restricted(),
        final(s).spec_cores() == old(s).spec_cores(),
        final(s).spec_threads_per_core() == old(s).spec_threads_per_core(),
        final(s).spec_fds().len() <= old(s).spec_cores(),
        r is Ok ==> final(s).spec_fds().len() == old(s).spec_cores(),
        r is Err ==> r == Err::<(), Error>(Error::OpenFailed),
        r is Err ==> final(s).spec_fds().len() < old(s).spec_cores(),
{
    let cores = s.cores;
    let threads_per_core = s.threads_per_core;
    let mut core: usize = 0;
    while core < cores
        invariant
            s.wf(),
            !s.spec_restricted(),
            s.spec_cores() == old(s).spec_cores(),
            s.spec_threads_per_core() == old(s).spec_threads_per_core(),
            cores == s.spec_cores(),
            threads_per_core == s.spec_threads_per_core(),
            core <= cores,
            s.spec_fds().len() == core,
        decreases cores - core,
    {
        proof {
            assert(core * threads_per_core <= cores * threads_per_core) by (nonlinear_arith)
                requires
                    core <= cores,
                    threads_per_core >= 0,
            ;
        }
        let t = backend::thread_index(core, threads_per_core);
        match backend::open_cpu(t) {
            Ok(fd) => {
                register_handle(s, fd);
            },
            Err(_) => {
                return Err(Error::OpenFailed);
            },
        }
        core = core + 1;
    }
    Ok(())
}

/// Applies the one-way privilege restriction to the run.  It must follow
/// every open — its precondition admits no restricted run to `open_cpus`
/// again — and from here on the run is restricted for good: no operation
/// of this module clears the mark.  The returned plan narrows each open
/// descriptor to the device-control category with exactly the one
/// register-read code, and forecloses acquiring anything new; a platform
/// layer that cannot apply some step of it must treat that as fatal, since
/// partial restriction is no safer than none.
pub fn sandbox(s: &mut Session) -> (p: RestrictionPlan)
    requires
        old(s).wf(),
        !old(s).spec_restricted(),
    ensures
        final(s).wf(),
        final(s).spec_restricted(),
        final(s).spec_cores() == old(s).spec_cores(),
        final(s).spec_threads_per_core() == old(s).spec_threads_per_core(),
        final(s).spec_fds() =~= old(s).spec_fds(),
        p.fds@ =~= old(s).spec_fds(),
        p.ioctl_codes@.len() == 1,
        p.ioctl_codes@[0] == cpuctl::CPUCTL_RDMSR,
{
    let mut fds: Vec<i32> = Vec::new();
    let n = s.fds.len();
    let mut i: usize = 0;
    while i < n
        invariant
            n == s.spec_fds().len(),
            i <= n,
            fds@ =~= s.spec_fds().take(i as int),
        decreases n - i,
    {
        fds.push(s.fds[i]);
        proof {
            assert(fds@ =~= s.spec_fds().take(i + 1 as int));
        }
        i = i + 1;
    }
    proof {
        assert(s.spec_fds().take(n as int) =~= s.spec_fds());
    }
    let mut ioctl_codes: Vec<u64> = Vec::new();
    ioctl_codes.push(cpuctl::cpuctl_rdmsr_code());
    s.restricted = true;
    RestrictionPlan { fds, ioctl_codes }
}

/// Reads the power-state status register of every open descriptor, in
/// ascending core order: entry `c` of the result came through core `c`'s
/// descriptor.  Any rejected or short read is fatal; no partial result
/// leaves this function.
pub fn read_all(s: &Session) -> (r: Result<Vec<u64>, Error>)
    ensures
        s.spec_fds().len() == 0 ==> r is Ok,
        r matches Ok(v) ==> v@.len() == s.spec_fds().len(),
        r is Err ==> (r == Err::<Vec<u64>, Error>(Error::ReadFailed)
            || r == Err::<Vec<u64>, Error>(Error::ShortRead)),
{
    let n = s.fds.len();
    let mut vals: Vec<u64> = Vec::new();
    let mut c: usize = 0;
    while c < n
        invariant
            n == s.spec_fds().len(),
            c <= n,
            vals@.len() == c,
        decreases n - c,
    {
        match backend::read_msr(s.fds[c], cpuctl::PSTATE_STATUS_MSR) {
            Ok(v) => {
                vals.push(v);
            },
            Err(e) => {
                return Err(e);
            },
        }
        c = c + 1;
    }
    Ok(vals)
}

/// Reads every core's register and decodes it: one raw value and one
/// decoded state per core, both in ascending core index, whatever order
/// the reads completed in.  Runs after the restriction in the intended
/// sequence, though the reads themselves are not gated on it.
pub fn dump_stats(s: &Session) -> (r: Result<Report, Error>)
    ensures
        s.spec_fds().len() == 0 ==> r is Ok,
        r matches Ok(rep) ==> {
            &&& rep.raw@.len() == s.spec_fds().len()
            &&& rep.decoded@.len() == rep.raw@.len()
            &&& forall|i: int|
                0 <= i < rep.raw@.len() ==> rep.decoded@[i] == decode::spec_decode(rep.raw@[i])
        },
        r is Err ==> (r == Err::<Report, Error>(Error::ReadFailed)
            || r == Err::<Report, Error>(Error::ShortRead)),
{
    let raw = match read_all(s) {
        Ok(v) => v,
        Err(e) => {
            return Err(e);
        },
    };
    let decoded = decode::decode_all(&raw);
    Ok(Report { raw, decoded })
}

} // verus!
