use vstd::prelude::*;

verus! {

/// A guest module: its bytes, and whether they are already in precompiled form.
pub struct Profiling {
    pub bytes: Vec<u8>,
    pub is_aot: bool,
}

impl Profiling {
    /// Wraps module source that still has to be compiled.
    pub fn from_source(bytes: Vec<u8>) -> (r: Profiling)
        ensures
            r.bytes@ == bytes@,
            !r.is_aot,
    {
        Profiling { bytes, is_aot: false }
    }

    /// Wraps bytes the engine produced by precompiling a module.
    pub fn from_precompiled(bytes: Vec<u8>) -> (r: Profiling)
        ensures
            r.bytes@ == bytes@,
            r.is_aot,
    {
        Profiling { bytes, is_aot: true }
    }

    /// The engine has to compile this module before it can be cached in native form.
    pub fn needs_precompile(&self) -> (r: bool)
        ensures
            r == !self.is_aot,
    {
        !self.is_aot
    }
}

/// The precompiled form of `p`: a module already precompiled passes through unchanged;
/// otherwise `compiled`, the engine's outcome on `p`'s bytes, replaces its bytes.
pub fn precompile_profiling(p: Profiling, compiled: Result<Vec<u8>, String>) -> (r: Result<Profiling, String>)
    ensures
        p.is_aot ==> r is Ok && r->Ok_0.is_aot && r->Ok_0.bytes@ == p.bytes@,
        !p.is_aot ==> match compiled {
            Ok(b) => r is Ok && r->Ok_0.is_aot && r->Ok_0.bytes@ == b@,
            Err(m) => r == Err::<Profiling, String>(m),
        },
{
    if p.is_aot {
        return Ok(p);
    }
    match compiled {
        Ok(b) => Ok(Profiling::from_precompiled(b)),
        Err(m) => Err(m),
    }
}

/// A run stopped because its interruption budget ran out.
#[derive(PartialEq, Eq, Structural, Clone, Copy, Debug)]
pub enum RunError {
    Interrupted,
}

/// How much longer a guest may run. Each time its epoch deadline passes, at a safe
/// point, one refill of `ticks` is spent; with no refill left the run is terminated.
#[derive(PartialEq, Eq, Structural, Clone, Copy, Debug)]
pub struct Budget {
    pub refills_left: u64,
    pub ticks: u64,
}

impl Budget {
    pub fn new(refills: u64, ticks: u64) -> (r: Budget)
        ensures
            r == (Budget { refills_left: refills, ticks }),
    {
        Budget { refills_left: refills, ticks }
    }

    /// Decides, at a deadline, between refilling and terminating the run.
    pub fn on_deadline(&mut self) -> (r: Result<u64, RunError>)
        ensures
            old(self).refills_left > 0 ==> {
                &&& r == Ok::<u64, RunError>(old(self).ticks)
                &&& *final(self) == (Budget { refills_left: (old(self).refills_left - 1) as u64, ..*old(self) })
            },
            old(self).refills_left == 0 ==> r == Err::<u64, RunError>(RunError::Interrupted) && *final(self) == *old(self),
    {
        if self.refills_left == 0 {
            return Err(RunError::Interrupted);
        }
        self.refills_left = self.refills_left - 1;
        Ok(self.ticks)
    }
}

} // verus!
