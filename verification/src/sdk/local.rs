//! The choices that a client makes for a prover that runs on the local
//! machine, and for a proof that it asks of it.

use crate::sdk::mode::Mode;
use vstd::prelude::*;

verus! {

/// What a prover is told about one proof.
#[derive(Debug, Clone, Copy, PartialEq, Eq, Structural)]
pub struct ProofOpts {
    /// The number of seconds after which the request is given up; zero for
    /// no limit.
    pub timeout: u64,
    /// The kind of proof.
    pub mode: Mode,
    /// The number of cycles after which the execution is given up; zero for
    /// no limit.
    pub cycle_limit: u64,
}

/// Collects the choices for a local prover.
#[derive(Debug, Clone, Copy)]
pub struct LocalProverBuilder {
    mode: Mode,
}

impl LocalProverBuilder {
    /// The mode that the prover will work in.
    pub closed spec fn spec_mode(&self) -> Mode {
        self.mode
    }

    /// A builder with the default mode, Groth16.
    pub fn new() -> (r: Self)
        ensures
            r.spec_mode() == Mode::Groth16,
    {
        Self { mode: Mode::default() }
    }

    /// The mode that the prover will work in.
    #[verifier::when_used_as_spec(spec_mode)]
    pub fn mode(&self) -> (r: Mode)
        ensures
            r == self.spec_mode(),
    {
        self.mode
    }
}

/// The choices for one proof that a local prover is asked for.
#[derive(Debug, Clone, Copy, PartialEq, Eq, Structural)]
pub struct LocalRequestOptions {
    pub mode: Mode,
    pub timeout: u64,
}

impl LocalRequestOptions {
    /// The default choices: a Groth16 proof, no timeout.
    pub fn new() -> (r: Self)
        ensures
            r == (LocalRequestOptions { mode: Mode::Groth16, timeout: 0 }),
    {
        Self { timeout: 0, mode: Mode::default() }
    }

    /// The same choices with another mode.
    pub fn with_mode(self, mode: Mode) -> (r: Self)
        ensures
            r == (LocalRequestOptions { mode, timeout: self.timeout }),
    {
        Self { mode, timeout: self.timeout }
    }

    /// The same choices with another timeout.
    pub fn with_timeout(self, timeout: u64) -> (r: Self)
        ensures
            r == (LocalRequestOptions { mode: self.mode, timeout }),
    {
        Self { mode: self.mode, timeout }
    }

    /// What the prover is told: the mode and the timeout as chosen, and no
    /// limit on the cycles.
    pub fn proof_opts(&self) -> (r: ProofOpts)
        ensures
            r == (ProofOpts { timeout: self.timeout, mode: self.mode, cycle_limit: 0 }),
    {
        ProofOpts { timeout: self.timeout, mode: self.mode, cycle_limit: 0 }
    }
}

/// The number of bytes that a download has received after one more chunk:
/// what it had received plus the length of the chunk, but no more than the
/// announced size of the file.
pub open spec fn spec_download_progress(downloaded: u64, chunk_len: usize, total_size: u64) -> int {
    if downloaded + chunk_len < total_size {
        downloaded + chunk_len
    } else {
        total_size as int
    }
}

/// The number of bytes that a download has received after one more chunk.
pub fn download_progress(downloaded: u64, chunk_len: usize, total_size: u64) -> (r: u64)
    ensures
        r as int == spec_download_progress(downloaded, chunk_len, total_size),
{
    if downloaded >= total_size {
        total_size
    } else if chunk_len as u64 >= total_size - downloaded {
        total_size
    } else {
        downloaded + chunk_len as u64
    }
}

} // verus!
