//! Startup configuration decisions.
//!
//! Reading the environment stays outside; the raw values come in here, and
//! everything decided about them — which coordination mode to run, whether
//! the epoch is acceptable, whether a fixed worker id is usable — is decided
//! by these functions. Violations are fatal at startup, never at the first
//! request.

use vstd::prelude::*;
use crate::encoder::State;
use crate::formats::{parse_u64, spec_parse_chars, Format};

verus! {

/// Failures of the allocator process's startup.
#[derive(PartialEq, Eq, Structural, Debug, Clone, Copy)]
pub enum InitError {
    /// The environment did not hold the values `EnvConfig` needs.
    InvalidEnvironment,
}

/// Failures of a worker process's startup.
#[derive(PartialEq, Eq, Structural, Debug, Clone, Copy)]
pub enum StateError {
    /// The configured epoch lies in the future.
    FutureEpoch,
    /// A value the chosen mode needs is missing.
    IoError,
}

/// Failures of the standalone generator's configuration.
#[derive(PartialEq, Eq, Structural, Debug, Clone, Copy)]
pub enum ConfigError {
    /// A numeric variable did not parse as the integer type it needs.
    NonNumeric,
    /// The fixed worker id does not fit the id layout's worker field.
    WorkerIdTooLarge,
    /// The epoch must be set and is missing.
    MissingEpoch,
    /// The configured epoch lies in the future.
    FutureEpoch,
    /// The lock-store list is set but holds no store.
    EmptyRedisUrls,
}

/// A worker process's environment, already read and typed.
#[derive(Debug)]
pub struct EnvConfig {
    /// Port to serve on; the transport cares, nothing here does.
    pub port: Option<u16>,
    /// The allocator to lease an id from; its absence selects standalone.
    pub master_url: Option<String>,
    /// Epoch as unix seconds.
    pub epoch: Option<u64>,
    /// A fixed worker id for standalone mode.
    pub worker_id: Option<u32>,
}

/// How a generator process coordinates its worker id.
#[derive(PartialEq, Eq, Debug)]
pub enum Mode {
    /// Compete for an id through the quorum lock over these stores.
    Cluster(Vec<String>),
    /// The sole instance; no coordination.
    Standalone,
}

/// What a worker process should start: which transport to bind and with
/// which epoch and initial id to generate.
#[derive(PartialEq, Eq, Debug)]
pub enum InitPlan {
    /// Lease the worker id from this allocator.
    Cluster { master_url: String, epoch_ms: u64 },
    /// Run with a fixed worker id.
    Standalone { epoch_ms: u64, worker_id: u32 },
}

/// Pick the coordination mode off the lock-store list: configured and
/// non-empty selects quorum mode, configured but empty is fatal, absent
/// selects standalone.
pub fn select_mode(redis_urls: Option<Vec<String>>) -> (r: Result<Mode, ConfigError>)
    ensures
        r == match redis_urls {
            Some(v) => if v.len() > 0 {
                Ok(Mode::Cluster(v))
            } else {
                Err::<Mode, ConfigError>(ConfigError::EmptyRedisUrls)
            },
            None => Ok::<Mode, ConfigError>(Mode::Standalone),
        },
{
    match redis_urls {
        Some(v) => {
            if v.len() > 0 {
                Ok(Mode::Cluster(v))
            } else {
                Err(ConfigError::EmptyRedisUrls)
            }
        },
        None => Ok(Mode::Standalone),
    }
}

/// The epoch in milliseconds.
pub fn epoch_ms_of(epoch_s: u64) -> (r: u64)
    requires
        epoch_s * 1000 <= u64::MAX,
    ensures
        r == epoch_s * 1000,
{
    epoch_s * 1000
}

/// Validate the fixed worker id of the standalone generator, as text from
/// the environment: absent defaults to 0; a value that is no decimal
/// `u16` is rejected, and so is one outside the 10-bit worker field.
pub fn parse_worker_id(s: Option<&str>) -> (r: Result<u16, ConfigError>)
    ensures
        r == match s {
            None => Ok::<u16, ConfigError>(0),
            Some(t) => match spec_parse_chars(t@, 10) {
                Some(v) => if v > 0xFFFF {
                    Err::<u16, ConfigError>(ConfigError::NonNumeric)
                } else if v >= 0x400 {
                    Err::<u16, ConfigError>(ConfigError::WorkerIdTooLarge)
                } else {
                    Ok::<u16, ConfigError>(v as u16)
                },
                None => Err::<u16, ConfigError>(ConfigError::NonNumeric),
            },
        },
{
    match s {
        None => Ok(0),
        Some(t) => {
            match parse_u64(t, Format::Decimal) {
                Some(v) => {
                    if v > 0xFFFF {
                        Err(ConfigError::NonNumeric)
                    } else if v >= 0x400 {
                        Err(ConfigError::WorkerIdTooLarge)
                    } else {
                        Ok(v as u16)
                    }
                },
                None => Err(ConfigError::NonNumeric),
            }
        },
    }
}

/// Validate the epoch, as text from the environment against the clock now:
/// it must be present, decimal, and not in the future.
pub fn parse_epoch(s: Option<&str>, now_s: u64) -> (r: Result<u64, ConfigError>)
    ensures
        r == match s {
            None => Err::<u64, ConfigError>(ConfigError::MissingEpoch),
            Some(t) => match spec_parse_chars(t@, 10) {
                Some(v) => if v > now_s {
                    Err::<u64, ConfigError>(ConfigError::FutureEpoch)
                } else {
                    Ok::<u64, ConfigError>(v)
                },
                None => Err::<u64, ConfigError>(ConfigError::NonNumeric),
            },
        },
{
    match s {
        None => Err(ConfigError::MissingEpoch),
        Some(t) => {
            match parse_u64(t, Format::Decimal) {
                Some(v) => {
                    if v > now_s {
                        Err(ConfigError::FutureEpoch)
                    } else {
                        Ok(v)
                    }
                },
                None => Err(ConfigError::NonNumeric),
            }
        },
    }
}

impl State {
    /// The standalone plan: the given epoch, and the fixed worker id or 0.
    pub fn new_from_epoch(epoch: u64, wid: Option<u32>) -> (r: (u32, u64))
        requires
            epoch * 1000 <= u64::MAX,
        ensures
            r.0 == match wid {
                Some(w) => w,
                None => 0u32,
            },
            r.1 == epoch * 1000,
    {
        let w = match wid {
            Some(w) => w,
            None => 0,
        };
        (w, epoch_ms_of(epoch))
    }

    /// Decide a worker's startup from its environment. A configured
    /// allocator url selects cluster mode, which requires an epoch; the
    /// epoch must not lie in the future of `now_s`; standalone mode
    /// defaults a missing epoch to 0 and a missing worker id to 0.
    pub fn new_from_ecfg(ecfg: EnvConfig, now_s: u64) -> (r: Result<InitPlan, StateError>)
        requires
            now_s * 1000 <= u64::MAX,
        ensures
            r == match ecfg.master_url {
                Some(url) => match ecfg.epoch {
                    Some(ep) => if ep > now_s {
                        Err::<InitPlan, StateError>(StateError::FutureEpoch)
                    } else {
                        Ok::<InitPlan, StateError>(
                            InitPlan::Cluster { master_url: url, epoch_ms: (ep * 1000) as u64 },
                        )
                    },
                    None => Err::<InitPlan, StateError>(StateError::IoError),
                },
                None => match ecfg.epoch {
                    Some(ep) => if ep > now_s {
                        Err::<InitPlan, StateError>(StateError::FutureEpoch)
                    } else {
                        Ok::<InitPlan, StateError>(
                            InitPlan::Standalone {
                                epoch_ms: (ep * 1000) as u64,
                                worker_id: match ecfg.worker_id {
                                    Some(w) => w,
                                    None => 0u32,
                                },
                            },
                        )
                    },
                    None => Ok::<InitPlan, StateError>(
                        InitPlan::Standalone {
                            epoch_ms: 0,
                            worker_id: match ecfg.worker_id {
                                Some(w) => w,
                                None => 0u32,
                            },
                        },
                    ),
                },
            },
    {
        let wid = match ecfg.worker_id {
            Some(w) => w,
            None => 0,
        };
        match ecfg.master_url {
            Some(url) => {
                match ecfg.epoch {
                    Some(ep) => {
                        if ep > now_s {
                            Err(StateError::FutureEpoch)
                        } else {
                            proof {
                                vstd::arithmetic::mul::lemma_mul_inequality(
                                    ep as int,
                                    now_s as int,
                                    1000,
                                );
                            }
                            Ok(InitPlan::Cluster { master_url: url, epoch_ms: epoch_ms_of(ep) })
                        }
                    },
                    None => Err(StateError::IoError),
                }
            },
            None => {
                match ecfg.epoch {
                    Some(ep) => {
                        if ep > now_s {
                            Err(StateError::FutureEpoch)
                        } else {
                            proof {
                                vstd::arithmetic::mul::lemma_mul_inequality(
                                    ep as int,
                                    now_s as int,
                                    1000,
                                );
                            }
                            Ok(
                                InitPlan::Standalone {
                                    epoch_ms: epoch_ms_of(ep),
                                    worker_id: wid,
                                },
                            )
                        }
                    },
                    None => Ok(InitPlan::Standalone { epoch_ms: 0, worker_id: wid }),
                }
            },
        }
    }
}

} // verus!
