//! Metric value types, metric semantics and the flags of a statistics file,
//! with the numeric codes that the C side of MMV uses for them.

use vstd::prelude::*;

verus! {

/// The type of the values of a metric (`mmv_metric_type_t`).
#[allow(non_camel_case_types)]
#[derive(Clone, Copy, Debug, PartialEq, Eq, Structural)]
pub enum MetricType {
    MMV_TYPE_NOSUPPORT,
    MMV_TYPE_I32,
    MMV_TYPE_U32,
    MMV_TYPE_I64,
    MMV_TYPE_U64,
    MMV_TYPE_FLOAT,
    MMV_TYPE_DOUBLE,
    MMV_TYPE_STRING,
    MMV_TYPE_ELAPSED,
}

/// The C code of a metric type (the matching `PM_TYPE_*` value).
pub open spec fn metric_type_code(t: MetricType) -> i32 {
    match t {
        MetricType::MMV_TYPE_NOSUPPORT => -1i32,
        MetricType::MMV_TYPE_I32 => 0,
        MetricType::MMV_TYPE_U32 => 1,
        MetricType::MMV_TYPE_I64 => 2,
        MetricType::MMV_TYPE_U64 => 3,
        MetricType::MMV_TYPE_FLOAT => 4,
        MetricType::MMV_TYPE_DOUBLE => 5,
        MetricType::MMV_TYPE_STRING => 6,
        MetricType::MMV_TYPE_ELAPSED => 8,
    }
}

impl MetricType {
    /// The C code of this type.
    pub fn code(&self) -> (c: i32)
        ensures
            c == metric_type_code(*self),
    {
        match self {
            MetricType::MMV_TYPE_NOSUPPORT => -1,
            MetricType::MMV_TYPE_I32 => 0,
            MetricType::MMV_TYPE_U32 => 1,
            MetricType::MMV_TYPE_I64 => 2,
            MetricType::MMV_TYPE_U64 => 3,
            MetricType::MMV_TYPE_FLOAT => 4,
            MetricType::MMV_TYPE_DOUBLE => 5,
            MetricType::MMV_TYPE_STRING => 6,
            MetricType::MMV_TYPE_ELAPSED => 8,
        }
    }
}

/// The semantics of the values of a metric (`mmv_metric_sem_t`).
#[allow(non_camel_case_types)]
#[derive(Clone, Copy, Debug, PartialEq, Eq, Structural)]
pub enum MetricSem {
    MMV_SEM_COUNTER,
    MMV_SEM_INSTANT,
    MMV_SEM_DISCRETE,
}

/// The C code of a metric semantics (the matching `PM_SEM_*` value).
pub open spec fn metric_sem_code(s: MetricSem) -> u32 {
    match s {
        MetricSem::MMV_SEM_COUNTER => 1,
        MetricSem::MMV_SEM_INSTANT => 3,
        MetricSem::MMV_SEM_DISCRETE => 4,
    }
}

impl MetricSem {
    /// The C code of this semantics.
    pub fn code(&self) -> (c: u32)
        ensures
            c == metric_sem_code(*self),
    {
        match self {
            MetricSem::MMV_SEM_COUNTER => 1,
            MetricSem::MMV_SEM_INSTANT => 3,
            MetricSem::MMV_SEM_DISCRETE => 4,
        }
    }
}

/// Flags of a statistics file (`mmv_stats_flags_t`).
#[allow(non_camel_case_types)]
#[derive(Clone, Copy, Debug, PartialEq, Eq, Structural)]
pub enum StatsFlags {
    /// Metric names are not prefixed with the file name.
    MMV_FLAG_NOPREFIX,
    /// The file belongs to a process, and is dropped when it exits.
    MMV_FLAG_PROCESS,
}

/// The bit of a statistics flag.
pub open spec fn stats_flag_code(f: StatsFlags) -> u32 {
    match f {
        StatsFlags::MMV_FLAG_NOPREFIX => 1,
        StatsFlags::MMV_FLAG_PROCESS => 2,
    }
}

impl StatsFlags {
    /// The bit of this flag.
    pub fn code(&self) -> (c: u32)
        ensures
            c == stats_flag_code(*self),
    {
        match self {
            StatsFlags::MMV_FLAG_NOPREFIX => 1,
            StatsFlags::MMV_FLAG_PROCESS => 2,
        }
    }
}

/// Each type has its fixed PCP code: the matching `PM_TYPE_*` value.
pub proof fn lemma_metric_type_codes()
    ensures
        metric_type_code(MetricType::MMV_TYPE_NOSUPPORT) == -1,
        metric_type_code(MetricType::MMV_TYPE_I32) == 0,
        metric_type_code(MetricType::MMV_TYPE_U32) == 1,
        metric_type_code(MetricType::MMV_TYPE_I64) == 2,
        metric_type_code(MetricType::MMV_TYPE_U64) == 3,
        metric_type_code(MetricType::MMV_TYPE_FLOAT) == 4,
        metric_type_code(MetricType::MMV_TYPE_DOUBLE) == 5,
        metric_type_code(MetricType::MMV_TYPE_STRING) == 6,
        metric_type_code(MetricType::MMV_TYPE_ELAPSED) == 8,
{
}

/// Each semantics has its fixed PCP code: the matching `PM_SEM_*` value.
pub proof fn lemma_metric_sem_codes()
    ensures
        metric_sem_code(MetricSem::MMV_SEM_COUNTER) == 1,
        metric_sem_code(MetricSem::MMV_SEM_INSTANT) == 3,
        metric_sem_code(MetricSem::MMV_SEM_DISCRETE) == 4,
{
}

/// Each flag has its fixed bit.
pub proof fn lemma_stats_flag_codes()
    ensures
        stats_flag_code(StatsFlags::MMV_FLAG_NOPREFIX) == 1,
        stats_flag_code(StatsFlags::MMV_FLAG_PROCESS) == 2,
{
}

/// Distinct types, semantics and flags have distinct codes, so the codes
/// handed to C identify them.
pub proof fn lemma_codes_distinct(t1: MetricType, t2: MetricType, s1: MetricSem, s2: MetricSem, f1: StatsFlags, f2: StatsFlags)
    ensures
        metric_type_code(t1) == metric_type_code(t2) ==> t1 == t2,
        metric_sem_code(s1) == metric_sem_code(s2) ==> s1 == s2,
        stats_flag_code(f1) == stats_flag_code(f2) ==> f1 == f2,
{
}

} // verus!
