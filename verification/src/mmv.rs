//! What a statistics file is created and searched with: the arguments that
//! the MMV library receives, computed from the library's own values.

use vstd::prelude::*;

use crate::cstring::c_string_bytes;
use crate::descriptors::{c_text, Indom, Metric};

verus! {

/// The arguments of the call that creates a statistics file, but for the
/// descriptor tables themselves.
pub struct StatsInit {
    /// The file name, as a NUL-terminated C string.
    pub app_name: Vec<u8>,
    /// The cluster identifier of the file's metrics.
    pub cluster_id: i32,
    /// The file flags, an `or` of `StatsFlags` codes.
    pub flags: u32,
    /// The number of metrics, as the C side counts them.
    pub metric_count: i32,
    /// The number of instance domains, as the C side counts them.
    pub indom_count: i32,
}

/// The arguments for creating the file `app_name` that describes
/// `metrics` and `indoms`; the counts are the 32-bit signed forms of the
/// table lengths.
pub fn stats_init_args(
    app_name: &str,
    cluster_id: i32,
    flags: u32,
    metrics: &[Metric],
    indoms: &[Indom],
) -> (args: StatsInit)
    requires
        !app_name@.contains('\0'),
    ensures
        args.app_name@ == c_text(app_name@),
        args.cluster_id == cluster_id,
        args.flags == flags,
        args.metric_count == metrics@.len() as i32,
        args.indom_count == indoms@.len() as i32,
{
    StatsInit {
        app_name: c_string_bytes(app_name),
        cluster_id: cluster_id,
        flags: flags,
        metric_count: #[verifier::truncate] (metrics.len() as i32),
        indom_count: #[verifier::truncate] (indoms.len() as i32),
    }
}

/// The C strings that name a value in a statistics file: the metric name
/// and the external name of the instance (empty for a metric without an
/// instance domain).
pub fn lookup_args(metric_name: &str, instance: &str) -> (args: (Vec<u8>, Vec<u8>))
    requires
        !metric_name@.contains('\0'),
        !instance@.contains('\0'),
    ensures
        args.0@ == c_text(metric_name@),
        args.1@ == c_text(instance@),
{
    (c_string_bytes(metric_name), c_string_bytes(instance))
}

} // verus!
