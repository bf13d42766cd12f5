//! Safe, verified descriptions of the data that the PCP "memory mapped
//! values" (MMV) library expects: instances, instance domains, metrics,
//! units of measure and value handles, together with the C-string and
//! fixed-size name encodings they are built from.

pub mod acme;
pub mod atom;
pub mod cstring;
pub mod descriptors;
pub mod kinds;
pub mod mmv;
pub mod units;

pub use atom::AtomValue;
pub use cstring::{array64bytes_from_cstring, array_from_cstring, c_string_bytes, NAME_MAX};
pub use descriptors::{Indom, Instance, Metric};
pub use kinds::{MetricSem, MetricType, StatsFlags};
pub use units::{PMUnits, PM_COUNT_ONE, PM_TIME_USEC};
