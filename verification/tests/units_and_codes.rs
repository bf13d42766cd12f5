use pcp_mmv::acme::plan_production_step;
use pcp_mmv::atom::AtomValue;
use pcp_mmv::kinds::{MetricSem, MetricType, StatsFlags};
use pcp_mmv::mmv::{lookup_args, stats_init_args};
use pcp_mmv::descriptors::{Indom, Instance, Metric};
use pcp_mmv::units::{PMUnits, PM_COUNT_ONE, PM_TIME_SEC, PM_TIME_USEC};

#[test]
fn new_units_are_all_zero() {
    let u = PMUnits::new();
    assert_eq!(u.word(), 0);
    assert_eq!(u.dimSpace(), 0);
    assert_eq!(u.dimTime(), 0);
    assert_eq!(u.dimCount(), 0);
    assert_eq!(u.scaleSpace(), 0);
    assert_eq!(u.scaleTime(), 0);
    assert_eq!(u.scaleCount(), 0);
}

#[test]
fn setters_place_fields_in_the_word() {
    let mut u = PMUnits::new();
    u.set_dimSpace(1);
    assert_eq!(u.word(), 0x1000_0000);
    u.set_dimTime(-1);
    assert_eq!(u.word(), 0x1F00_0000);
    u.set_dimCount(1);
    u.set_scaleSpace(2);
    u.set_scaleTime(PM_TIME_SEC);
    u.set_scaleCount(-2);
    assert_eq!(u.word(), 0x1F12_3E00);
    assert_eq!(u.dimSpace(), 1);
    assert_eq!(u.dimTime(), -1);
    assert_eq!(u.dimCount(), 1);
    assert_eq!(u.scaleSpace(), 2);
    assert_eq!(u.scaleTime(), 3);
    assert_eq!(u.scaleCount(), -2);
}

#[test]
fn setter_changes_only_its_field() {
    let mut u = PMUnits::new();
    u.set_dimCount(1);
    u.set_scaleCount(PM_COUNT_ONE as i32);
    u.set_scaleTime(PM_TIME_USEC);
    let before = u.word();
    u.set_dimTime(3);
    assert_eq!(u.word() & !0x0F00_0000, before & !0x0F00_0000);
    assert_eq!(u.dimTime(), 3);
    assert_eq!(u.dimCount(), 1);
    assert_eq!(u.scaleTime(), 1);
}

#[test]
fn out_of_range_values_keep_low_four_bits() {
    let mut u = PMUnits::new();
    u.set_dimCount(9);
    assert_eq!(u.dimCount(), -7);
    u.set_dimSpace(-9);
    assert_eq!(u.dimSpace(), 7);
    u.set_scaleTime(17);
    assert_eq!(u.scaleTime(), 1);
    u.set_scaleCount(8);
    assert_eq!(u.scaleCount(), -8);
}

#[test]
fn signed_fields_roundtrip_over_their_range() {
    for v in -8..=7 {
        let mut u = PMUnits::new();
        u.set_scaleCount(v);
        assert_eq!(u.scaleCount(), v);
        u.set_dimSpace(v);
        assert_eq!(u.dimSpace(), v);
    }
    for v in 0..=15u32 {
        let mut u = PMUnits::new();
        u.set_scaleSpace(v);
        assert_eq!(u.scaleSpace(), v);
    }
}

#[test]
fn codes_match_the_c_enums() {
    assert_eq!(MetricType::MMV_TYPE_NOSUPPORT.code(), -1);
    assert_eq!(MetricType::MMV_TYPE_I32.code(), 0);
    assert_eq!(MetricType::MMV_TYPE_U64.code(), 3);
    assert_eq!(MetricType::MMV_TYPE_STRING.code(), 6);
    assert_eq!(MetricType::MMV_TYPE_ELAPSED.code(), 8);
    assert_eq!(MetricSem::MMV_SEM_COUNTER.code(), 1);
    assert_eq!(MetricSem::MMV_SEM_INSTANT.code(), 3);
    assert_eq!(MetricSem::MMV_SEM_DISCRETE.code(), 4);
    assert_eq!(StatsFlags::MMV_FLAG_NOPREFIX.code(), 1);
    assert_eq!(StatsFlags::MMV_FLAG_PROCESS.code(), 2);
}

#[test]
fn new_atom_value_refers_to_nothing() {
    let v = AtomValue::new();
    assert!(v.is_null());
    assert_eq!(v.address(), 0);
    let w = AtomValue::from_address(4096);
    assert!(!w.is_null());
    assert_eq!(w.address(), 4096);
}

#[test]
fn stats_init_args_counts_tables() {
    let m = Metric::new("a", 1, MetricType::MMV_TYPE_U64, MetricSem::MMV_SEM_COUNTER, PMUnits::new(), 0, "", "");
    let mut inst = [Instance::new(0, "x")];
    let d = Indom::new(5, &mut inst, "", "");
    let args = stats_init_args("acme", 321, StatsFlags::MMV_FLAG_PROCESS.code(), &[m], &[d]);
    assert_eq!(args.app_name, b"acme\0".to_vec());
    assert_eq!(args.cluster_id, 321);
    assert_eq!(args.flags, 2);
    assert_eq!(args.metric_count, 1);
    assert_eq!(args.indom_count, 1);
    let none = stats_init_args("file", 1, 0, &[], &[]);
    assert_eq!(none.metric_count, 0);
    assert_eq!(none.indom_count, 0);
}

#[test]
fn lookup_args_are_c_strings() {
    let (m, i) = lookup_args("products.count", "Anvils");
    assert_eq!(m, b"products.count\0".to_vec());
    assert_eq!(i, b"Anvils\0".to_vec());
    let (_, empty) = lookup_args("http.get", "");
    assert_eq!(empty, vec![0u8]);
}

#[test]
fn production_step_builds_one_and_queues_the_rest() {
    let s = plan_production_step(7, 5, 3);
    assert_eq!(s.product, 1);
    assert_eq!(s.working, 2);
    assert_eq!(s.queued, vec![0, 2]);
    let t = plan_production_step(0, 3, 3);
    assert_eq!(t.product, 0);
    assert_eq!(t.working, 0);
    assert_eq!(t.queued, vec![1, 2]);
    let u = plan_production_step(usize::MAX, u64::MAX, 1);
    assert_eq!(u.product, 0);
    assert_eq!(u.working, u64::MAX % 3);
    assert!(u.queued.is_empty());
}
