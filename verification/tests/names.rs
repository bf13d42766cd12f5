use pcp_mmv::cstring::{array64bytes_from_cstring, array_from_cstring, c_string_bytes};
use pcp_mmv::descriptors::{Indom, Instance, Metric};
use pcp_mmv::kinds::{MetricSem, MetricType};
use pcp_mmv::units::PMUnits;

fn field_of(bytes: &[u8]) -> [i8; 64] {
    let mut f = [0i8; 64];
    for (i, b) in bytes.iter().enumerate().take(64) {
        f[i] = *b as i8;
    }
    f
}

#[test]
fn c_string_bytes_appends_one_nul() {
    assert_eq!(c_string_bytes("Anvils"), b"Anvils\0".to_vec());
    assert_eq!(c_string_bytes(""), vec![0u8]);
}

#[test]
fn c_string_bytes_encodes_utf8() {
    assert_eq!(c_string_bytes("é€"), vec![0xC3, 0xA9, 0xE2, 0x82, 0xAC, 0]);
}

#[test]
fn array64_copies_short_string_and_zero_fills() {
    let a = array64bytes_from_cstring(b"abc\0");
    assert_eq!(&a[..4], &[97i8, 98, 99, 0]);
    assert!(a[4..].iter().all(|&x| x == 0));
}

#[test]
fn array64_truncates_long_string() {
    let long: Vec<u8> = (0..100u32).map(|i| b'a' + (i % 26) as u8).chain(std::iter::once(0)).collect();
    let a = array64bytes_from_cstring(&long);
    assert_eq!(a, field_of(&long[..64]));
    assert!(a.iter().all(|&x| x != 0));
}

#[test]
fn array64_keeps_high_bytes_as_negative_chars() {
    let a = array64bytes_from_cstring(&[0xC3, 0xA9, 0]);
    assert_eq!(&a[..3], &[-61i8, -87, 0]);
}

#[test]
fn array_from_cstring_fills_exactly_64_bytes() {
    let mut bytes = vec![b'x'; 63];
    bytes.push(0);
    let a = array_from_cstring(&bytes);
    assert_eq!(a[62], b'x' as i8);
    assert_eq!(a[63], 0);
    let b = array_from_cstring(b"hi\0");
    assert_eq!(b, field_of(b"hi\0"));
}

#[test]
fn instance_new_short_name_reads_back() {
    let inst = Instance::new(2, "Giant_Rubber_Bands");
    assert_eq!(inst.internal, 2);
    assert_eq!(inst.external, field_of(b"Giant_Rubber_Bands\0"));
    assert_eq!(inst.external[18], 0);
}

#[test]
fn instance_new_63_byte_name_keeps_nul() {
    let name = "n".repeat(63);
    let inst = Instance::new(-1, &name);
    assert_eq!(inst.internal, -1);
    assert_eq!(inst.external[62], b'n' as i8);
    assert_eq!(inst.external[63], 0);
}

#[test]
fn instance_new_long_name_is_truncated_without_nul() {
    let name = "m".repeat(80);
    let inst = Instance::new(7, &name);
    assert!(inst.external.iter().all(|&c| c == b'm' as i8));
}

#[test]
fn indom_new_counts_and_copies_instances() {
    let mut instances = [Instance::new(0, "Anvils"), Instance::new(1, "Rockets")];
    let indom = Indom::new(61, &mut instances, "Acme products", "Most popular products");
    assert_eq!(indom.serial, 61);
    assert_eq!(indom.count, 2);
    assert_eq!(indom.instances.len(), 2);
    assert_eq!(indom.instances[1].internal, 1);
    assert_eq!(indom.instances[1].external, field_of(b"Rockets\0"));
    assert_eq!(indom.shorttext, b"Acme products\0".to_vec());
    assert_eq!(indom.helptext, b"Most popular products\0".to_vec());
    assert_eq!(instances[0].internal, 0);
}

#[test]
fn indom_new_empty_domain() {
    let mut instances: [Instance; 0] = [];
    let indom = Indom::new(0, &mut instances, "", "");
    assert_eq!(indom.count, 0);
    assert!(indom.instances.is_empty());
    assert_eq!(indom.shorttext, vec![0u8]);
}

#[test]
fn metric_new_sets_every_field() {
    let mut units = PMUnits::new();
    units.set_dimCount(1);
    let m = Metric::new(
        "products.count",
        7,
        MetricType::MMV_TYPE_U64,
        MetricSem::MMV_SEM_COUNTER,
        units,
        61,
        "Acme factory product throughput",
        "Monotonic increasing counter",
    );
    assert_eq!(m.name, field_of(b"products.count\0"));
    assert_eq!(m.item, 7);
    assert_eq!(m.type_, MetricType::MMV_TYPE_U64);
    assert_eq!(m.semantics, MetricSem::MMV_SEM_COUNTER);
    assert_eq!(m.dimension.word(), units.word());
    assert_eq!(m.dimension.dimCount(), 1);
    assert_eq!(m.indom, 61);
    assert_eq!(m.shorttext, b"Acme factory product throughput\0".to_vec());
    assert_eq!(m.helptext, b"Monotonic increasing counter\0".to_vec());
}

#[test]
fn metric_from_c_name_uses_given_bytes() {
    let m = Metric::from_c_name(
        b"products.time\0",
        8,
        MetricType::MMV_TYPE_ELAPSED,
        MetricSem::MMV_SEM_INSTANT,
        PMUnits::new(),
        0,
        "short",
        "long",
    );
    assert_eq!(m.name, field_of(b"products.time\0"));
    assert_eq!(m.item, 8);
    assert_eq!(m.type_, MetricType::MMV_TYPE_ELAPSED);
    assert_eq!(m.semantics, MetricSem::MMV_SEM_INSTANT);
    assert_eq!(m.indom, 0);
    assert_eq!(m.shorttext, b"short\0".to_vec());
}
