//! The descriptors that make up a statistics file: instances, instance
//! domains and metrics.

use vstd::prelude::*;
use vstd::utf8::encode_utf8;

use crate::cstring::{
    array64bytes_from_cstring, array_from_cstring, c_string_bytes, holds_c_string,
    lemma_name_field_reads_back, lemma_utf8_without_nul, name_field, no_nul_byte, NAME_MAX,
};
use crate::kinds::{MetricSem, MetricType};
use crate::units::PMUnits;

verus! {

/// The bytes of the C string holding `text`: its UTF-8 encoding and a NUL.
pub open spec fn c_text(text: Seq<char>) -> Seq<u8> {
    encode_utf8(text).push(0u8)
}

/// The name field made from a text without U+0000 reads back, as a C
/// string, as the text's UTF-8 encoding whenever that encoding is shorter
/// than the field; otherwise the field holds the encoding's first 64 bytes.
pub proof fn lemma_name_reads_back(text: Seq<char>)
    requires
        !text.contains('\0'),
    ensures
        encode_utf8(text).len() < NAME_MAX ==> holds_c_string(
            name_field(c_text(text)),
            encode_utf8(text),
        ),
        encode_utf8(text).len() >= NAME_MAX ==> forall|i: int|
            0 <= i < NAME_MAX ==> #[trigger] name_field(c_text(text))[i] == encode_utf8(text)[i] as i8,
{
    lemma_utf8_without_nul(text);
    assert(no_nul_byte(encode_utf8(text)));
    lemma_name_field_reads_back(encode_utf8(text));
}

/// One instance of an instance domain (`mmv_instances_t`).
#[derive(Clone, Copy)]
pub struct Instance {
    /// The internal identifier of the instance.
    pub internal: i32,
    /// The external name, as a 64-byte C name field.
    pub external: [i8; 64],
}

impl Instance {
    /// The instance with identifier `internal` and name `external`; a name
    /// of 64 bytes or more is truncated to its first 64 bytes.
    pub fn new(internal: i32, external: &str) -> (inst: Instance)
        requires
            !external@.contains('\0'),
        ensures
            inst.internal == internal,
            inst.external@ == name_field(c_text(external@)),
    {
        let ext = c_string_bytes(external);
        Instance { internal: internal, external: array64bytes_from_cstring(ext.as_slice()) }
    }
}

/// An instance domain (`mmv_indom_t`).
pub struct Indom {
    /// The serial number of the domain.
    pub serial: u32,
    /// The number of instances, as the C side counts them (32 bits).
    pub count: u32,
    /// The instances of the domain.
    pub instances: Vec<Instance>,
    /// Short help text, as a NUL-terminated C string.
    pub shorttext: Vec<u8>,
    /// Long help text, as a NUL-terminated C string.
    pub helptext: Vec<u8>,
}

impl Indom {
    /// The domain `serial` over `instances`, with its help texts.
    pub fn new(serial: u32, instances: &mut [Instance], shorttext: &str, helptext: &str) -> (indom:
        Indom)
        requires
            !shorttext@.contains('\0'),
            !helptext@.contains('\0'),
        ensures
            indom.serial == serial,
            indom.count == old(instances)@.len() as u32,
            indom.instances@ == old(instances)@,
            final(instances)@ == old(instances)@,
            indom.shorttext@ == c_text(shorttext@),
            indom.helptext@ == c_text(helptext@),
    {
        let shorttext = c_string_bytes(shorttext);
        let helptext = c_string_bytes(helptext);
        let mut copies: Vec<Instance> = Vec::new();
        let mut i: usize = 0;
        while i < instances.len()
            invariant
                i <= instances@.len(),
                copies@ == instances@.subrange(0, i as int),
            decreases instances@.len() - i,
        {
            copies.push(instances[i]);
            i = i + 1;
            assert(copies@ =~= instances@.subrange(0, i as int));
        }
        assert(copies@ =~= instances@);
        Indom {
            serial: serial,
            count: #[verifier::truncate] (instances.len() as u32),
            instances: copies,
            shorttext: shorttext,
            helptext: helptext,
        }
    }
}

/// A metric (`mmv_metric_t`).
pub struct Metric {
    /// The metric name, as a 64-byte C name field.
    pub name: [i8; 64],
    /// The item number of the metric.
    pub item: u32,
    /// The type of its values.
    pub type_: MetricType,
    /// The semantics of its values.
    pub semantics: MetricSem,
    /// Its units of measure.
    pub dimension: PMUnits,
    /// The serial number of its instance domain.
    pub indom: u32,
    /// Short help text, as a NUL-terminated C string.
    pub shorttext: Vec<u8>,
    /// Long help text, as a NUL-terminated C string.
    pub helptext: Vec<u8>,
}

impl Metric {
    /// The metric `name` (truncated to its first 64 bytes if longer) with
    /// the given item, type, semantics, units, domain and help texts.
    pub fn new(
        name: &str,
        item: u32,
        type_: MetricType,
        semantics: MetricSem,
        dimension: PMUnits,
        indom: u32,
        shorttext: &str,
        helptext: &str,
    ) -> (metric: Metric)
        requires
            !name@.contains('\0'),
            !shorttext@.contains('\0'),
            !helptext@.contains('\0'),
        ensures
            metric.name@ == name_field(c_text(name@)),
            metric.item == item,
            metric.type_ == type_,
            metric.semantics == semantics,
            metric.dimension == dimension,
            metric.indom == indom,
            metric.shorttext@ == c_text(shorttext@),
            metric.helptext@ == c_text(helptext@),
    {
        let name = c_string_bytes(name);
        let shorttext = c_string_bytes(shorttext);
        let helptext = c_string_bytes(helptext);
        Metric {
            name: array64bytes_from_cstring(name.as_slice()),
            item: item,
            type_: type_,
            semantics: semantics,
            dimension: dimension,
            indom: indom,
            shorttext: shorttext,
            helptext: helptext,
        }
    }

    /// The metric whose name is given as the bytes of a C string,
    /// terminating NUL included, that fit the 64-byte name field.
    pub fn from_c_name(
        name: &[u8],
        item: u32,
        type_: MetricType,
        semantics: MetricSem,
        dimension: PMUnits,
        indom: u32,
        shorttext: &str,
        helptext: &str,
    ) -> (metric: Metric)
        requires
            name@.len() <= 64,
            !shorttext@.contains('\0'),
            !helptext@.contains('\0'),
        ensures
            metric.name@ == name_field(name@),
            metric.item == item,
            metric.type_ == type_,
            metric.semantics == semantics,
            metric.dimension == dimension,
            metric.indom == indom,
            metric.shorttext@ == c_text(shorttext@),
            metric.helptext@ == c_text(helptext@),
    {
        let shorttext = c_string_bytes(shorttext);
        let helptext = c_string_bytes(helptext);
        Metric {
            name: array_from_cstring(name),
            item: item,
            type_: type_,
            semantics: semantics,
            dimension: dimension,
            indom: indom,
            shorttext: shorttext,
            helptext: helptext,
        }
    }
}

} // verus!
