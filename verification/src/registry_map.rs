//! The registry map: a text with one line per Modbus register to read, in the
//! form `device_id,address,register_type,value_type,topic`.
use vstd::prelude::*;
use vstd::string::StringSliceAdditionalSpecFns;
use crate::text::{
    find_byte, lemma_split_on_concat, lemma_split_on_single, parse_unsigned, parse_unsigned_bytes, split_on,
    split_once_byte, strip_cr, text_lines, COMMA, CR, LF,
};
use vstd::utf8::{
    encode_utf8, encode_utf8_valid_utf8, is_char_boundary_iff_not_is_continuation_byte,
    is_char_boundary_start_end_of_seq, is_continuation_byte,
};

verus! {

/// Which Modbus register table an entry is read from.
#[derive(Debug, Clone, Copy, PartialEq, Eq, Structural)]
pub enum RegistryType {
    Holding,
    Input,
}

/// How the register contents are to be read.
#[derive(Debug, Clone, Copy, PartialEq, Eq, Structural)]
#[non_exhaustive]
pub enum RegistryValueType {
    Float32,
    Unsigned8,
    Int8,
    Unsigned16,
    Int16,
    Unsigned32,
    Int32,
    Unsigned64,
    Int64,
    Float64,
}

/// One line of the registry map.
#[derive(Debug)]
pub struct RegistryEntry<'a> {
    pub reg_type: RegistryType,
    pub address: u16,
    pub device_id: u8,
    pub reg_value_type: RegistryValueType,
    pub topic: &'a str,
}

/// The contents of a registry entry, with the topic as its UTF-8 bytes.
pub struct RegistryEntryFields {
    pub reg_type: RegistryType,
    pub address: u16,
    pub device_id: u8,
    pub reg_value_type: RegistryValueType,
    pub topic: Seq<u8>,
}

/// The register type named by a field: `h` or `i`.
pub open spec fn registry_type_code(f: Seq<u8>) -> Option<RegistryType> {
    if f == seq!['h' as u8] {
        Some(RegistryType::Holding)
    } else if f == seq!['i' as u8] {
        Some(RegistryType::Input)
    } else {
        None
    }
}

/// The value type named by a field: `f32`, `u8`, `i8`, `u16`, `i16`, `u32`,
/// `i32`, `u64`, `i64` or `f64`.
pub open spec fn value_type_code(f: Seq<u8>) -> Option<RegistryValueType> {
    if f == seq!['f' as u8, '3' as u8, '2' as u8] {
        Some(RegistryValueType::Float32)
    } else if f == seq!['u' as u8, '8' as u8] {
        Some(RegistryValueType::Unsigned8)
    } else if f == seq!['i' as u8, '8' as u8] {
        Some(RegistryValueType::Int8)
    } else if f == seq!['u' as u8, '1' as u8, '6' as u8] {
        Some(RegistryValueType::Unsigned16)
    } else if f == seq!['i' as u8, '1' as u8, '6' as u8] {
        Some(RegistryValueType::Int16)
    } else if f == seq!['u' as u8, '3' as u8, '2' as u8] {
        Some(RegistryValueType::Unsigned32)
    } else if f == seq!['i' as u8, '3' as u8, '2' as u8] {
        Some(RegistryValueType::Int32)
    } else if f == seq!['u' as u8, '6' as u8, '4' as u8] {
        Some(RegistryValueType::Unsigned64)
    } else if f == seq!['i' as u8, '6' as u8, '4' as u8] {
        Some(RegistryValueType::Int64)
    } else if f == seq!['f' as u8, '6' as u8, '4' as u8] {
        Some(RegistryValueType::Float64)
    } else {
        None
    }
}

/// The entry that a registry-map line describes, or `None` where the line
/// is not one: fewer than five comma-separated fields, a device id that is
/// not a `u8`, an address that is not a `u16`, or an unknown register or
/// value type. Fields after the fifth are ignored.
pub open spec fn parse_registry_line(line: Seq<u8>) -> Option<RegistryEntryFields> {
    let f = split_on(line, COMMA);
    if f.len() < 5 {
        None
    } else {
        match (
            parse_unsigned(f[0], 255),
            parse_unsigned(f[1], 65535),
            registry_type_code(f[2]),
            value_type_code(f[3]),
        ) {
            (Some(device_id), Some(address), Some(reg_type), Some(reg_value_type)) => Some(
                RegistryEntryFields {
                    reg_type,
                    address: address as u16,
                    device_id: device_id as u8,
                    reg_value_type,
                    topic: f[4],
                },
            ),
            _ => None,
        }
    }
}

/// Fields after the fifth do not change the entry a line describes.
pub proof fn lemma_extra_fields_ignored(line: Seq<u8>, extra: Seq<u8>)
    requires
        split_on(line, COMMA).len() >= 5,
    ensures
        parse_registry_line(line + seq![COMMA] + extra) == parse_registry_line(line),
{
    lemma_split_on_concat(line, extra, COMMA);
    let f = split_on(line, COMMA);
    let g = split_on(line + seq![COMMA] + extra, COMMA);
    assert(g[0] == f[0] && g[1] == f[1] && g[2] == f[2] && g[3] == f[3] && g[4] == f[4]);
}

/// The codes of the register types and value types.
pub proof fn lemma_type_codes()
    ensures
        registry_type_code(seq!['h' as u8]) == Some(RegistryType::Holding),
        registry_type_code(seq!['i' as u8]) == Some(RegistryType::Input),
        value_type_code(seq!['f' as u8, '3' as u8, '2' as u8]) == Some(RegistryValueType::Float32),
        value_type_code(seq!['u' as u8, '8' as u8]) == Some(RegistryValueType::Unsigned8),
        value_type_code(seq!['i' as u8, '8' as u8]) == Some(RegistryValueType::Int8),
        value_type_code(seq!['u' as u8, '1' as u8, '6' as u8]) == Some(RegistryValueType::Unsigned16),
        value_type_code(seq!['i' as u8, '1' as u8, '6' as u8]) == Some(RegistryValueType::Int16),
        value_type_code(seq!['u' as u8, '3' as u8, '2' as u8]) == Some(RegistryValueType::Unsigned32),
        value_type_code(seq!['i' as u8, '3' as u8, '2' as u8]) == Some(RegistryValueType::Int32),
        value_type_code(seq!['u' as u8, '6' as u8, '4' as u8]) == Some(RegistryValueType::Unsigned64),
        value_type_code(seq!['i' as u8, '6' as u8, '4' as u8]) == Some(RegistryValueType::Int64),
        value_type_code(seq!['f' as u8, '6' as u8, '4' as u8]) == Some(RegistryValueType::Float64),
        forall|f: Seq<u8>|
            #![trigger registry_type_code(f)]
            registry_type_code(f) is Some ==> f.len() == 1,
        forall|f: Seq<u8>|
            #![trigger value_type_code(f)]
            value_type_code(f) is Some ==> 2 <= f.len() <= 3,
{
    assert(seq!['i' as u8][0] != seq!['h' as u8][0]);
    assert(seq!['i' as u8, '8' as u8][0] != seq!['u' as u8, '8' as u8][0]);
    assert(seq!['u' as u8, '1' as u8, '6' as u8][0] != seq!['f' as u8, '3' as u8, '2' as u8][0]);
    assert(seq!['i' as u8, '1' as u8, '6' as u8][0] != seq!['f' as u8, '3' as u8, '2' as u8][0]);
    assert(seq!['i' as u8, '1' as u8, '6' as u8][0] != seq!['u' as u8, '1' as u8, '6' as u8][0]);
    assert(seq!['u' as u8, '3' as u8, '2' as u8][0] != seq!['f' as u8, '3' as u8, '2' as u8][0]);
    assert(seq!['u' as u8, '3' as u8, '2' as u8][1] != seq!['u' as u8, '1' as u8, '6' as u8][1]);
    assert(seq!['u' as u8, '3' as u8, '2' as u8][0] != seq!['i' as u8, '1' as u8, '6' as u8][0]);
    assert(seq!['i' as u8, '3' as u8, '2' as u8][0] != seq!['f' as u8, '3' as u8, '2' as u8][0]);
    assert(seq!['i' as u8, '3' as u8, '2' as u8][0] != seq!['u' as u8, '1' as u8, '6' as u8][0]);
    assert(seq!['i' as u8, '3' as u8, '2' as u8][1] != seq!['i' as u8, '1' as u8, '6' as u8][1]);
    assert(seq!['i' as u8, '3' as u8, '2' as u8][0] != seq!['u' as u8, '3' as u8, '2' as u8][0]);
    assert(seq!['u' as u8, '6' as u8, '4' as u8][0] != seq!['f' as u8, '3' as u8, '2' as u8][0]);
    assert(seq!['u' as u8, '6' as u8, '4' as u8][1] != seq!['u' as u8, '1' as u8, '6' as u8][1]);
    assert(seq!['u' as u8, '6' as u8, '4' as u8][0] != seq!['i' as u8, '1' as u8, '6' as u8][0]);
    assert(seq!['u' as u8, '6' as u8, '4' as u8][1] != seq!['u' as u8, '3' as u8, '2' as u8][1]);
    assert(seq!['u' as u8, '6' as u8, '4' as u8][0] != seq!['i' as u8, '3' as u8, '2' as u8][0]);
    assert(seq!['i' as u8, '6' as u8, '4' as u8][0] != seq!['f' as u8, '3' as u8, '2' as u8][0]);
    assert(seq!['i' as u8, '6' as u8, '4' as u8][0] != seq!['u' as u8, '1' as u8, '6' as u8][0]);
    assert(seq!['i' as u8, '6' as u8, '4' as u8][1] != seq!['i' as u8, '1' as u8, '6' as u8][1]);
    assert(seq!['i' as u8, '6' as u8, '4' as u8][0] != seq!['u' as u8, '3' as u8, '2' as u8][0]);
    assert(seq!['i' as u8, '6' as u8, '4' as u8][1] != seq!['i' as u8, '3' as u8, '2' as u8][1]);
    assert(seq!['i' as u8, '6' as u8, '4' as u8][0] != seq!['u' as u8, '6' as u8, '4' as u8][0]);
    assert(seq!['f' as u8, '6' as u8, '4' as u8][1] != seq!['f' as u8, '3' as u8, '2' as u8][1]);
    assert(seq!['f' as u8, '6' as u8, '4' as u8][0] != seq!['u' as u8, '1' as u8, '6' as u8][0]);
    assert(seq!['f' as u8, '6' as u8, '4' as u8][0] != seq!['i' as u8, '1' as u8, '6' as u8][0]);
    assert(seq!['f' as u8, '6' as u8, '4' as u8][0] != seq!['u' as u8, '3' as u8, '2' as u8][0]);
    assert(seq!['f' as u8, '6' as u8, '4' as u8][0] != seq!['i' as u8, '3' as u8, '2' as u8][0]);
    assert(seq!['f' as u8, '6' as u8, '4' as u8][0] != seq!['u' as u8, '6' as u8, '4' as u8][0]);
    assert(seq!['f' as u8, '6' as u8, '4' as u8][0] != seq!['i' as u8, '6' as u8, '4' as u8][0]);
}

/// A line made of five comma-free fields joined by commas describes the entry
/// of those fields, in that order: device id, address, register type, value
/// type, topic; and it is a registry-map line exactly when the device id is a
/// `u8`, the address a `u16`, and both types are known.
pub proof fn lemma_line_fields(
    d: Seq<u8>,
    a: Seq<u8>,
    t: Seq<u8>,
    v: Seq<u8>,
    topic: Seq<u8>,
)
    requires
        forall|i: int| 0 <= i < d.len() ==> d[i] != COMMA,
        forall|i: int| 0 <= i < a.len() ==> a[i] != COMMA,
        forall|i: int| 0 <= i < t.len() ==> t[i] != COMMA,
        forall|i: int| 0 <= i < v.len() ==> v[i] != COMMA,
        forall|i: int| 0 <= i < topic.len() ==> topic[i] != COMMA,
    ensures
        ({
            let line = d + seq![COMMA] + a + seq![COMMA] + t + seq![COMMA] + v + seq![COMMA] + topic;
            &&& parse_registry_line(line) is Some <==> (parse_unsigned(d, 255) is Some
                && parse_unsigned(a, 65535) is Some && (t == seq!['h' as u8] || t == seq![
                'i' as u8]) && value_type_code(v) is Some)
            &&& parse_registry_line(line) matches Some(f) ==> {
                &&& f.device_id as nat == parse_unsigned(d, 255).unwrap()
                &&& f.address as nat == parse_unsigned(a, 65535).unwrap()
                &&& (f.reg_type == RegistryType::Holding) == (t == seq!['h' as u8])
                &&& (f.reg_type == RegistryType::Input) == (t == seq!['i' as u8])
                &&& f.reg_value_type == value_type_code(v).unwrap()
                &&& f.topic == topic
            }
        }),
{
    let line = d + seq![COMMA] + a + seq![COMMA] + t + seq![COMMA] + v + seq![COMMA] + topic;
    let r3 = v + seq![COMMA] + topic;
    let r2 = t + seq![COMMA] + r3;
    let r1 = a + seq![COMMA] + r2;
    assert(line =~= d + seq![COMMA] + r1);
    lemma_split_on_single(d, COMMA);
    lemma_split_on_single(a, COMMA);
    lemma_split_on_single(t, COMMA);
    lemma_split_on_single(v, COMMA);
    lemma_split_on_single(topic, COMMA);
    lemma_split_on_concat(v, topic, COMMA);
    lemma_split_on_concat(t, r3, COMMA);
    lemma_split_on_concat(a, r2, COMMA);
    lemma_split_on_concat(d, r1, COMMA);
    assert(split_on(line, COMMA) =~= seq![d, a, t, v, topic]);
}

/// `f` is the one-byte code `a`.
pub(crate) fn is_code1(f: &[u8], a: u8) -> (r: bool)
    ensures
        r == (f@ == seq![a]),
{
    let r = f.len() == 1 && f[0] == a;
    if r {
        assert(f@ =~= seq![a]);
    }
    r
}

/// `f` is the two-byte code `a b`.
pub(crate) fn is_code2(f: &[u8], a: u8, b: u8) -> (r: bool)
    ensures
        r == (f@ == seq![a, b]),
{
    let r = f.len() == 2 && f[0] == a && f[1] == b;
    if r {
        assert(f@ =~= seq![a, b]);
    }
    r
}

/// `f` is the three-byte code `a b c`.
pub(crate) fn is_code3(f: &[u8], a: u8, b: u8, c: u8) -> (r: bool)
    ensures
        r == (f@ == seq![a, b, c]),
{
    let r = f.len() == 3 && f[0] == a && f[1] == b && f[2] == c;
    if r {
        assert(f@ =~= seq![a, b, c]);
    }
    r
}

pub(crate) fn registry_type_from_code(f: &[u8]) -> (r: Option<RegistryType>)
    ensures
        r == registry_type_code(f@),
{
    if is_code1(f, 'h' as u8) {
        Some(RegistryType::Holding)
    } else if is_code1(f, 'i' as u8) {
        Some(RegistryType::Input)
    } else {
        None
    }
}

pub(crate) fn value_type_from_code(f: &[u8]) -> (r: Option<RegistryValueType>)
    ensures
        r == value_type_code(f@),
{
    if is_code3(f, 'f' as u8, '3' as u8, '2' as u8) {
        Some(RegistryValueType::Float32)
    } else if is_code2(f, 'u' as u8, '8' as u8) {
        Some(RegistryValueType::Unsigned8)
    } else if is_code2(f, 'i' as u8, '8' as u8) {
        Some(RegistryValueType::Int8)
    } else if is_code3(f, 'u' as u8, '1' as u8, '6' as u8) {
        Some(RegistryValueType::Unsigned16)
    } else if is_code3(f, 'i' as u8, '1' as u8, '6' as u8) {
        Some(RegistryValueType::Int16)
    } else if is_code3(f, 'u' as u8, '3' as u8, '2' as u8) {
        Some(RegistryValueType::Unsigned32)
    } else if is_code3(f, 'i' as u8, '3' as u8, '2' as u8) {
        Some(RegistryValueType::Int32)
    } else if is_code3(f, 'u' as u8, '6' as u8, '4' as u8) {
        Some(RegistryValueType::Unsigned64)
    } else if is_code3(f, 'i' as u8, '6' as u8, '4' as u8) {
        Some(RegistryValueType::Int64)
    } else if is_code3(f, 'f' as u8, '6' as u8, '4' as u8) {
        Some(RegistryValueType::Float64)
    } else {
        None
    }
}

impl<'a> RegistryEntry<'a> {
    /// The contents of this entry.
    pub open spec fn fields(&self) -> RegistryEntryFields {
        RegistryEntryFields {
            reg_type: self.reg_type,
            address: self.address,
            device_id: self.device_id,
            reg_value_type: self.reg_value_type,
            topic: self.topic.spec_bytes(),
        }
    }

    /// Reads a registry-map line, or gives `None` where it is not one.
    pub fn try_parse_from_line(line: &'a str) -> (r: Option<RegistryEntry<'a>>)
        ensures
            match parse_registry_line(line.spec_bytes()) {
                Some(f) => r matches Some(e) && e.fields() == f,
                None => r is None,
            },
    {
        let ghost l = line.spec_bytes();
        let (f0, s1) = match split_once_byte(line, COMMA) {
            Some(p) => p,
            None => {
                assert(split_on(l, COMMA) =~= seq![l]);
                return None;
            },
        };
        let ghost p0 = split_on(l, COMMA);
        assert(p0 =~= seq![f0.spec_bytes()] + split_on(s1.spec_bytes(), COMMA));
        let (f1, s2) = match split_once_byte(s1, COMMA) {
            Some(p) => p,
            None => {
                assert(p0.len() == 2);
                return None;
            },
        };
        let ghost p1 = split_on(s1.spec_bytes(), COMMA);
        assert(p1 =~= seq![f1.spec_bytes()] + split_on(s2.spec_bytes(), COMMA));
        let (f2, s3) = match split_once_byte(s2, COMMA) {
            Some(p) => p,
            None => {
                assert(p0.len() == 3);
                return None;
            },
        };
        let ghost p2 = split_on(s2.spec_bytes(), COMMA);
        assert(p2 =~= seq![f2.spec_bytes()] + split_on(s3.spec_bytes(), COMMA));
        let (f3, s4) = match split_once_byte(s3, COMMA) {
            Some(p) => p,
            None => {
                assert(p0.len() == 4);
                return None;
            },
        };
        let ghost p3 = split_on(s3.spec_bytes(), COMMA);
        assert(p3 =~= seq![f3.spec_bytes()] + split_on(s4.spec_bytes(), COMMA));
        let topic = match split_once_byte(s4, COMMA) {
            Some((t, _)) => t,
            None => s4,
        };
        let ghost p4 = split_on(s4.spec_bytes(), COMMA);
        assert(p4.len() >= 1 && p4[0] == topic.spec_bytes());
        assert(p0.len() >= 5);
        assert(p0[0] == f0.spec_bytes());
        assert(p0[1] == f1.spec_bytes());
        assert(p0[2] == f2.spec_bytes());
        assert(p0[3] == f3.spec_bytes());
        assert(p0[4] == topic.spec_bytes());
        let device_id = match parse_unsigned_bytes(f0.as_bytes(), 255) {
            Some(v) => v as u8,
            None => return None,
        };
        let address = match parse_unsigned_bytes(f1.as_bytes(), 65535) {
            Some(v) => v as u16,
            None => return None,
        };
        let reg_type = match registry_type_from_code(f2.as_bytes()) {
            Some(t) => t,
            None => return None,
        };
        let reg_value_type = match value_type_from_code(f3.as_bytes()) {
            Some(t) => t,
            None => return None,
        };
        Some(RegistryEntry { reg_type, address, device_id, reg_value_type, topic })
    }

    /// Reads a registry-map line. The line must be one (see
    /// `parse_registry_line`).
    pub fn parse_from_line(line: &'a str) -> (r: RegistryEntry<'a>)
        requires
            parse_registry_line(line.spec_bytes()) is Some,
        ensures
            Some(r.fields()) == parse_registry_line(line.spec_bytes()),
    {
        Self::try_parse_from_line(line).unwrap()
    }
}

/// A line without the carriage return of a `\r\n` line ending.
pub fn strip_cr_str<'a>(line: &'a str) -> (r: &'a str)
    ensures
        r.spec_bytes() == strip_cr(line.spec_bytes()),
{
    let bytes = line.as_bytes();
    let n = bytes.len();
    if n > 0 && bytes[n - 1] == CR {
        proof {
            let lb = line.spec_bytes();
            assert(lb == encode_utf8(line@));
            encode_utf8_valid_utf8(line@);
            assert(!is_continuation_byte(lb[n - 1]));
            is_char_boundary_iff_not_is_continuation_byte(lb, n - 1);
        }
        let (head, _) = line.split_at(n - 1);
        assert(head.spec_bytes() =~= strip_cr(line.spec_bytes()));
        head
    } else {
        line
    }
}

/// The registry map, read line by line: each call of `next` gives the entry
/// of the next line of the text.
pub struct RegistryMap<'a> {
    rest: &'a str,
}

impl<'a> View for RegistryMap<'a> {
    type V = Seq<Seq<u8>>;

    /// The lines not yet read.
    closed spec fn view(&self) -> Seq<Seq<u8>> {
        text_lines(self.rest.spec_bytes())
    }
}

/// What one call of `next` does to the lines not yet read: with none left it
/// gives nothing and leaves them; otherwise it gives the entry of the first
/// and drops it.
pub open spec fn next_step(lines: Seq<Seq<u8>>) -> (Option<RegistryEntryFields>, Seq<Seq<u8>>) {
    if lines.len() == 0 {
        (None, lines)
    } else {
        (parse_registry_line(lines[0]), lines.drop_first())
    }
}

/// The lines not yet read after `k` calls of `next`.
pub open spec fn lines_after(lines: Seq<Seq<u8>>, k: nat) -> Seq<Seq<u8>>
    decreases k,
{
    if k == 0 {
        lines
    } else {
        next_step(lines_after(lines, (k - 1) as nat)).1
    }
}

/// The contents of an entry that `next` gave, if any.
pub open spec fn given_fields<'a>(r: Option<RegistryEntry<'a>>) -> Option<RegistryEntryFields> {
    match r {
        Some(e) => Some(e.fields()),
        None => None,
    }
}

/// Reading a registry map from `new` on: call `k + 1` of `next` gives the
/// entry of line `k + 1` of the text, for every line in order, none skipped
/// or repeated; once every line is read, every later call gives nothing.
pub proof fn lemma_reading_order(text: Seq<u8>, k: nat)
    ensures
        lines_after(text_lines(text), k) == text_lines(text).skip(
            if k <= text_lines(text).len() { k as int } else { text_lines(text).len() as int },
        ),
        next_step(lines_after(text_lines(text), k)).0 == if k < text_lines(text).len() {
            parse_registry_line(text_lines(text)[k as int])
        } else {
            None
        },
    decreases k,
{
    let lines = text_lines(text);
    if k == 0 {
        assert(lines.skip(0) =~= lines);
    } else {
        lemma_reading_order(text, (k - 1) as nat);
        if k <= lines.len() {
            assert(lines.skip(k - 1).drop_first() =~= lines.skip(k as int));
        }
    }
    if k < lines.len() {
        assert(lines.skip(k as int)[0] == lines[k as int]);
    }
}

impl<'a> RegistryMap<'a> {
    /// A reader over the lines of `in_memory_map`.
    pub fn new(in_memory_map: &'a str) -> (r: RegistryMap<'a>)
        ensures
            r@ == text_lines(in_memory_map.spec_bytes()),
    {
        RegistryMap { rest: in_memory_map }
    }

    /// The entry of the next line, or `None` when every line has been read.
    /// The next line, if there is one, must be a registry-map line.
    pub fn next(&mut self) -> (r: Option<RegistryEntry<'a>>)
        requires
            old(self)@.len() > 0 ==> parse_registry_line(old(self)@[0]) is Some,
        ensures
            (given_fields(r), final(self)@) == next_step(old(self)@),
            old(self)@.len() == 0 ==> r is None && final(self)@ == old(self)@,
            old(self)@.len() > 0 ==> (r matches Some(e) && Some(e.fields()) == parse_registry_line(
                old(self)@[0],
            ) && final(self)@ == old(self)@.drop_first()),
    {
        let ghost rb = self.rest.spec_bytes();
        if self.rest.as_bytes().len() == 0 {
            assert(find_byte(rb, LF) is None);
            return None;
        }
        let line = match split_once_byte(self.rest, LF) {
            Some((line, after)) => {
                assert(text_lines(rb) == seq![strip_cr(line.spec_bytes())] + text_lines(
                    after.spec_bytes(),
                ));
                self.rest = after;
                strip_cr_str(line)
            },
            None => {
                let line = self.rest;
                proof {
                    assert(line.spec_bytes() == encode_utf8(line@));
                    encode_utf8_valid_utf8(line@);
                    is_char_boundary_start_end_of_seq(line.spec_bytes());
                }
                let (_, after) = line.split_at(line.as_bytes().len());
                assert(after.spec_bytes().len() == 0);
                assert(find_byte(after.spec_bytes(), LF) is None);
                assert(text_lines(after.spec_bytes()) =~= Seq::<Seq<u8>>::empty());
                assert(text_lines(rb) == seq![rb]);
                self.rest = after;
                line
            },
        };
        assert(old(self)@[0] == line.spec_bytes());
        Some(RegistryEntry::parse_from_line(line))
    }
}

} // verus!
