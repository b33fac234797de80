//! The firmware's registry map: one line per register, in the form
//! `register_type,address,value_type,topic`.
use vstd::prelude::*;
use vstd::string::StringSliceAdditionalSpecFns;
use crate::registry_map::{is_code1, strip_cr_str};
use crate::text::{
    find_byte, lemma_split_on_concat, lemma_split_on_single, parse_unsigned, parse_unsigned_bytes, split_on,
    split_once_byte, text_lines, COMMA, LF,
};
use vstd::utf8::{encode_utf8, encode_utf8_valid_utf8, is_char_boundary_start_end_of_seq};

verus! {

/// Which Modbus register table an entry is read from.
#[derive(Debug, Clone, Copy, PartialEq, Eq, Structural)]
pub enum RegistryType {
    Holding,
    Input,
}

/// How the register contents are to be read.
#[derive(Debug, Clone, Copy, PartialEq, Eq, Structural)]
pub enum RegistryValueType {
    Float,
}

/// One line of the registry map.
#[derive(Debug)]
pub struct RegistryEntry<'a> {
    pub reg_type: RegistryType,
    pub address: u16,
    pub reg_value_type: RegistryValueType,
    pub topic: &'a str,
}

/// The contents of a registry entry, with the topic as its UTF-8 bytes.
pub struct RegistryEntryFields {
    pub reg_type: RegistryType,
    pub address: u16,
    pub reg_value_type: RegistryValueType,
    pub topic: Seq<u8>,
}

/// The register type named by a field: `h` or `i`.
pub open spec fn registry_type_code(f: Seq<u8>) -> Option<RegistryType> {
    if f == seq!['h' as u8] {
        Some(RegistryType::Holding)
    } else if f == seq!['i' as u8] {
        Some(RegistryType::Input)
    } else {
        None
    }
}

/// The value type named by a field: only `f`.
pub open spec fn value_type_code(f: Seq<u8>) -> Option<RegistryValueType> {
    if f == seq!['f' as u8] {
        Some(RegistryValueType::Float)
    } else {
        None
    }
}

/// The entry that a line describes, or `None` where the line is not one:
/// fewer than four comma-separated fields, an unknown register or value type,
/// or an address that is not a `u16`. Fields after the fourth are ignored.
pub open spec fn parse_registry_line(line: Seq<u8>) -> Option<RegistryEntryFields> {
    let f = split_on(line, COMMA);
    if f.len() < 4 {
        None
    } else {
        match (registry_type_code(f[0]), parse_unsigned(f[1], 65535), value_type_code(f[2])) {
            (Some(reg_type), Some(address), Some(reg_value_type)) => Some(
                RegistryEntryFields { reg_type, address: address as u16, reg_value_type, topic: f[3] },
            ),
            _ => None,
        }
    }
}

/// Fields after the fourth do not change the entry a line describes.
pub proof fn lemma_extra_fields_ignored(line: Seq<u8>, extra: Seq<u8>)
    requires
        split_on(line, COMMA).len() >= 4,
    ensures
        parse_registry_line(line + seq![COMMA] + extra) == parse_registry_line(line),
{
    lemma_split_on_concat(line, extra, COMMA);
    let f = split_on(line, COMMA);
    let g = split_on(line + seq![COMMA] + extra, COMMA);
    assert(g[0] == f[0] && g[1] == f[1] && g[2] == f[2] && g[3] == f[3]);
}

/// A line made of four comma-free fields joined by commas describes the entry
/// of those fields, in that order: register type (`h` or `i`), address, value
/// type (`f`), topic; and it is a line of the map exactly when both types are
/// known and the address is a `u16`.
pub proof fn lemma_line_fields(t: Seq<u8>, a: Seq<u8>, v: Seq<u8>, topic: Seq<u8>)
    requires
        forall|i: int| 0 <= i < t.len() ==> t[i] != COMMA,
        forall|i: int| 0 <= i < a.len() ==> a[i] != COMMA,
        forall|i: int| 0 <= i < v.len() ==> v[i] != COMMA,
        forall|i: int| 0 <= i < topic.len() ==> topic[i] != COMMA,
    ensures
        ({
            let line = t + seq![COMMA] + a + seq![COMMA] + v + seq![COMMA] + topic;
            &&& parse_registry_line(line) is Some <==> ((t == seq!['h' as u8] || t == seq![
                'i' as u8]) && parse_unsigned(a, 65535) is Some && v == seq!['f' as u8])
            &&& parse_registry_line(line) matches Some(f) ==> {
                &&& (f.reg_type == RegistryType::Holding) == (t == seq!['h' as u8])
                &&& (f.reg_type == RegistryType::Input) == (t == seq!['i' as u8])
                &&& f.address as nat == parse_unsigned(a, 65535).unwrap()
                &&& f.reg_value_type == RegistryValueType::Float
                &&& f.topic == topic
            }
        }),
{
    let line = t + seq![COMMA] + a + seq![COMMA] + v + seq![COMMA] + topic;
    let r2 = v + seq![COMMA] + topic;
    let r1 = a + seq![COMMA] + r2;
    assert(line =~= t + seq![COMMA] + r1);
    lemma_split_on_single(t, COMMA);
    lemma_split_on_single(a, COMMA);
    lemma_split_on_single(v, COMMA);
    lemma_split_on_single(topic, COMMA);
    lemma_split_on_concat(v, topic, COMMA);
    lemma_split_on_concat(a, r2, COMMA);
    lemma_split_on_concat(t, r1, COMMA);
    assert(split_on(line, COMMA) =~= seq![t, a, v, topic]);
    assert(seq!['i' as u8][0] != seq!['h' as u8][0]);
}

impl<'a> RegistryEntry<'a> {
    /// The contents of this entry.
    pub open spec fn fields(&self) -> RegistryEntryFields {
        RegistryEntryFields {
            reg_type: self.reg_type,
            address: self.address,
            reg_value_type: self.reg_value_type,
            topic: self.topic.spec_bytes(),
        }
    }

    /// Reads a line, or gives `None` where it is not one.
    pub fn try_parse_from_line(line: &'a str) -> (r: Option<RegistryEntry<'a>>)
        ensures
            match parse_registry_line(line.spec_bytes()) {
                Some(f) => r matches Some(e) && e.fields() == f,
                None => r is None,
            },
    {
        let ghost l = line.spec_bytes();
        let (f0, s1) = match split_once_byte(line, COMMA) {
            Some(p) => p,
            None => {
                assert(split_on(l, COMMA) =~= seq![l]);
                return None;
            },
        };
        let ghost p0 = split_on(l, COMMA);
        assert(p0 =~= seq![f0.spec_bytes()] + split_on(s1.spec_bytes(), COMMA));
        let (f1, s2) = match split_once_byte(s1, COMMA) {
            Some(p) => p,
            None => {
                assert(p0.len() == 2);
                return None;
            },
        };
        let ghost p1 = split_on(s1.spec_bytes(), COMMA);
        assert(p1 =~= seq![f1.spec_bytes()] + split_on(s2.spec_bytes(), COMMA));
        let (f2, s3) = match split_once_byte(s2, COMMA) {
            Some(p) => p,
            None => {
                assert(p0.len() == 3);
                return None;
            },
        };
        let ghost p2 = split_on(s2.spec_bytes(), COMMA);
        assert(p2 =~= seq![f2.spec_bytes()] + split_on(s3.spec_bytes(), COMMA));
        let topic = match split_once_byte(s3, COMMA) {
            Some((t, _)) => t,
            None => s3,
        };
        let ghost p3 = split_on(s3.spec_bytes(), COMMA);
        assert(p3.len() >= 1 && p3[0] == topic.spec_bytes());
        assert(p0.len() >= 4);
        assert(p0[0] == f0.spec_bytes());
        assert(p0[1] == f1.spec_bytes());
        assert(p0[2] == f2.spec_bytes());
        assert(p0[3] == topic.spec_bytes());
        let reg_type = if is_code1(f0.as_bytes(), 'h' as u8) {
            RegistryType::Holding
        } else if is_code1(f0.as_bytes(), 'i' as u8) {
            RegistryType::Input
        } else {
            return None;
        };
        let address = match parse_unsigned_bytes(f1.as_bytes(), 65535) {
            Some(v) => v as u16,
            None => return None,
        };
        let reg_value_type = if is_code1(f2.as_bytes(), 'f' as u8) {
            RegistryValueType::Float
        } else {
            return None;
        };
        Some(RegistryEntry { reg_type, address, reg_value_type, topic })
    }

    /// Reads a line, which must be a registry-map line (see
    /// `parse_registry_line`).
    pub fn parse_from_line(line: &'a str) -> (r: RegistryEntry<'a>)
        requires
            parse_registry_line(line.spec_bytes()) is Some,
        ensures
            Some(r.fields()) == parse_registry_line(line.spec_bytes()),
    {
        Self::try_parse_from_line(line).unwrap()
    }
}

/// The registry map, read line by line.
pub struct RegistryMap {
    rest: &'static str,
}

impl View for RegistryMap {
    type V = Seq<Seq<u8>>;

    /// The lines not yet read.
    closed spec fn view(&self) -> Seq<Seq<u8>> {
        text_lines(self.rest.spec_bytes())
    }
}

impl RegistryMap {
    /// A reader over the lines of `in_memory_map`.
    pub fn new(in_memory_map: &'static str) -> (r: RegistryMap)
        ensures
            r@ == text_lines(in_memory_map.spec_bytes()),
    {
        RegistryMap { rest: in_memory_map }
    }

    /// The entry of the next line, or `None` when every line has been read.
    /// The next line, if there is one, must be a registry-map line.
    pub fn next(&mut self) -> (r: Option<RegistryEntry<'static>>)
        requires
            old(self)@.len() > 0 ==> parse_registry_line(old(self)@[0]) is Some,
        ensures
            old(self)@.len() == 0 ==> r is None && final(self)@ == old(self)@,
            old(self)@.len() > 0 ==> (r matches Some(e) && Some(e.fields()) == parse_registry_line(
                old(self)@[0],
            ) && final(self)@ == old(self)@.drop_first()),
    {
        let ghost rb = self.rest.spec_bytes();
        if self.rest.as_bytes().len() == 0 {
            assert(find_byte(rb, LF) is None);
            return None;
        }
        let line = match split_once_byte(self.rest, LF) {
            Some((line, after)) => {
                assert(text_lines(rb) == seq![crate::text::strip_cr(line.spec_bytes())]
                    + text_lines(after.spec_bytes()));
                self.rest = after;
                strip_cr_str(line)
            },
            None => {
                let line = self.rest;
                proof {
                    assert(line.spec_bytes() == encode_utf8(line@));
                    encode_utf8_valid_utf8(line@);
                    is_char_boundary_start_end_of_seq(line.spec_bytes());
                }
                let (_, after) = line.split_at(line.as_bytes().len());
                assert(after.spec_bytes().len() == 0);
                assert(find_byte(after.spec_bytes(), LF) is None);
                assert(text_lines(after.spec_bytes()) =~= Seq::<Seq<u8>>::empty());
                assert(text_lines(rb) == seq![rb]);
                self.rest = after;
                line
            },
        };
        assert(old(self)@[0] == line.spec_bytes());
        Some(RegistryEntry::parse_from_line(line))
    }
}

} // verus!
