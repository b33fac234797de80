//! From a registry entry to the MQTT message that publishes it.
use vstd::prelude::*;
use vstd::string::StringSliceAdditionalSpecFns;
use vstd::utf8::{encode_scalar, encode_utf8};
use crate::firmware::mqtt::MqttError;
use crate::firmware::registry_map::RegistryEntry;

verus! {

/// What can go wrong while reading an entry and publishing it.
#[derive(Debug)]
#[non_exhaustive]
pub enum ModBusMqttBridgeError {
    MqttError(MqttError),
    /// The topic would take the first number of bytes; a topic holds at most
    /// the second.
    TopicFormatError(usize, usize),
}

impl From<MqttError> for ModBusMqttBridgeError {
    fn from(err: MqttError) -> (r: Self) {
        Self::MqttError(err)
    }
}

impl vstd::std_specs::convert::FromSpecImpl<MqttError> for ModBusMqttBridgeError {
    open spec fn obeys_from_spec() -> bool {
        true
    }

    open spec fn from_spec(err: MqttError) -> Self {
        ModBusMqttBridgeError::MqttError(err)
    }
}

#[verifier::external_type_specification]
#[verifier::external_body]
pub struct ExHeaplessString<const N: usize>(heapless::String<N>);

/// The most bytes a topic holds.
pub const TOPIC_CAPACITY: usize = 128;

/// The UTF-8 bytes held by a topic buffer.
pub uninterp spec fn topic_bytes(topic: heapless::String<128>) -> Seq<u8>;

/// `heapless::String::new`: an empty topic.
#[verifier::external_body]
fn topic_new() -> (r: heapless::String<128>)
    ensures
        topic_bytes(r) == Seq::<u8>::empty(),
{
    heapless::String::new()
}

/// `heapless::String::push_str`: appends `string` where all of it fits, and
/// otherwise fails and leaves the topic as it was.
#[verifier::external_body]
fn topic_push_str(topic: &mut heapless::String<128>, string: &str) -> (r: Result<(), ()>)
    ensures
        topic_bytes(*old(topic)).len() + string.spec_bytes().len() <= 128 ==> r is Ok
            && topic_bytes(*final(topic)) == topic_bytes(*old(topic)) + string.spec_bytes(),
        topic_bytes(*old(topic)).len() + string.spec_bytes().len() > 128 ==> r is Err
            && topic_bytes(*final(topic)) == topic_bytes(*old(topic)),
{
    topic.push_str(string)
}

/// `heapless::String::push`: appends the UTF-8 encoding of `c` where it
/// fits, and otherwise fails and leaves the topic as it was.
#[verifier::external_body]
fn topic_push(topic: &mut heapless::String<128>, c: char) -> (r: Result<(), ()>)
    ensures
        topic_bytes(*old(topic)).len() + encode_utf8(seq![c]).len() <= 128 ==> r is Ok
            && topic_bytes(*final(topic)) == topic_bytes(*old(topic)) + encode_utf8(seq![c]),
        topic_bytes(*old(topic)).len() + encode_utf8(seq![c]).len() > 128 ==> r is Err
            && topic_bytes(*final(topic)) == topic_bytes(*old(topic)),
{
    topic.push(c)
}

/// The `/` that joins topic levels.
pub open spec fn slash() -> Seq<u8> {
    seq![47u8]
}

/// Appends `base_topic`, `/` and `specific_topic` to `topic`, stopping at the
/// first of them that does not fit; that failure is reported with the size the
/// joined topic would have had and the capacity.
fn format_topic(topic: &mut heapless::String<128>, base_topic: &str, specific_topic: &str) -> (r:
    Result<(), ModBusMqttBridgeError>)
    requires
        base_topic.spec_bytes().len() + specific_topic.spec_bytes().len() + 1 <= usize::MAX,
    ensures
        ({
            let t = topic_bytes(*old(topic));
            let b = base_topic.spec_bytes();
            let s = specific_topic.spec_bytes();
            let err = ModBusMqttBridgeError::TopicFormatError(
                (b.len() + s.len() + 1) as usize,
                TOPIC_CAPACITY,
            );
            if t.len() + b.len() > 128 {
                r == Err::<(), ModBusMqttBridgeError>(err) && topic_bytes(*final(topic)) == t
            } else if t.len() + b.len() + 1 > 128 {
                r == Err::<(), ModBusMqttBridgeError>(err) && topic_bytes(*final(topic)) == t + b
            } else if t.len() + b.len() + 1 + s.len() > 128 {
                r == Err::<(), ModBusMqttBridgeError>(err) && topic_bytes(*final(topic)) == t + b
                    + slash()
            } else {
                r is Ok && topic_bytes(*final(topic)) == t + b + slash() + s
            }
        }),
{
    let expected_size = base_topic.len() + specific_topic.len() + 1;
    assert(encode_utf8(seq!['/']) =~= slash()) by {
        let cs = seq!['/'];
        assert(cs.drop_first() =~= Seq::<char>::empty());
        assert(cs[0] as u32 == 47);
        assert((47u32 & 0x7F) == 47u32) by (bit_vector);
        assert(encode_scalar(47u32) =~= seq![47u8]);
        assert(encode_utf8(cs) == encode_scalar(cs[0] as u32) + encode_utf8(cs.drop_first()));
    }
    if topic_push_str(topic, base_topic).is_err() {
        return Err(ModBusMqttBridgeError::TopicFormatError(expected_size, TOPIC_CAPACITY));
    }
    if topic_push(topic, '/').is_err() {
        return Err(ModBusMqttBridgeError::TopicFormatError(expected_size, TOPIC_CAPACITY));
    }
    if topic_push_str(topic, specific_topic).is_err() {
        return Err(ModBusMqttBridgeError::TopicFormatError(expected_size, TOPIC_CAPACITY));
    }
    Ok(())
}

/// The topic that an entry is published under: `base_topic`, `/` and the
/// entry's topic, where that fits in a topic; else the size it would have had.
pub fn entry_topic(registry_entry: &RegistryEntry<'_>, base_topic: &str) -> (r: Result<
    heapless::String<128>,
    ModBusMqttBridgeError,
>)
    requires
        base_topic.spec_bytes().len() + registry_entry.topic.spec_bytes().len() + 1 <= usize::MAX,
    ensures
        ({
            let b = base_topic.spec_bytes();
            let s = registry_entry.topic.spec_bytes();
            if b.len() + 1 + s.len() <= 128 {
                r matches Ok(topic) && topic_bytes(topic) == b + slash() + s
            } else {
                r matches Err(e) && e == ModBusMqttBridgeError::TopicFormatError(
                    (b.len() + s.len() + 1) as usize,
                    TOPIC_CAPACITY,
                )
            }
        }),
        r matches Ok(topic) ==> topic_bytes(topic) == base_topic.spec_bytes() + seq!['/' as u8]
            + registry_entry.topic.spec_bytes() && topic_bytes(topic).len() <= 128,
        r matches Err(e) ==> e == ModBusMqttBridgeError::TopicFormatError(
            (base_topic.spec_bytes().len() + registry_entry.topic.spec_bytes().len() + 1) as usize,
            128,
        ) && base_topic.spec_bytes().len() + registry_entry.topic.spec_bytes().len() + 1 > 128,
{
    let mut topic = topic_new();
    match format_topic(&mut topic, base_topic, registry_entry.topic) {
        Ok(()) => {
            assert(Seq::<u8>::empty() + base_topic.spec_bytes() =~= base_topic.spec_bytes());
            Ok(topic)
        },
        Err(e) => Err(e),
    }
}

/// The payload published for every entry.
pub fn entry_payload() -> (r: Vec<u8>)
    ensures
        r@ == seq!['t' as u8, 'e' as u8, 's' as u8, 't' as u8],
{
    vec!['t' as u8, 'e' as u8, 's' as u8, 't' as u8]
}

} // verus!
