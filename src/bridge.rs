//! The bridge coordinator: the single consumer of the event bus. It keeps
//! the registry in step with lifecycle events and turns input reports into
//! the byte messages for the output sink.

use crate::device::{
    is_native_instruments_device, DeviceIdentifier, DeviceState, DeviceStateView,
    ManagedDeviceView, MASCHINE_JAM_PID, NATIVE_INSTRUMENTS_VID,
};
use crate::device_registry::{spec_record, DeviceRegistry};
use crate::events::HidEvent;
use crate::midi::{message_bytes, MidiMessage};
use crate::midi_mapping::{byte_messages, fired_messages, MidiMappingConfig};
use crate::usb_midi_mapper::{handler_next, handler_output, MidiEnabledRusbHidEventHandler};
use vstd::prelude::*;

verus! {

/// The hexadecimal digit of `n`, lower case.
pub open spec fn hex_digit(n: int) -> char {
    if n < 10 {
        (48 + n) as char
    } else {
        (87 + n) as char
    }
}

/// Four lower-case hexadecimal digits of `v`, zero-padded.
pub open spec fn hex4(v: u16) -> Seq<char> {
    seq![
        hex_digit(v as int / 4096),
        hex_digit((v as int / 256) % 16),
        hex_digit((v as int / 16) % 16),
        hex_digit(v as int % 16),
    ]
}

/// The name a device is given when nothing better is known:
/// `Device vvvv:pppp`.
pub open spec fn default_device_name(id: DeviceIdentifier) -> Seq<char> {
    seq!['D', 'e', 'v', 'i', 'c', 'e', ' '] + hex4(id.vendor_id) + seq![':'] + hex4(id.product_id)
}

/// Relies on std's `format!`: `{:04x}` writes a `u16` as four lower-case
/// hexadecimal digits, zero-padded.
#[verifier::external_body]
fn format_device_name(vendor_id: u16, product_id: u16) -> (r: String)
    ensures
        r@ == default_device_name(DeviceIdentifier { vendor_id, product_id }),
{
    format!("Device {:04x}:{:04x}", vendor_id, product_id)
}

/// The diagnostic an error is recorded with when it came without one.
pub open spec fn fallback_error() -> Seq<char> {
    seq!['I', '/', 'O', ' ', 'e', 'r', 'r', 'o', 'r']
}

/// The diagnostic an error state carries: the reported one, or the fallback
/// when that is empty.
pub open spec fn error_diagnostic(reported: Seq<char>) -> Seq<char> {
    if reported.len() == 0 {
        fallback_error()
    } else {
        reported
    }
}

fn diagnostic(reported: String) -> (r: String)
    ensures
        r@ == error_diagnostic(reported@),
        r@.len() > 0,
{
    if reported.as_str().is_empty() {
        let r = String::from_str("I/O error");
        proof {
            reveal_strlit("I/O error");
            assert(r@ =~= fallback_error());
        }
        r
    } else {
        reported
    }
}

/// How the MIDI of a Maschine Jam report of the HID backend is made: report
/// 0x01 is a button (note on at full velocity when pressed, note off when
/// released), report 0x02 an encoder or the touch strip (a control change);
/// a report of fewer than three bytes, or another report id, gives nothing.
pub open spec fn jam_report_midi(data: Seq<u8>) -> Option<Seq<u8>> {
    if data.len() < 3 {
        None
    } else if data[0] == 0x01 {
        if data[2] > 0 {
            Some(seq![0x90u8, data[1], 0x7Fu8])
        } else {
            Some(seq![0x80u8, data[1], 0x00u8])
        }
    } else if data[0] == 0x02 {
        Some(seq![0xB0u8, data[1], data[2]])
    } else {
        None
    }
}

/// The MIDI that a report of the HID backend gives: only the Maschine Jam's
/// reports are read.
pub open spec fn hid_report_midi(vendor_id: u16, product_id: u16, data: Seq<u8>) -> Option<
    Seq<u8>,
> {
    if vendor_id == NATIVE_INSTRUMENTS_VID && product_id == MASCHINE_JAM_PID {
        jam_report_midi(data)
    } else {
        None
    }
}

pub fn translate_maschine_jam_to_midi(data: &[u8]) -> (r: Option<Vec<u8>>)
    ensures
        match r {
            Some(v) => jam_report_midi(data@) == Some(v@),
            None => jam_report_midi(data@) is None,
        },
{
    if data.len() < 2 {
        return None;
    }
    let report_id = data[0];
    if report_id == 0x01 {
        if data.len() >= 3 {
            let button = data[1];
            let pressed = data[2] > 0;
            if pressed {
                Some(vec![0x90, button, 0x7F])
            } else {
                Some(vec![0x80, button, 0x00])
            }
        } else {
            None
        }
    } else if report_id == 0x02 {
        if data.len() >= 3 {
            let controller = data[1];
            let value = data[2];
            Some(vec![0xB0, controller, value])
        } else {
            None
        }
    } else {
        None
    }
}

pub fn translate_hid_to_midi(vendor_id: u16, product_id: u16, data: &[u8]) -> (r: Option<Vec<u8>>)
    ensures
        match r {
            Some(v) => hid_report_midi(vendor_id, product_id, data@) == Some(v@),
            None => hid_report_midi(vendor_id, product_id, data@) is None,
        },
{
    if is_native_instruments_device(vendor_id, product_id) && product_id == MASCHINE_JAM_PID {
        translate_maschine_jam_to_midi(data)
    } else {
        None
    }
}

/// The wire encodings of a list of messages.
pub open spec fn midi_bytes(msgs: Seq<MidiMessage>) -> Seq<Seq<u8>> {
    msgs.map_values(|m: MidiMessage| message_bytes(m))
}

fn encode_all(msgs: &Vec<MidiMessage>) -> (r: Vec<Vec<u8>>)
    ensures
        byte_messages(r@) == midi_bytes(msgs@),
{
    let mut out: Vec<Vec<u8>> = Vec::new();
    let mut i: usize = 0;
    while i < msgs.len()
        invariant
            i <= msgs@.len(),
            byte_messages(out@) == midi_bytes(msgs@.subrange(0, i as int)),
        decreases msgs@.len() - i,
    {
        let ghost earlier = byte_messages(out@);
        let bytes = msgs[i].to_bytes();
        out.push(bytes);
        assert(byte_messages(out@) =~= earlier.push(message_bytes(msgs@[i as int])));
        assert(midi_bytes(msgs@.subrange(0, i + 1)) =~= midi_bytes(msgs@.subrange(0, i as int)).push(
            message_bytes(msgs@[i as int]),
        ));
        i = i + 1;
    }
    assert(msgs@.subrange(0, i as int) =~= msgs@);
    out
}

/// How input reports are translated.
pub enum TranslatorStrategy {
    /// A rule set: the message of every rule that fires is sent.
    Rules(MidiMappingConfig),
    /// The Maschine Jam parser and mapping of the rusb backend.
    MaschineJam(MidiEnabledRusbHidEventHandler),
    /// The fixed report layout of the HID backend.
    HidReports,
}

/// The registry after `event`: a connection makes its device active, a
/// disconnection makes it disconnected, an error records its diagnostic;
/// an unknown device is added under its default name. Reports change
/// nothing.
pub open spec fn lifecycle_effect(s: Seq<ManagedDeviceView>, event: HidEvent) -> Seq<
    ManagedDeviceView,
> {
    match event {
        HidEvent::DeviceConnected { vendor_id, product_id } => {
            let id = DeviceIdentifier { vendor_id, product_id };
            spec_record(s, id, default_device_name(id), DeviceStateView::Active)
        },
        HidEvent::DeviceDisconnected { vendor_id, product_id } => {
            let id = DeviceIdentifier { vendor_id, product_id };
            spec_record(s, id, default_device_name(id), DeviceStateView::Disconnected)
        },
        HidEvent::InputReport { .. } => s,
        HidEvent::Error { vendor_id, product_id, error } => {
            let id = DeviceIdentifier { vendor_id, product_id };
            spec_record(
                s,
                id,
                default_device_name(id),
                DeviceStateView::Error(error_diagnostic(error@)),
            )
        },
    }
}

/// The byte messages a rule set sends for `event`.
pub open spec fn rules_output(config: MidiMappingConfig, event: HidEvent) -> Seq<Seq<u8>> {
    match event {
        HidEvent::InputReport { vendor_id, product_id, data } => fired_messages(
            config.mapping@,
            data@,
            DeviceIdentifier { vendor_id, product_id },
        ),
        _ => Seq::empty(),
    }
}

/// The byte messages the HID report layout sends for `event`.
pub open spec fn hid_output(event: HidEvent) -> Seq<Seq<u8>> {
    match event {
        HidEvent::InputReport { vendor_id, product_id, data } => match hid_report_midi(
            vendor_id,
            product_id,
            data@,
        ) {
            Some(b) => seq![b],
            None => Seq::empty(),
        },
        _ => Seq::empty(),
    }
}

/// Drains events: keeps the registry in step and translates reports.
pub struct BridgeCoordinator {
    pub registry: DeviceRegistry,
    pub strategy: TranslatorStrategy,
}

impl BridgeCoordinator {
    pub open spec fn well_formed(&self) -> bool {
        &&& self.registry.well_formed()
        &&& (self.strategy matches TranslatorStrategy::MaschineJam(h) ==> h.well_formed())
    }

    /// A coordinator with an empty registry.
    pub fn new(strategy: TranslatorStrategy) -> (r: BridgeCoordinator)
        requires
            strategy matches TranslatorStrategy::MaschineJam(h) ==> h.well_formed(),
        ensures
            r.well_formed(),
            r.registry@ == Seq::<ManagedDeviceView>::empty(),
            r.strategy == strategy,
    {
        BridgeCoordinator { registry: DeviceRegistry::new(), strategy }
    }

    /// Handles one event; returns the byte messages to send, in order.
    pub fn handle_event(&mut self, event: HidEvent) -> (r: Vec<Vec<u8>>)
        requires
            old(self).well_formed(),
        ensures
            final(self).well_formed(),
            final(self).registry@ == lifecycle_effect(old(self).registry@, event),
            match old(self).strategy {
                TranslatorStrategy::Rules(config) => {
                    &&& final(self).strategy == old(self).strategy
                    &&& byte_messages(r@) == rules_output(config, event)
                },
                TranslatorStrategy::HidReports => {
                    &&& final(self).strategy == old(self).strategy
                    &&& byte_messages(r@) == hid_output(event)
                },
                TranslatorStrategy::MaschineJam(h) => {
                    &&& final(self).strategy matches TranslatorStrategy::MaschineJam(h2) && h2@
                        == handler_next(h@, event)
                    &&& byte_messages(r@) == midi_bytes(handler_output(h@, event))
                },
            },
    {
        match event {
            HidEvent::DeviceConnected { vendor_id, product_id } => {
                let name = format_device_name(vendor_id, product_id);
                self.registry.record_device_state(vendor_id, product_id, name, DeviceState::Active);
                self.translate(HidEvent::DeviceConnected { vendor_id, product_id })
            },
            HidEvent::DeviceDisconnected { vendor_id, product_id } => {
                let name = format_device_name(vendor_id, product_id);
                self.registry.record_device_state(
                    vendor_id,
                    product_id,
                    name,
                    DeviceState::Disconnected,
                );
                self.translate(HidEvent::DeviceDisconnected { vendor_id, product_id })
            },
            HidEvent::InputReport { vendor_id, product_id, data } => {
                self.translate(HidEvent::InputReport { vendor_id, product_id, data })
            },
            HidEvent::Error { vendor_id, product_id, error } => {
                let name = format_device_name(vendor_id, product_id);
                let message = diagnostic(error);
                self.registry.record_device_state(
                    vendor_id,
                    product_id,
                    name,
                    DeviceState::Error(message),
                );
                Vec::new()
            },
        }
    }

    /// The translation half of `handle_event`.
    fn translate(&mut self, event: HidEvent) -> (r: Vec<Vec<u8>>)
        requires
            old(self).well_formed(),
            !(event is Error),
        ensures
            final(self).well_formed(),
            final(self).registry == old(self).registry,
            match old(self).strategy {
                TranslatorStrategy::Rules(config) => {
                    &&& final(self).strategy == old(self).strategy
                    &&& byte_messages(r@) == rules_output(config, event)
                },
                TranslatorStrategy::HidReports => {
                    &&& final(self).strategy == old(self).strategy
                    &&& byte_messages(r@) == hid_output(event)
                },
                TranslatorStrategy::MaschineJam(h) => {
                    &&& final(self).strategy matches TranslatorStrategy::MaschineJam(h2) && h2@
                        == handler_next(h@, event)
                    &&& byte_messages(r@) == midi_bytes(handler_output(h@, event))
                },
            },
    {
        match &mut self.strategy {
            TranslatorStrategy::Rules(config) => match &event {
                HidEvent::InputReport { vendor_id, product_id, data } => {
                    config.translate(
                        data.as_slice(),
                        DeviceIdentifier { vendor_id: *vendor_id, product_id: *product_id },
                    )
                },
                _ => {
                    let r: Vec<Vec<u8>> = Vec::new();
                    assert(byte_messages(r@) =~= Seq::<Seq<u8>>::empty());
                    r
                },
            },
            TranslatorStrategy::HidReports => {
                let mut r: Vec<Vec<u8>> = Vec::new();
                match &event {
                    HidEvent::InputReport { vendor_id, product_id, data } => {
                        match translate_hid_to_midi(*vendor_id, *product_id, data.as_slice()) {
                            Some(bytes) => {
                                r.push(bytes);
                            },
                            None => {},
                        }
                    },
                    _ => {},
                }
                assert(byte_messages(r@) =~= hid_output(event));
                r
            },
            TranslatorStrategy::MaschineJam(handler) => {
                let msgs = handler.handle_event(event);
                encode_all(&msgs)
            },
        }
    }
}

/// The byte messages a rule set sends for a sequence of events: those of
/// each event, in the order of the events.
pub open spec fn rules_outputs(config: MidiMappingConfig, events: Seq<HidEvent>) -> Seq<Seq<u8>>
    decreases events.len(),
{
    if events.len() == 0 {
        Seq::empty()
    } else {
        rules_outputs(config, events.drop_last()) + rules_output(config, events.last())
    }
}

/// Output follows the order of the events: the messages for two stretches
/// of events are those of the first stretch, then those of the second. So
/// however the readers' events interleave, each device's messages come out
/// in the order of its reports.
pub proof fn lemma_outputs_follow_event_order(
    config: MidiMappingConfig,
    first: Seq<HidEvent>,
    second: Seq<HidEvent>,
)
    ensures
        rules_outputs(config, first + second) == rules_outputs(config, first) + rules_outputs(
            config,
            second,
        ),
    decreases second.len(),
{
    if second.len() == 0 {
        assert(first + second =~= first);
        assert(rules_outputs(config, first) + rules_outputs(config, second) =~= rules_outputs(
            config,
            first,
        ));
    } else {
        lemma_outputs_follow_event_order(config, first, second.drop_last());
        assert((first + second).drop_last() =~= first + second.drop_last());
        assert((first + second).last() == second.last());
        assert(rules_outputs(config, first) + rules_outputs(config, second) =~= rules_outputs(
            config,
            first,
        ) + rules_outputs(config, second.drop_last()) + rules_output(config, second.last()));
    }
}

/// The device an event is about.
pub open spec fn event_device(e: HidEvent) -> DeviceIdentifier {
    match e {
        HidEvent::DeviceConnected { vendor_id, product_id } => DeviceIdentifier {
            vendor_id,
            product_id,
        },
        HidEvent::DeviceDisconnected { vendor_id, product_id } => DeviceIdentifier {
            vendor_id,
            product_id,
        },
        HidEvent::InputReport { vendor_id, product_id, .. } => DeviceIdentifier {
            vendor_id,
            product_id,
        },
        HidEvent::Error { vendor_id, product_id, .. } => DeviceIdentifier {
            vendor_id,
            product_id,
        },
    }
}

/// Whether an event is about device `id`.
pub open spec fn event_is(id: DeviceIdentifier) -> spec_fn(HidEvent) -> bool {
    |e: HidEvent| event_device(e) == id
}

/// Whether a message comes from device `id`.
pub open spec fn tag_is(id: DeviceIdentifier) -> spec_fn((DeviceIdentifier, Seq<u8>)) -> bool {
    |t: (DeviceIdentifier, Seq<u8>)| t.0 == id
}

/// Messages, each with the device it comes from.
pub open spec fn tagged(id: DeviceIdentifier, msgs: Seq<Seq<u8>>) -> Seq<
    (DeviceIdentifier, Seq<u8>),
> {
    msgs.map_values(|m: Seq<u8>| (id, m))
}

/// The messages without their devices.
pub open spec fn untagged(msgs: Seq<(DeviceIdentifier, Seq<u8>)>) -> Seq<Seq<u8>> {
    msgs.map_values(|t: (DeviceIdentifier, Seq<u8>)| t.1)
}

/// The byte messages a rule set sends for a sequence of events, each with
/// the device whose event it answers.
pub open spec fn tagged_outputs(config: MidiMappingConfig, events: Seq<HidEvent>) -> Seq<
    (DeviceIdentifier, Seq<u8>),
>
    decreases events.len(),
{
    if events.len() == 0 {
        Seq::empty()
    } else {
        tagged_outputs(config, events.drop_last()) + tagged(
            event_device(events.last()),
            rules_output(config, events.last()),
        )
    }
}

proof fn lemma_filter_tagged(tag: DeviceIdentifier, msgs: Seq<Seq<u8>>, id: DeviceIdentifier)
    ensures
        tagged(tag, msgs).filter(tag_is(id)) == if tag == id {
            tagged(tag, msgs)
        } else {
            Seq::empty()
        },
    decreases msgs.len(),
{
    reveal(Seq::filter);
    if msgs.len() > 0 {
        lemma_filter_tagged(tag, msgs.drop_last(), id);
        assert(tagged(tag, msgs).drop_last() =~= tagged(tag, msgs.drop_last()));
        if tag == id {
            assert(tagged(tag, msgs.drop_last()).push(tagged(tag, msgs).last()) =~= tagged(
                tag,
                msgs,
            ));
        }
    }
}

proof fn lemma_untagged_add(a: Seq<(DeviceIdentifier, Seq<u8>)>, b: Seq<(DeviceIdentifier, Seq<u8>)>)
    ensures
        untagged(a + b) == untagged(a) + untagged(b),
{
    assert(untagged(a + b) =~= untagged(a) + untagged(b));
}

/// Each device's messages keep the order of its reports, however the
/// readers' events interleave: taking one device's messages out of what the
/// coordinator sends gives exactly what that device's events alone give, in
/// order. Without their devices, the tagged messages are what is sent.
pub proof fn lemma_device_order_kept(
    config: MidiMappingConfig,
    events: Seq<HidEvent>,
    id: DeviceIdentifier,
)
    ensures
        untagged(tagged_outputs(config, events)) == rules_outputs(config, events),
        untagged(tagged_outputs(config, events).filter(tag_is(id))) == rules_outputs(
            config,
            events.filter(event_is(id)),
        ),
    decreases events.len(),
{
    reveal(Seq::filter);
    if events.len() == 0 {
        assert(untagged(Seq::<(DeviceIdentifier, Seq<u8>)>::empty()) =~= Seq::<Seq<u8>>::empty());
    } else {
        let prev = events.drop_last();
        let e = events.last();
        lemma_device_order_kept(config, prev, id);
        let t = tagged_outputs(config, prev);
        let l = tagged(event_device(e), rules_output(config, e));
        assert(untagged(l) =~= rules_output(config, e));
        lemma_untagged_add(t, l);
        Seq::filter_distributes_over_add(t, l, tag_is(id));
        lemma_filter_tagged(event_device(e), rules_output(config, e), id);
        lemma_untagged_add(t.filter(tag_is(id)), l.filter(tag_is(id)));
        let fp = prev.filter(event_is(id));
        if event_device(e) == id {
            assert(events.filter(event_is(id)) == fp.push(e));
            assert(fp.push(e).drop_last() =~= fp);
        } else {
            assert(events.filter(event_is(id)) == fp);
            assert(untagged(Seq::<(DeviceIdentifier, Seq<u8>)>::empty()) =~= Seq::<
                Seq<u8>,
            >::empty());
            assert(untagged(t.filter(tag_is(id))) + Seq::<Seq<u8>>::empty() =~= untagged(
                t.filter(tag_is(id)),
            ));
        }
    }
}

} // verus!
