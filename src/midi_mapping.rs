//! The configurable rule engine: byte patterns, mapping rules and the
//! translation of raw reports into output messages.

use crate::device::DeviceIdentifier;
use vstd::prelude::*;

verus! {

/// One position of a byte pattern.
#[derive(Clone, Copy, Debug, PartialEq, Eq, Structural)]
pub enum PatternByte {
    Exact(u8),
    /// Matches any value.
    Wildcard,
    Range { min: u8, max: u8 },
}

impl PatternByte {
    /// Whether `byte` is accepted by this pattern position.
    pub open spec fn accepts(self, byte: u8) -> bool {
        match self {
            PatternByte::Exact(expected) => expected == byte,
            PatternByte::Wildcard => true,
            PatternByte::Range { min, max } => min <= byte <= max,
        }
    }

    pub fn matches(&self, byte: u8) -> (r: bool)
        ensures
            r == self.accepts(byte),
    {
        match self {
            PatternByte::Exact(expected) => *expected == byte,
            PatternByte::Wildcard => true,
            PatternByte::Range { min, max } => byte >= *min && byte <= *max,
        }
    }
}

/// Whether `pattern` matches the start of `report`: the report is at least
/// as long as the pattern and each of its positions accepts the report's
/// byte there.
pub open spec fn pattern_matches(pattern: Seq<PatternByte>, report: Seq<u8>) -> bool {
    &&& report.len() >= pattern.len()
    &&& forall|i: int| 0 <= i < pattern.len() ==> #[trigger] pattern[i].accepts(report[i])
}

/// Whether an optional vendor and product filter admits `id`; an unset part
/// admits every value.
pub open spec fn filter_admits(
    vendor_id: Option<u16>,
    product_id: Option<u16>,
    id: DeviceIdentifier,
) -> bool {
    &&& (vendor_id matches Some(v) ==> v == id.vendor_id)
    &&& (product_id matches Some(p) ==> p == id.product_id)
}

/// One translation rule: a device filter, a byte pattern and the message it
/// sends.
#[derive(Clone, Debug)]
pub struct MidiMapping {
    pub vendor_id: Option<u16>,
    pub product_id: Option<u16>,
    pub usb_pattern: Vec<PatternByte>,
    pub midi_message: Vec<u8>,
}

impl MidiMapping {
    /// Whether this rule fires on `report` from device `id`.
    pub open spec fn fires(&self, report: Seq<u8>, id: DeviceIdentifier) -> bool {
        &&& filter_admits(self.vendor_id, self.product_id, id)
        &&& pattern_matches(self.usb_pattern@, report)
    }

    /// Every range of the pattern is ordered.
    pub open spec fn well_formed(&self) -> bool {
        forall|i: int|
            0 <= i < self.usb_pattern@.len() ==> (#[trigger] self.usb_pattern@[i] matches PatternByte::Range { min, max } ==> min <= max)
    }

    pub fn admits(&self, id: DeviceIdentifier) -> (r: bool)
        ensures
            r == filter_admits(self.vendor_id, self.product_id, id),
    {
        let vendor_ok = match self.vendor_id {
            Some(v) => v == id.vendor_id,
            None => true,
        };
        let product_ok = match self.product_id {
            Some(p) => p == id.product_id,
            None => true,
        };
        vendor_ok && product_ok
    }

    /// Whether this rule fires on `report` from device `id`.
    pub fn matches(&self, report: &[u8], id: DeviceIdentifier) -> (r: bool)
        ensures
            r == self.fires(report@, id),
    {
        if !self.admits(id) {
            return false;
        }
        let n = self.usb_pattern.len();
        if report.len() < n {
            return false;
        }
        let mut i: usize = 0;
        while i < n
            invariant
                n == self.usb_pattern@.len(),
                n <= report@.len(),
                i <= n,
                forall|j: int| 0 <= j < i ==> #[trigger] self.usb_pattern@[j].accepts(report@[j]),
            decreases n - i,
        {
            if !self.usb_pattern[i].matches(report[i]) {
                return false;
            }
            i = i + 1;
        }
        true
    }
}

/// The messages that `rules` send for `report` from device `id`: the message
/// of each rule that fires, in the order of the rules.
pub open spec fn fired_messages(rules: Seq<MidiMapping>, report: Seq<u8>, id: DeviceIdentifier) -> Seq<
    Seq<u8>,
>
    decreases rules.len(),
{
    if rules.len() == 0 {
        Seq::empty()
    } else {
        let earlier = fired_messages(rules.drop_last(), report, id);
        if rules.last().fires(report, id) {
            earlier.push(rules.last().midi_message@)
        } else {
            earlier
        }
    }
}

/// The contents of a list of byte messages.
pub open spec fn byte_messages(v: Seq<Vec<u8>>) -> Seq<Seq<u8>> {
    v.map_values(|m: Vec<u8>| m@)
}

/// An ordered set of translation rules.
#[derive(Clone, Debug)]
pub struct MidiMappingConfig {
    pub mapping: Vec<MidiMapping>,
}

impl MidiMappingConfig {
    pub open spec fn well_formed(&self) -> bool {
        forall|i: int| 0 <= i < self.mapping@.len() ==> #[trigger] self.mapping@[i].well_formed()
    }

    /// The messages of all rules that fire on `report` from device `id`, in
    /// rule order; empty when none fires.
    pub fn translate(&self, report: &[u8], id: DeviceIdentifier) -> (r: Vec<Vec<u8>>)
        ensures
            byte_messages(r@) == fired_messages(self.mapping@, report@, id),
    {
        let mut out: Vec<Vec<u8>> = Vec::new();
        let mut i: usize = 0;
        while i < self.mapping.len()
            invariant
                i <= self.mapping@.len(),
                byte_messages(out@) == fired_messages(self.mapping@.subrange(0, i as int), report@, id),
            decreases self.mapping@.len() - i,
        {
            let rule = &self.mapping[i];
            let ghost earlier = byte_messages(out@);
            proof {
                let upto = self.mapping@.subrange(0, i + 1);
                assert(upto.drop_last() == self.mapping@.subrange(0, i as int));
                assert(upto.last() == *rule);
            }
            if rule.matches(report, id) {
                let message = copy_bytes(&rule.midi_message);
                out.push(message);
                assert(byte_messages(out@) =~= earlier.push(rule.midi_message@));
            }
            i = i + 1;
        }
        assert(self.mapping@.subrange(0, self.mapping@.len() as int) == self.mapping@);
        out
    }
}

fn copy_bytes(v: &Vec<u8>) -> (r: Vec<u8>)
    ensures
        r@ == v@,
{
    let mut r: Vec<u8> = Vec::with_capacity(v.len());
    let mut i: usize = 0;
    while i < v.len()
        invariant
            i <= v@.len(),
            r@ == v@.subrange(0, i as int),
        decreases v@.len() - i,
    {
        r.push(v[i]);
        i = i + 1;
    }
    r
}

/// A report shorter than a rule's pattern never makes that rule fire.
pub proof fn lemma_short_report_never_fires(
    rule: MidiMapping,
    report: Seq<u8>,
    id: DeviceIdentifier,
)
    requires
        report.len() < rule.usb_pattern@.len(),
    ensures
        !rule.fires(report, id),
{
}

/// Translation sends exactly the messages of the rules whose filter and
/// pattern both match, in rule order, and nothing when no rule matches.
pub proof fn lemma_translate_selects_firing_rules(
    rules: Seq<MidiMapping>,
    report: Seq<u8>,
    id: DeviceIdentifier,
)
    ensures
        fired_messages(rules, report, id) == rules.filter(
            |r: MidiMapping| r.fires(report, id),
        ).map_values(|r: MidiMapping| r.midi_message@),
        (forall|i: int| 0 <= i < rules.len() ==> !(#[trigger] rules[i].fires(report, id)))
            ==> fired_messages(rules, report, id).len() == 0,
    decreases rules.len(),
{
    let pred = |r: MidiMapping| r.fires(report, id);
    let msg = |r: MidiMapping| r.midi_message@;
    if rules.len() > 0 {
        let rest = rules.drop_last();
        lemma_translate_selects_firing_rules(rest, report, id);
        reveal(Seq::filter);
        assert(rules.filter(pred) == if pred(rules.last()) {
            rest.filter(pred).push(rules.last())
        } else {
            rest.filter(pred)
        });
        if pred(rules.last()) {
            assert(rest.filter(pred).push(rules.last()).map_values(msg) =~= rest.filter(
                pred,
            ).map_values(msg).push(msg(rules.last())));
        }
        if forall|i: int| 0 <= i < rules.len() ==> !(#[trigger] rules[i].fires(report, id)) {
            assert(!rules[rules.len() - 1].fires(report, id));
            assert forall|i: int| 0 <= i < rest.len() implies !(#[trigger] rest[i].fires(
                report,
                id,
            )) by {
                assert(rest[i] == rules[i]);
            }
        }
    }
}

/// A range accepts both of its bounds and nothing just above its upper one.
pub proof fn lemma_range_bounds(min: u8, max: u8)
    requires
        min <= max,
    ensures
        (PatternByte::Range { min, max }).accepts(min),
        (PatternByte::Range { min, max }).accepts(max),
        max < 255 ==> !(PatternByte::Range { min, max }).accepts((max + 1) as u8),
{
}

/// One byte-pattern entry of a rule file, as read: an integer, a string, a
/// table with `min` and `max` entries (each absent where the table has no
/// integer under that name), or anything else.
#[derive(Clone, Debug)]
pub enum PatternValue {
    Integer(i64),
    Text(String),
    Table { min: Option<i64>, max: Option<i64> },
    Other,
}

/// Why a rule file was refused.
#[derive(Clone, Copy, Debug, PartialEq, Eq, Structural)]
pub enum ConfigError {
    /// An exact byte outside 0 to 255.
    ByteOutOfRange,
    /// A range bound outside 0 to 255.
    InvalidRange,
    /// A range whose minimum exceeds its maximum.
    InvertedRange,
    MissingMin,
    MissingMax,
    /// Neither an integer, the token `any`, nor a range table.
    InvalidFormat,
}

/// The token that stands for a wildcard.
pub open spec fn any_token() -> Seq<char> {
    seq!['a', 'n', 'y']
}

pub open spec fn in_byte_range(n: i64) -> bool {
    0 <= n <= 255
}

/// What one pattern entry of a rule file stands for.
pub open spec fn pattern_from_value(v: PatternValue) -> Result<PatternByte, ConfigError> {
    match v {
        PatternValue::Integer(n) => if in_byte_range(n) {
            Ok(PatternByte::Exact(n as u8))
        } else {
            Err(ConfigError::ByteOutOfRange)
        },
        PatternValue::Text(s) => if s@ == any_token() {
            Ok(PatternByte::Wildcard)
        } else {
            Err(ConfigError::InvalidFormat)
        },
        PatternValue::Table { min, max } => match (min, max) {
            (None, _) => Err(ConfigError::MissingMin),
            (Some(_), None) => Err(ConfigError::MissingMax),
            (Some(lo), Some(hi)) => if !in_byte_range(lo) || !in_byte_range(hi) {
                Err(ConfigError::InvalidRange)
            } else if lo > hi {
                Err(ConfigError::InvertedRange)
            } else {
                Ok(PatternByte::Range { min: lo as u8, max: hi as u8 })
            },
        },
        PatternValue::Other => Err(ConfigError::InvalidFormat),
    }
}

fn is_any_token(s: &String) -> (r: bool)
    ensures
        r == (s@ == any_token()),
{
    let any = String::from_str("any");
    proof {
        reveal_strlit("any");
        assert(any@ =~= any_token());
    }
    s.eq(&any)
}

impl PatternByte {
    /// Reads one pattern entry of a rule file.
    pub fn from_value(v: &PatternValue) -> (r: Result<PatternByte, ConfigError>)
        ensures
            r == pattern_from_value(*v),
    {
        match v {
            PatternValue::Integer(n) => {
                if *n < 0 || *n > 255 {
                    Err(ConfigError::ByteOutOfRange)
                } else {
                    Ok(PatternByte::Exact(*n as u8))
                }
            },
            PatternValue::Text(s) => {
                if is_any_token(s) {
                    Ok(PatternByte::Wildcard)
                } else {
                    Err(ConfigError::InvalidFormat)
                }
            },
            PatternValue::Table { min, max } => {
                let lo = match min {
                    Some(lo) => *lo,
                    None => {
                        return Err(ConfigError::MissingMin);
                    },
                };
                let hi = match max {
                    Some(hi) => *hi,
                    None => {
                        return Err(ConfigError::MissingMax);
                    },
                };
                if lo < 0 || lo > 255 || hi < 0 || hi > 255 {
                    Err(ConfigError::InvalidRange)
                } else if lo > hi {
                    Err(ConfigError::InvertedRange)
                } else {
                    Ok(PatternByte::Range { min: lo as u8, max: hi as u8 })
                }
            },
            PatternValue::Other => Err(ConfigError::InvalidFormat),
        }
    }
}

/// One rule of a rule file, as read, its pattern not yet checked.
#[derive(Clone, Debug)]
pub struct RawMapping {
    pub vendor_id: Option<u16>,
    pub product_id: Option<u16>,
    pub usb_pattern: Vec<PatternValue>,
    pub midi_message: Vec<u8>,
}

pub open spec fn value_ok(v: PatternValue) -> bool {
    pattern_from_value(v) is Ok
}

/// Every pattern entry of every rule is valid.
pub open spec fn all_patterns_valid(raw: Seq<RawMapping>) -> bool {
    forall|i: int, j: int|
        0 <= i < raw.len() && 0 <= j < raw[i].usb_pattern@.len() ==> #[trigger] value_ok(
            raw[i].usb_pattern@[j],
        )
}

/// Entry `j` of rule `i` is the first invalid one, in file order.
pub open spec fn first_invalid(raw: Seq<RawMapping>, i: int, j: int) -> bool {
    &&& 0 <= i < raw.len()
    &&& 0 <= j < raw[i].usb_pattern@.len()
    &&& !value_ok(raw[i].usb_pattern@[j])
    &&& forall|a: int, b: int|
        0 <= a < raw.len() && 0 <= b < raw[a].usb_pattern@.len() && (a < i || (a == i && b < j))
            ==> #[trigger] value_ok(raw[a].usb_pattern@[b])
}

/// `rule` is `raw` with its pattern read.
pub open spec fn loaded_from(rule: MidiMapping, raw: RawMapping) -> bool {
    &&& rule.vendor_id == raw.vendor_id
    &&& rule.product_id == raw.product_id
    &&& rule.midi_message@ == raw.midi_message@
    &&& rule.usb_pattern@.len() == raw.usb_pattern@.len()
    &&& forall|j: int|
        0 <= j < raw.usb_pattern@.len() ==> pattern_from_value(#[trigger] raw.usb_pattern@[j])
            == Ok::<PatternByte, ConfigError>(rule.usb_pattern@[j])
}

fn load_rule(raw: &RawMapping) -> (r: Result<MidiMapping, ConfigError>)
    ensures
        match r {
            Ok(rule) => {
                &&& forall|j: int|
                    0 <= j < raw.usb_pattern@.len() ==> #[trigger] value_ok(raw.usb_pattern@[j])
                &&& loaded_from(rule, *raw)
                &&& rule.well_formed()
            },
            Err(e) => exists|j: int|
                {
                    &&& 0 <= j < raw.usb_pattern@.len()
                    &&& pattern_from_value(#[trigger] raw.usb_pattern@[j]) == Err::<
                        PatternByte,
                        ConfigError,
                    >(e)
                    &&& forall|b: int| 0 <= b < j ==> #[trigger] value_ok(raw.usb_pattern@[b])
                },
        },
{
    let mut pattern: Vec<PatternByte> = Vec::new();
    let mut j: usize = 0;
    while j < raw.usb_pattern.len()
        invariant
            j <= raw.usb_pattern@.len(),
            pattern@.len() == j,
            forall|b: int|
                0 <= b < j ==> pattern_from_value(#[trigger] raw.usb_pattern@[b]) == Ok::<
                    PatternByte,
                    ConfigError,
                >(pattern@[b]),
        decreases raw.usb_pattern@.len() - j,
    {
        match PatternByte::from_value(&raw.usb_pattern[j]) {
            Ok(p) => {
                pattern.push(p);
            },
            Err(e) => {
                assert forall|b: int| 0 <= b < j implies #[trigger] value_ok(
                    raw.usb_pattern@[b],
                ) by {
                    assert(pattern_from_value(raw.usb_pattern@[b]) is Ok);
                }
                return Err(e);
            },
        }
        j = j + 1;
    }
    let rule = MidiMapping {
        vendor_id: raw.vendor_id,
        product_id: raw.product_id,
        usb_pattern: pattern,
        midi_message: copy_bytes(&raw.midi_message),
    };
    assert forall|b: int| 0 <= b < raw.usb_pattern@.len() implies #[trigger] value_ok(
        raw.usb_pattern@[b],
    ) by {
        assert(pattern_from_value(raw.usb_pattern@[b]) is Ok);
    }
    assert forall|b: int| 0 <= b < rule.usb_pattern@.len() implies (
    #[trigger] rule.usb_pattern@[b] matches PatternByte::Range { min, max } ==> min <= max) by {
        assert(pattern_from_value(raw.usb_pattern@[b]) == Ok::<PatternByte, ConfigError>(
            rule.usb_pattern@[b],
        ));
    }
    Ok(rule)
}

impl MidiMappingConfig {
    /// Checks a rule file as read. All of it is loaded, or none: the error is
    /// that of the first invalid pattern entry.
    pub fn load(raw: &Vec<RawMapping>) -> (r: Result<MidiMappingConfig, ConfigError>)
        ensures
            r is Ok <==> all_patterns_valid(raw@),
            match r {
                Ok(config) => {
                    &&& config.well_formed()
                    &&& config.mapping@.len() == raw@.len()
                    &&& forall|i: int|
                        0 <= i < raw@.len() ==> loaded_from(
                            #[trigger] config.mapping@[i],
                            raw@[i],
                        )
                },
                Err(e) => exists|i: int, j: int|
                    first_invalid(raw@, i, j) && pattern_from_value(raw@[i].usb_pattern@[j])
                        == Err::<PatternByte, ConfigError>(e),
            },
    {
        let mut rules: Vec<MidiMapping> = Vec::new();
        let mut i: usize = 0;
        while i < raw.len()
            invariant
                i <= raw@.len(),
                rules@.len() == i,
                forall|a: int, b: int|
                    0 <= a < i && 0 <= b < raw@[a].usb_pattern@.len() ==> #[trigger] value_ok(
                        raw@[a].usb_pattern@[b],
                    ),
                forall|a: int| 0 <= a < i ==> loaded_from(#[trigger] rules@[a], raw@[a]),
                forall|a: int| 0 <= a < i ==> (#[trigger] rules@[a]).well_formed(),
            decreases raw@.len() - i,
        {
            match load_rule(&raw[i]) {
                Ok(rule) => {
                    rules.push(rule);
                },
                Err(e) => {
                    let ghost j = choose|j: int|
                        {
                            &&& 0 <= j < raw@[i as int].usb_pattern@.len()
                            &&& pattern_from_value(#[trigger] raw@[i as int].usb_pattern@[j])
                                == Err::<PatternByte, ConfigError>(e)
                            &&& forall|b: int|
                                0 <= b < j ==> #[trigger] value_ok(raw@[i as int].usb_pattern@[b])
                        };
                    assert(first_invalid(raw@, i as int, j));
                    assert(!all_patterns_valid(raw@)) by {
                        assert(!value_ok(raw@[i as int].usb_pattern@[j]));
                    }
                    return Err(e);
                },
            }
            i = i + 1;
        }
        let config = MidiMappingConfig { mapping: rules };
        Ok(config)
    }
}

} // verus!
