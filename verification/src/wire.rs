//! The payload of a capture request: the keys and values that travel, in
//! the order in which they are written. A field that was never set has no
//! entry at all, so that the service applies its own default.

use vstd::prelude::*;
use vstd::string::StringExecFns;
use crate::request::{RequestModel, ScaleFactor, ScreenshotRequest};

verus! {

/// One value of the payload.
#[derive(Debug)]
pub enum WireValue {
    /// A string.
    Text(String),
    /// A whole number.
    Number(u32),
    /// `true` or `false`.
    Flag(bool),
    /// A single-precision number.
    Scale(ScaleFactor),
}

/// What a [`WireValue`] holds.
pub enum WireValueModel {
    Text(Seq<char>),
    Number(u32),
    Flag(bool),
    Scale(ScaleFactor),
}

impl View for WireValue {
    type V = WireValueModel;

    open spec fn view(&self) -> WireValueModel {
        match *self {
            WireValue::Text(text) => WireValueModel::Text(text@),
            WireValue::Number(number) => WireValueModel::Number(number),
            WireValue::Flag(flag) => WireValueModel::Flag(flag),
            WireValue::Scale(factor) => WireValueModel::Scale(factor),
        }
    }
}

/// One entry of the payload: a key and its value.
#[derive(Debug)]
pub struct WireField {
    /// The key, as the service names the field.
    pub key: &'static str,
    /// The value under that key.
    pub value: WireValue,
}

impl View for WireField {
    type V = (Seq<char>, WireValueModel);

    open spec fn view(&self) -> (Seq<char>, WireValueModel) {
        (self.key@, self.value@)
    }
}

/// A payload as a sequence of keys with their values.
pub type PayloadModel = Seq<(Seq<char>, WireValueModel)>;

/// The entries of a list of fields, in order.
pub open spec fn payload_of(fields: Seq<WireField>) -> PayloadModel {
    fields.map_values(|field: WireField| field@)
}

/// The entry for a value that was set; nothing for one that was not.
pub open spec fn entry(key: Seq<char>, value: Option<WireValueModel>) -> PayloadModel {
    match value {
        Some(v) => seq![(key, v)],
        None => Seq::empty(),
    }
}

/// A text as a value of the payload, where there is one.
pub open spec fn text_value(text: Option<Seq<char>>) -> Option<WireValueModel> {
    match text {
        Some(t) => Some(WireValueModel::Text(t)),
        None => None,
    }
}

/// A number as a value of the payload, where there is one.
pub open spec fn number_value(number: Option<u32>) -> Option<WireValueModel> {
    match number {
        Some(n) => Some(WireValueModel::Number(n)),
        None => None,
    }
}

/// A flag as a value of the payload, where there is one.
pub open spec fn flag_value(flag: Option<bool>) -> Option<WireValueModel> {
    match flag {
        Some(f) => Some(WireValueModel::Flag(f)),
        None => None,
    }
}

impl RequestModel {
    /// The format as it travels: its wire name.
    pub open spec fn format_value(self) -> Option<WireValueModel> {
        match self.format {
            Some(format) => Some(WireValueModel::Text(format.spec_wire_name())),
            None => None,
        }
    }

    /// The quality as it travels: a number.
    pub open spec fn quality_value(self) -> Option<WireValueModel> {
        match self.quality {
            Some(quality) => Some(WireValueModel::Number(quality as u32)),
            None => None,
        }
    }

    /// The wait signal as it travels: its wire name.
    pub open spec fn wait_until_value(self) -> Option<WireValueModel> {
        match self.wait_until {
            Some(signal) => Some(WireValueModel::Text(signal.spec_wire_name())),
            None => None,
        }
    }

    /// The scale factor as it travels.
    pub open spec fn scale_value(self) -> Option<WireValueModel> {
        match self.device_scale_factor {
            Some(factor) => Some(WireValueModel::Scale(factor)),
            None => None,
        }
    }

    /// The payload that stands for the model: one entry for each field that
    /// is set, under the service's name for it, in the order of the fields.
    pub open spec fn payload(self) -> PayloadModel {
        entry("url"@, text_value(self.url))
            + entry("format"@, self.format_value())
            + entry("quality"@, self.quality_value())
            + entry("width"@, number_value(self.width))
            + entry("height"@, number_value(self.height))
            + entry("full_page"@, flag_value(self.full_page))
            + entry("wait_until"@, self.wait_until_value())
            + entry("wait_for_selector"@, text_value(self.wait_for_selector))
            + entry("wait_for_timeout"@, number_value(self.wait_for_timeout))
            + entry("device_scale_factor"@, self.scale_value())
            + entry("store"@, flag_value(self.store))
            + entry("block_ads"@, flag_value(self.block_ads))
    }
}

/// Whether the payload has an entry under `key`.
pub open spec fn has_key(payload: PayloadModel, key: Seq<char>) -> bool {
    exists|i: int| 0 <= i < payload.len() && (#[trigger] payload[i]).0 == key
}

/// The value of the last entry under `key`, if the payload has one.
pub open spec fn value_at(payload: PayloadModel, key: Seq<char>) -> Option<WireValueModel>
    decreases payload.len(),
{
    if payload.len() == 0 {
        None
    } else if payload.last().0 == key {
        Some(payload.last().1)
    } else {
        value_at(payload.drop_last(), key)
    }
}

/// Whether `key` is one of the twelve names that the service knows.
pub open spec fn is_field_name(key: Seq<char>) -> bool {
    ||| key == "url"@
    ||| key == "format"@
    ||| key == "quality"@
    ||| key == "width"@
    ||| key == "height"@
    ||| key == "full_page"@
    ||| key == "wait_until"@
    ||| key == "wait_for_selector"@
    ||| key == "wait_for_timeout"@
    ||| key == "device_scale_factor"@
    ||| key == "store"@
    ||| key == "block_ads"@
}

impl RequestModel {
    /// The model that a payload stands for: each field is read from the
    /// entry under its name, and is unset where there is no such entry or
    /// its value has another shape.
    pub open spec fn read_back(payload: PayloadModel) -> RequestModel {
        RequestModel {
            url: read_text(value_at(payload, "url"@)),
            format: match read_text(value_at(payload, "format"@)) {
                Some(name) => crate::format::ImageFormat::spec_from_wire_name(name),
                None => None,
            },
            quality: match read_number(value_at(payload, "quality"@)) {
                Some(n) if n <= u8::MAX => Some(n as u8),
                _ => None,
            },
            width: read_number(value_at(payload, "width"@)),
            height: read_number(value_at(payload, "height"@)),
            full_page: read_flag(value_at(payload, "full_page"@)),
            wait_until: match read_text(value_at(payload, "wait_until"@)) {
                Some(name) => crate::format::WaitUntil::spec_from_wire_name(name),
                None => None,
            },
            wait_for_selector: read_text(value_at(payload, "wait_for_selector"@)),
            wait_for_timeout: read_number(value_at(payload, "wait_for_timeout"@)),
            device_scale_factor: match value_at(payload, "device_scale_factor"@) {
                Some(WireValueModel::Scale(factor)) => Some(factor),
                _ => None,
            },
            store: read_flag(value_at(payload, "store"@)),
            block_ads: read_flag(value_at(payload, "block_ads"@)),
        }
    }
}

/// The text that a value holds, if it is a text.
pub open spec fn read_text(value: Option<WireValueModel>) -> Option<Seq<char>> {
    match value {
        Some(WireValueModel::Text(text)) => Some(text),
        _ => None,
    }
}

/// The number that a value holds, if it is a number.
pub open spec fn read_number(value: Option<WireValueModel>) -> Option<u32> {
    match value {
        Some(WireValueModel::Number(number)) => Some(number),
        _ => None,
    }
}

/// The flag that a value holds, if it is a flag.
pub open spec fn read_flag(value: Option<WireValueModel>) -> Option<bool> {
    match value {
        Some(WireValueModel::Flag(flag)) => Some(flag),
        _ => None,
    }
}

/// A payload has an entry under a key exactly when a value can be read there.
pub proof fn lemma_has_key_value_at(payload: PayloadModel, key: Seq<char>)
    ensures
        has_key(payload, key) <==> value_at(payload, key) is Some,
    decreases payload.len(),
{
    if payload.len() > 0 {
        let rest = payload.drop_last();
        lemma_has_key_value_at(rest, key);
        if payload.last().0 != key {
            if has_key(payload, key) {
                let i = choose|i: int| 0 <= i < payload.len() && (#[trigger] payload[i]).0 == key;
                assert(rest[i].0 == key);
            }
            if has_key(rest, key) {
                let i = choose|i: int| 0 <= i < rest.len() && (#[trigger] rest[i]).0 == key;
                assert(payload[i].0 == key);
            }
        }
    }
}

/// What one more field does to the value under any key.
proof fn lemma_value_at_entry(before: PayloadModel, name: Seq<char>, value: Option<WireValueModel>)
    ensures
        forall|key: Seq<char>| #[trigger]
            value_at(before + entry(name, value), key) == if name == key && value is Some {
                value
            } else {
                value_at(before, key)
            },
{
    let after = before + entry(name, value);
    match value {
        Some(v) => {
            assert(after.last() == (name, v));
            assert(after.drop_last() =~= before);
        },
        None => {
            assert(after =~= before);
        },
    }
}

/// The twelve field names differ from one another.
proof fn lemma_field_names()
    ensures
        "url"@.len() == 3,
        "format"@.len() == 6 && "format"@[0] == 'f',
        "quality"@.len() == 7,
        "width"@.len() == 5 && "width"@[0] == 'w',
        "height"@.len() == 6 && "height"@[0] == 'h',
        "full_page"@.len() == 9 && "full_page"@[0] == 'f',
        "wait_until"@.len() == 10,
        "wait_for_selector"@.len() == 17,
        "wait_for_timeout"@.len() == 16,
        "device_scale_factor"@.len() == 19,
        "store"@.len() == 5 && "store"@[0] == 's',
        "block_ads"@.len() == 9 && "block_ads"@[0] == 'b',
{
    reveal_strlit("url");
    reveal_strlit("format");
    reveal_strlit("quality");
    reveal_strlit("width");
    reveal_strlit("height");
    reveal_strlit("full_page");
    reveal_strlit("wait_until");
    reveal_strlit("wait_for_selector");
    reveal_strlit("wait_for_timeout");
    reveal_strlit("device_scale_factor");
    reveal_strlit("store");
    reveal_strlit("block_ads");
}

/// Under each field's name the payload holds the field's value where the
/// field is set and nothing where it is not, and it holds nothing under any
/// other key.
pub proof fn lemma_payload_values(model: RequestModel)
    ensures
        value_at(model.payload(), "url"@) == text_value(model.url),
        value_at(model.payload(), "format"@) == model.format_value(),
        value_at(model.payload(), "quality"@) == model.quality_value(),
        value_at(model.payload(), "width"@) == number_value(model.width),
        value_at(model.payload(), "height"@) == number_value(model.height),
        value_at(model.payload(), "full_page"@) == flag_value(model.full_page),
        value_at(model.payload(), "wait_until"@) == model.wait_until_value(),
        value_at(model.payload(), "wait_for_selector"@) == text_value(model.wait_for_selector),
        value_at(model.payload(), "wait_for_timeout"@) == number_value(model.wait_for_timeout),
        value_at(model.payload(), "device_scale_factor"@) == model.scale_value(),
        value_at(model.payload(), "store"@) == flag_value(model.store),
        value_at(model.payload(), "block_ads"@) == flag_value(model.block_ads),
        forall|key: Seq<char>| !is_field_name(key) ==> value_at(model.payload(), key) is None,
{
    lemma_field_names();
    let p0: PayloadModel = Seq::empty();
    let p1 = p0 + entry("url"@, text_value(model.url));
    let p2 = p1 + entry("format"@, model.format_value());
    let p3 = p2 + entry("quality"@, model.quality_value());
    let p4 = p3 + entry("width"@, number_value(model.width));
    let p5 = p4 + entry("height"@, number_value(model.height));
    let p6 = p5 + entry("full_page"@, flag_value(model.full_page));
    let p7 = p6 + entry("wait_until"@, model.wait_until_value());
    let p8 = p7 + entry("wait_for_selector"@, text_value(model.wait_for_selector));
    let p9 = p8 + entry("wait_for_timeout"@, number_value(model.wait_for_timeout));
    let p10 = p9 + entry("device_scale_factor"@, model.scale_value());
    let p11 = p10 + entry("store"@, flag_value(model.store));
    let p12 = p11 + entry("block_ads"@, flag_value(model.block_ads));
    assert(p1 =~= entry("url"@, text_value(model.url)));
    lemma_value_at_entry(p0, "url"@, text_value(model.url));
    lemma_value_at_entry(p1, "format"@, model.format_value());
    lemma_value_at_entry(p2, "quality"@, model.quality_value());
    lemma_value_at_entry(p3, "width"@, number_value(model.width));
    lemma_value_at_entry(p4, "height"@, number_value(model.height));
    lemma_value_at_entry(p5, "full_page"@, flag_value(model.full_page));
    lemma_value_at_entry(p6, "wait_until"@, model.wait_until_value());
    lemma_value_at_entry(p7, "wait_for_selector"@, text_value(model.wait_for_selector));
    lemma_value_at_entry(p8, "wait_for_timeout"@, number_value(model.wait_for_timeout));
    lemma_value_at_entry(p9, "device_scale_factor"@, model.scale_value());
    lemma_value_at_entry(p10, "store"@, flag_value(model.store));
    lemma_value_at_entry(p11, "block_ads"@, flag_value(model.block_ads));
}

/// The payload of a request has an entry under a field's name if and only
/// if that field is set, and no entry under any other key. The URL of a
/// built request is always set, so its payload always has the key `url`.
pub proof fn lemma_payload_keys(model: RequestModel)
    ensures
        has_key(model.payload(), "url"@) <==> model.url is Some,
        has_key(model.payload(), "format"@) <==> model.format is Some,
        has_key(model.payload(), "quality"@) <==> model.quality is Some,
        has_key(model.payload(), "width"@) <==> model.width is Some,
        has_key(model.payload(), "height"@) <==> model.height is Some,
        has_key(model.payload(), "full_page"@) <==> model.full_page is Some,
        has_key(model.payload(), "wait_until"@) <==> model.wait_until is Some,
        has_key(model.payload(), "wait_for_selector"@) <==> model.wait_for_selector is Some,
        has_key(model.payload(), "wait_for_timeout"@) <==> model.wait_for_timeout is Some,
        has_key(model.payload(), "device_scale_factor"@) <==> model.device_scale_factor is Some,
        has_key(model.payload(), "store"@) <==> model.store is Some,
        has_key(model.payload(), "block_ads"@) <==> model.block_ads is Some,
        forall|key: Seq<char>| has_key(model.payload(), key) ==> is_field_name(key),
{
    lemma_payload_values(model);
    let payload = model.payload();
    assert forall|key: Seq<char>| has_key(payload, key) <==> value_at(payload, key) is Some by {
        lemma_has_key_value_at(payload, key);
    }
}

/// Reading a payload back gives the model that it was written from: every
/// field that was set comes back with its value, and every other field
/// comes back unset.
pub proof fn lemma_payload_round_trip(model: RequestModel)
    ensures
        RequestModel::read_back(model.payload()) == model,
{
    lemma_payload_values(model);
    if model.format is Some {
        crate::format::lemma_image_format_round_trip(model.format->0);
    }
    if model.wait_until is Some {
        crate::format::lemma_wait_until_round_trip(model.wait_until->0);
    }
}

/// Appends the entry for `value` under `key`, if there is a value.
fn put(fields: &mut Vec<WireField>, key: &'static str, value: Option<WireValue>)
    ensures
        payload_of(final(fields)@) == payload_of(old(fields)@) + entry(
            key@,
            match value {
                Some(v) => Some(v@),
                None => None,
            },
        ),
{
    match value {
        Some(v) => {
            let field = WireField { key, value: v };
            fields.push(field);
            assert(payload_of(fields@) =~= payload_of(old(fields)@) + seq![field@]);
        },
        None => {
            assert(payload_of(fields@) =~= payload_of(old(fields)@) + Seq::empty());
        },
    }
}

/// A text that may be absent, as a value of the payload.
fn text(value: &Option<String>) -> (wire: Option<WireValue>)
    ensures
        match wire {
            Some(v) => Some(v@),
            None => None,
        } == text_value(crate::request::text_of(*value)),
{
    match value {
        Some(t) => Some(WireValue::Text(t.clone())),
        None => None,
    }
}

/// A number that may be absent, as a value of the payload.
fn number(value: Option<u32>) -> (wire: Option<WireValue>)
    ensures
        match wire {
            Some(v) => Some(v@),
            None => None,
        } == number_value(value),
{
    match value {
        Some(n) => Some(WireValue::Number(n)),
        None => None,
    }
}

/// A flag that may be absent, as a value of the payload.
fn flag(value: Option<bool>) -> (wire: Option<WireValue>)
    ensures
        match wire {
            Some(v) => Some(v@),
            None => None,
        } == flag_value(value),
{
    match value {
        Some(f) => Some(WireValue::Flag(f)),
        None => None,
    }
}

impl ScreenshotRequest {
    /// The payload that stands for the request: one entry for each field
    /// that is set, and none for a field that is not.
    pub fn payload(&self) -> (fields: Vec<WireField>)
        ensures
            payload_of(fields@) == self@.payload(),
    {
        let mut fields: Vec<WireField> = Vec::new();
        put(&mut fields, "url", Some(WireValue::Text(self.url.clone())));
        assert(payload_of(fields@) =~= entry("url"@, text_value(self@.url)));
        let format = match self.format {
            Some(f) => Some(WireValue::Text(String::from_str(f.wire_name()))),
            None => None,
        };
        put(&mut fields, "format", format);
        let quality = match self.quality {
            Some(q) => Some(WireValue::Number(q as u32)),
            None => None,
        };
        put(&mut fields, "quality", quality);
        put(&mut fields, "width", number(self.width));
        put(&mut fields, "height", number(self.height));
        put(&mut fields, "full_page", flag(self.full_page));
        let wait_until = match self.wait_until {
            Some(s) => Some(WireValue::Text(String::from_str(s.wire_name()))),
            None => None,
        };
        put(&mut fields, "wait_until", wait_until);
        put(&mut fields, "wait_for_selector", text(&self.wait_for_selector));
        put(&mut fields, "wait_for_timeout", number(self.wait_for_timeout));
        let scale = match self.device_scale_factor {
            Some(factor) => Some(WireValue::Scale(factor)),
            None => None,
        };
        put(&mut fields, "device_scale_factor", scale);
        put(&mut fields, "store", flag(self.store));
        put(&mut fields, "block_ads", flag(self.block_ads));
        fields
    }
}

} // verus!
