use vstd::prelude::*;
use crate::options::{
    ImpactOptions, ImpactStyle, NotificationOptions, NotificationType, VibrateOptions,
};
use crate::wire::{text_is, FieldModel, WireDatum, WireField, WireValue};

verus! {

/// The wire spelling of an impact style: its name in upper case.
pub open spec fn impact_style_tag(s: ImpactStyle) -> Seq<char> {
    match s {
        ImpactStyle::Heavy => "HEAVY"@,
        ImpactStyle::Medium => "MEDIUM"@,
        ImpactStyle::Light => "LIGHT"@,
    }
}

/// The impact style spelled by `t`, if any.
pub open spec fn impact_style_of_tag(t: Seq<char>) -> Option<ImpactStyle> {
    if t == "HEAVY"@ {
        Some(ImpactStyle::Heavy)
    } else if t == "MEDIUM"@ {
        Some(ImpactStyle::Medium)
    } else if t == "LIGHT"@ {
        Some(ImpactStyle::Light)
    } else {
        None
    }
}

/// The wire spelling of a notification type: its name in upper case.
pub open spec fn notification_type_tag(t: NotificationType) -> Seq<char> {
    match t {
        NotificationType::Success => "SUCCESS"@,
        NotificationType::Warning => "WARNING"@,
        NotificationType::Error => "ERROR"@,
    }
}

/// The notification type spelled by `t`, if any.
pub open spec fn notification_type_of_tag(t: Seq<char>) -> Option<NotificationType> {
    if t == "SUCCESS"@ {
        Some(NotificationType::Success)
    } else if t == "WARNING"@ {
        Some(NotificationType::Warning)
    } else if t == "ERROR"@ {
        Some(NotificationType::Error)
    } else {
        None
    }
}

/// The encoded payload of an impact request.
pub open spec fn impact_payload(o: ImpactOptions) -> FieldModel {
    FieldModel { name: "style"@, value: WireDatum::Tag(impact_style_tag(o.style)) }
}

/// The encoded payload of a notification request.
pub open spec fn notification_payload(o: NotificationOptions) -> FieldModel {
    FieldModel { name: "type"@, value: WireDatum::Tag(notification_type_tag(o.notification_type)) }
}

/// The encoded payload of a vibration request.
pub open spec fn vibrate_payload(o: VibrateOptions) -> FieldModel {
    FieldModel { name: "duration"@, value: WireDatum::Number(o.duration_bits) }
}

/// Impact options read back from a payload, if it has the impact schema.
pub open spec fn impact_of_payload(f: FieldModel) -> Option<ImpactOptions> {
    if f.name == "style"@ {
        match f.value {
            WireDatum::Tag(t) => match impact_style_of_tag(t) {
                Some(s) => Some(ImpactOptions { style: s }),
                None => None,
            },
            WireDatum::Number(_) => None,
        }
    } else {
        None
    }
}

/// Notification options read back from a payload, if it has the notification
/// schema.
pub open spec fn notification_of_payload(f: FieldModel) -> Option<NotificationOptions> {
    if f.name == "type"@ {
        match f.value {
            WireDatum::Tag(t) => match notification_type_of_tag(t) {
                Some(n) => Some(NotificationOptions { notification_type: n }),
                None => None,
            },
            WireDatum::Number(_) => None,
        }
    } else {
        None
    }
}

/// Vibration options read back from a payload, if it has the vibration schema.
pub open spec fn vibrate_of_payload(f: FieldModel) -> Option<VibrateOptions> {
    if f.name == "duration"@ {
        match f.value {
            WireDatum::Number(bits) => Some(VibrateOptions { duration_bits: bits }),
            WireDatum::Tag(_) => None,
        }
    } else {
        None
    }
}

impl ImpactStyle {
    /// The wire spelling of this style.
    pub fn wire_tag(self) -> (r: &'static str)
        ensures
            r@ == impact_style_tag(self),
    {
        match self {
            ImpactStyle::Heavy => "HEAVY",
            ImpactStyle::Medium => "MEDIUM",
            ImpactStyle::Light => "LIGHT",
        }
    }

    /// The style that `tag` spells, or `None` for any other text.
    pub fn from_wire_tag(tag: &String) -> (r: Option<ImpactStyle>)
        ensures
            r == impact_style_of_tag(tag@),
    {
        if text_is(tag, "HEAVY") {
            Some(ImpactStyle::Heavy)
        } else if text_is(tag, "MEDIUM") {
            Some(ImpactStyle::Medium)
        } else if text_is(tag, "LIGHT") {
            Some(ImpactStyle::Light)
        } else {
            None
        }
    }
}

impl NotificationType {
    /// The wire spelling of this notification type.
    pub fn wire_tag(self) -> (r: &'static str)
        ensures
            r@ == notification_type_tag(self),
    {
        match self {
            NotificationType::Success => "SUCCESS",
            NotificationType::Warning => "WARNING",
            NotificationType::Error => "ERROR",
        }
    }

    /// The notification type that `tag` spells, or `None` for any other text.
    pub fn from_wire_tag(tag: &String) -> (r: Option<NotificationType>)
        ensures
            r == notification_type_of_tag(tag@),
    {
        if text_is(tag, "SUCCESS") {
            Some(NotificationType::Success)
        } else if text_is(tag, "WARNING") {
            Some(NotificationType::Warning)
        } else if text_is(tag, "ERROR") {
            Some(NotificationType::Error)
        } else {
            None
        }
    }
}

impl ImpactOptions {
    /// The payload of an impact request: the style under `style`.
    pub fn encode(&self) -> (r: WireField)
        ensures
            r@ == impact_payload(*self),
    {
        WireField {
            name: String::from_str("style"),
            value: WireValue::Tag(String::from_str(self.style.wire_tag())),
        }
    }

    /// Reads impact options back from a payload; `None` where the payload does
    /// not have the impact schema.
    pub fn decode(field: &WireField) -> (r: Option<ImpactOptions>)
        ensures
            r == impact_of_payload(field@),
    {
        if !text_is(&field.name, "style") {
            return None;
        }
        match &field.value {
            WireValue::Tag(t) => match ImpactStyle::from_wire_tag(t) {
                Some(style) => Some(ImpactOptions { style }),
                None => None,
            },
            WireValue::Number(_) => None,
        }
    }
}

impl NotificationOptions {
    /// The payload of a notification request: the type under `type`.
    pub fn encode(&self) -> (r: WireField)
        ensures
            r@ == notification_payload(*self),
    {
        WireField {
            name: String::from_str("type"),
            value: WireValue::Tag(String::from_str(self.notification_type.wire_tag())),
        }
    }

    /// Reads notification options back from a payload; `None` where the
    /// payload does not have the notification schema.
    pub fn decode(field: &WireField) -> (r: Option<NotificationOptions>)
        ensures
            r == notification_of_payload(field@),
    {
        if !text_is(&field.name, "type") {
            return None;
        }
        match &field.value {
            WireValue::Tag(t) => match NotificationType::from_wire_tag(t) {
                Some(notification_type) => Some(NotificationOptions { notification_type }),
                None => None,
            },
            WireValue::Number(_) => None,
        }
    }
}

impl VibrateOptions {
    /// The payload of a vibration request: the duration under `duration`.
    pub fn encode(&self) -> (r: WireField)
        ensures
            r@ == vibrate_payload(*self),
    {
        WireField {
            name: String::from_str("duration"),
            value: WireValue::Number(self.duration_bits),
        }
    }

    /// Reads vibration options back from a payload; `None` where the payload
    /// does not have the vibration schema.
    pub fn decode(field: &WireField) -> (r: Option<VibrateOptions>)
        ensures
            r == vibrate_of_payload(field@),
    {
        if !text_is(&field.name, "duration") {
            return None;
        }
        match &field.value {
            WireValue::Number(bits) => Some(VibrateOptions { duration_bits: *bits }),
            WireValue::Tag(_) => None,
        }
    }
}

/// Every impact style is spelled by exactly one tag: decoding a style's tag
/// gives that style back, and a tag that decodes to a style is that style's
/// tag.
pub proof fn lemma_impact_style_tag_bijection(s: ImpactStyle, t: Seq<char>)
    ensures
        impact_style_of_tag(impact_style_tag(s)) == Some(s),
        impact_style_of_tag(t) == Some(s) ==> t == impact_style_tag(s),
{
    reveal_strlit("HEAVY");
    reveal_strlit("MEDIUM");
    reveal_strlit("LIGHT");
    assert("HEAVY"@[0] != "MEDIUM"@[0] && "HEAVY"@[0] != "LIGHT"@[0] && "MEDIUM"@[0] != "LIGHT"@[0]);
}

/// Every notification type is spelled by exactly one tag: decoding a type's
/// tag gives that type back, and a tag that decodes to a type is that type's
/// tag.
pub proof fn lemma_notification_type_tag_bijection(n: NotificationType, t: Seq<char>)
    ensures
        notification_type_of_tag(notification_type_tag(n)) == Some(n),
        notification_type_of_tag(t) == Some(n) ==> t == notification_type_tag(n),
{
    reveal_strlit("SUCCESS");
    reveal_strlit("WARNING");
    reveal_strlit("ERROR");
    assert("SUCCESS"@[0] != "WARNING"@[0] && "SUCCESS"@[0] != "ERROR"@[0] && "WARNING"@[0] != "ERROR"@[0]);
}

/// Decoding the payload of impact options gives the same options back, and
/// the only payload that decodes to given options is their encoding.
pub proof fn lemma_impact_round_trip(o: ImpactOptions, f: FieldModel)
    ensures
        impact_of_payload(impact_payload(o)) == Some(o),
        impact_of_payload(f) == Some(o) ==> f == impact_payload(o),
{
    lemma_impact_style_tag_bijection(o.style, impact_style_tag(o.style));
    if let WireDatum::Tag(t) = f.value {
        lemma_impact_style_tag_bijection(o.style, t);
    }
}

/// Decoding the payload of notification options gives the same options back,
/// and the only payload that decodes to given options is their encoding.
pub proof fn lemma_notification_round_trip(o: NotificationOptions, f: FieldModel)
    ensures
        notification_of_payload(notification_payload(o)) == Some(o),
        notification_of_payload(f) == Some(o) ==> f == notification_payload(o),
{
    lemma_notification_type_tag_bijection(o.notification_type, notification_type_tag(o.notification_type));
    if let WireDatum::Tag(t) = f.value {
        lemma_notification_type_tag_bijection(o.notification_type, t);
    }
}

/// Decoding the payload of a vibration gives back exactly the duration that
/// was encoded, bit for bit, whatever it is; and the only payload that decodes
/// to given options is their encoding.
pub proof fn lemma_vibrate_round_trip(o: VibrateOptions, f: FieldModel)
    ensures
        vibrate_of_payload(vibrate_payload(o)) == Some(o),
        vibrate_of_payload(f) == Some(o) ==> f == vibrate_payload(o),
{
}

} // verus!
