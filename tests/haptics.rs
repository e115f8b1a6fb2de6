use haptics::{
    CallDescriptor, Error, Haptics, ImpactOptions, ImpactStyle, NativeOutcome,
    NotificationOptions, NotificationType, VibrateOptions, WireField, WireValue,
    DEFAULT_VIBRATE_DURATION_BITS,
};

fn field(name: &str, value: WireValue) -> WireField {
    WireField { name: name.to_string(), value }
}

fn tag(t: &str) -> WireValue {
    WireValue::Tag(t.to_string())
}

fn millis(d: f64) -> VibrateOptions {
    VibrateOptions::from_duration_bits(d.to_bits())
}

#[test]
fn vibrate_duration_round_trips() {
    for d in [150.0f64, 0.0, -0.0, 300.0, 1.5e300, -42.25, f64::INFINITY, f64::MIN_POSITIVE] {
        let o = millis(d);
        let encoded = o.encode();
        assert_eq!(encoded, field("duration", WireValue::Number(d.to_bits())));
        let back = VibrateOptions::decode(&encoded).unwrap();
        assert_eq!(back, o);
        assert_eq!(f64::from_bits(back.duration_bits).to_bits(), d.to_bits());
    }
}

#[test]
fn vibrate_nan_round_trips_bit_for_bit() {
    let bits = f64::NAN.to_bits() | 0x5;
    let o = VibrateOptions::from_duration_bits(bits);
    assert_eq!(VibrateOptions::decode(&o.encode()).unwrap().duration_bits, bits);
}

#[test]
fn vibrate_default_is_300_ms() {
    let o = VibrateOptions::default();
    assert_eq!(f64::from_bits(o.duration_bits), 300.0);
    assert_eq!(DEFAULT_VIBRATE_DURATION_BITS, 300.0f64.to_bits());
    assert_eq!(o.encode(), field("duration", WireValue::Number(300.0f64.to_bits())));
}

#[test]
fn vibrate_decode_rejects_other_schemas() {
    assert_eq!(VibrateOptions::decode(&field("duration", tag("HEAVY"))), None);
    assert_eq!(VibrateOptions::decode(&field("style", WireValue::Number(1))), None);
    assert_eq!(VibrateOptions::decode(&field("Duration", WireValue::Number(1))), None);
}

#[test]
fn impact_style_tags_are_upper_case_names() {
    assert_eq!(ImpactStyle::Heavy.wire_tag(), "HEAVY");
    assert_eq!(ImpactStyle::Medium.wire_tag(), "MEDIUM");
    assert_eq!(ImpactStyle::Light.wire_tag(), "LIGHT");
    for s in [ImpactStyle::Heavy, ImpactStyle::Medium, ImpactStyle::Light] {
        let o = ImpactOptions::from(s);
        let encoded = o.encode();
        assert_eq!(encoded, field("style", tag(&format!("{:?}", s).to_uppercase())));
        assert_eq!(ImpactStyle::from_wire_tag(&s.wire_tag().to_string()), Some(s));
        assert_eq!(ImpactOptions::decode(&encoded), Some(o));
    }
}

#[test]
fn impact_decode_rejects_unknown_tags() {
    assert_eq!(ImpactStyle::from_wire_tag(&"heavy".to_string()), None);
    assert_eq!(ImpactStyle::from_wire_tag(&"Heavy".to_string()), None);
    assert_eq!(ImpactStyle::from_wire_tag(&"".to_string()), None);
    assert_eq!(ImpactStyle::from_wire_tag(&"SUCCESS".to_string()), None);
    assert_eq!(ImpactOptions::decode(&field("style", tag("HEAVY "))), None);
    assert_eq!(ImpactOptions::decode(&field("type", tag("HEAVY"))), None);
    assert_eq!(ImpactOptions::decode(&field("style", WireValue::Number(0))), None);
}

#[test]
fn notification_type_tags_are_upper_case_names() {
    assert_eq!(NotificationType::Success.wire_tag(), "SUCCESS");
    assert_eq!(NotificationType::Warning.wire_tag(), "WARNING");
    assert_eq!(NotificationType::Error.wire_tag(), "ERROR");
    for t in [NotificationType::Success, NotificationType::Warning, NotificationType::Error] {
        let o = NotificationOptions::from(t);
        let encoded = o.encode();
        assert_eq!(encoded, field("type", tag(&format!("{:?}", t).to_uppercase())));
        assert_eq!(NotificationType::from_wire_tag(&t.wire_tag().to_string()), Some(t));
        assert_eq!(NotificationOptions::decode(&encoded), Some(o));
    }
}

#[test]
fn notification_decode_rejects_unknown_tags() {
    assert_eq!(NotificationType::from_wire_tag(&"error".to_string()), None);
    assert_eq!(NotificationType::from_wire_tag(&"LIGHT".to_string()), None);
    assert_eq!(NotificationOptions::decode(&field("style", tag("ERROR"))), None);
    assert_eq!(NotificationOptions::decode(&field("type", WireValue::Number(3))), None);
}

#[test]
fn facade_builds_native_calls() {
    let c = Haptics::impact(ImpactOptions::from(ImpactStyle::Light));
    assert_eq!(
        c.descriptor(),
        &CallDescriptor { name: "impact".to_string(), payload: Some(field("style", tag("LIGHT"))) }
    );
    let c = Haptics::vibrate(millis(150.0));
    assert_eq!(
        c.descriptor(),
        &CallDescriptor {
            name: "vibrate".to_string(),
            payload: Some(field("duration", WireValue::Number(150.0f64.to_bits()))),
        }
    );
    let c = Haptics::notification(NotificationOptions::from(NotificationType::Warning));
    assert_eq!(
        c.descriptor(),
        &CallDescriptor {
            name: "notification".to_string(),
            payload: Some(field("type", tag("WARNING"))),
        }
    );
    let names = [
        (Haptics::selection_start(), "selectionStart"),
        (Haptics::selection_changed(), "selectionChanged"),
        (Haptics::selection_end(), "selectionEnd"),
    ];
    for (c, name) in names {
        assert_eq!(c.descriptor(), &CallDescriptor { name: name.to_string(), payload: None });
    }
}

#[test]
fn impact_without_registered_implementation_is_routing_error() {
    let r = Haptics::impact(ImpactOptions::from(ImpactStyle::Heavy)).complete(NativeOutcome::Unrouted);
    assert_eq!(r, Err(Error::Routing("impact".to_string())));
}

#[test]
fn vibrate_acknowledged_is_unit_success() {
    let r = Haptics::vibrate(millis(150.0)).complete(NativeOutcome::Resolved(None));
    assert_eq!(r, Ok(()));
}

#[test]
fn notification_native_failure_carries_diagnostic() {
    let r = Haptics::notification(NotificationOptions::from(NotificationType::Error))
        .complete(NativeOutcome::Rejected("feature disabled".to_string()));
    assert_eq!(r, Err(Error::Native("feature disabled".to_string())));
    assert_ne!(r, Err(Error::Routing("notification".to_string())));
}

#[test]
fn unexpected_payload_is_decoding_error() {
    let r = Haptics::selection_changed()
        .complete(NativeOutcome::Resolved(Some(field("x", WireValue::Number(1)))));
    assert_eq!(r, Err(Error::Decoding("selectionChanged".to_string())));
}

#[test]
fn unencodable_payload_is_encoding_error() {
    let r = Haptics::vibrate(millis(f64::NAN))
        .complete(NativeOutcome::Unencodable("NaN has no wire form".to_string()));
    assert_eq!(r, Err(Error::Encoding("NaN has no wire form".to_string())));
}

#[test]
fn selection_calls_settle_to_one_result_each() {
    let outcomes = || {
        vec![
            NativeOutcome::Resolved(None),
            NativeOutcome::Resolved(Some(field("style", tag("HEAVY")))),
            NativeOutcome::Rejected("no hardware".to_string()),
            NativeOutcome::Unrouted,
            NativeOutcome::Unencodable("bad".to_string()),
        ]
    };
    for (make, name) in [
        (Haptics::selection_start as fn() -> haptics::PendingCall, "selectionStart"),
        (Haptics::selection_changed, "selectionChanged"),
        (Haptics::selection_end, "selectionEnd"),
    ] {
        let results: Vec<Result<(), Error>> =
            outcomes().into_iter().map(|o| make().complete(o)).collect();
        assert_eq!(
            results,
            vec![
                Ok(()),
                Err(Error::Decoding(name.to_string())),
                Err(Error::Native("no hardware".to_string())),
                Err(Error::Routing(name.to_string())),
                Err(Error::Encoding("bad".to_string())),
            ]
        );
    }
}

#[test]
fn selection_start_twice_is_independent() {
    let first = Haptics::selection_start();
    let second = Haptics::selection_start();
    assert_eq!(first.descriptor(), second.descriptor());
    let r1 = first.complete(NativeOutcome::Rejected("busy".to_string()));
    let r2 = second.complete(NativeOutcome::Resolved(None));
    assert_eq!(r1, Err(Error::Native("busy".to_string())));
    assert_eq!(r2, Ok(()));
    let again = Haptics::selection_start().complete(NativeOutcome::Resolved(None));
    assert_eq!(again, r2);
}
