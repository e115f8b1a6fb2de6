//! Haptic feedback requests bridged to a native platform.
//!
//! The library builds the native call for each request (its name and its
//! encoded payload) and turns the single outcome the platform reports into a
//! uniform result. Performing the call itself is left to the caller.
mod bridge;
mod codec;
mod options;
mod wire;

pub use bridge::{
    lemma_selection_call_settles_once, lemma_selection_start_repeatable,
    impact_call, notification_call, result_view, selection_changed_call, selection_end_call,
    selection_start_call, settle, vibrate_call, CallDescriptor, CallModel, Error, Failure,
    Haptics, NativeOutcome, OutcomeModel, PendingCall,
};
pub use codec::{
    lemma_impact_round_trip, lemma_impact_style_tag_bijection, lemma_notification_round_trip,
    lemma_notification_type_tag_bijection, lemma_vibrate_round_trip,
    impact_of_payload, impact_payload, impact_style_of_tag, impact_style_tag,
    notification_of_payload, notification_payload, notification_type_of_tag,
    notification_type_tag, vibrate_of_payload, vibrate_payload,
};
pub use options::{
    ImpactOptions, ImpactStyle, NotificationOptions, NotificationType, VibrateOptions,
    DEFAULT_VIBRATE_DURATION_BITS,
};
pub use wire::{payload_view, FieldModel, WireDatum, WireField, WireValue};
