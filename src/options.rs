use vstd::prelude::*;

verus! {

/// The default vibration length, 300.0 milliseconds, as an IEEE 754 binary64
/// bit pattern.
pub const DEFAULT_VIBRATE_DURATION_BITS: u64 = 0x4072_C000_0000_0000;

/// The mass of the objects in a simulated collision.
#[derive(Debug, Clone, Copy, PartialEq, Eq, Structural)]
pub enum ImpactStyle {
    /// A collision between large, heavy user interface elements
    Heavy,
    /// A collision between moderately sized user interface elements
    Medium,
    /// A collision between small, light user interface elements
    Light,
}

/// The kind of outcome a notification feedback reports.
#[derive(Debug, Clone, Copy, PartialEq, Eq, Structural)]
pub enum NotificationType {
    /// A task has completed successfully
    Success,
    /// A task has produced a warning
    Warning,
    /// A task has failed
    Error,
}

/// Parameters of an impact feedback.
#[derive(Debug, Clone, Copy, PartialEq, Eq, Structural)]
pub struct ImpactOptions {
    pub style: ImpactStyle,
}

impl From<ImpactStyle> for ImpactOptions {
    fn from(style: ImpactStyle) -> (r: Self)
        ensures
            r.style == style,
    {
        ImpactOptions { style }
    }
}

impl vstd::std_specs::convert::FromSpecImpl<ImpactStyle> for ImpactOptions {
    open spec fn obeys_from_spec() -> bool {
        true
    }

    open spec fn from_spec(v: ImpactStyle) -> Self {
        ImpactOptions { style: v }
    }
}

/// Parameters of a notification feedback.
#[derive(Debug, Clone, Copy, PartialEq, Eq, Structural)]
pub struct NotificationOptions {
    pub notification_type: NotificationType,
}

impl From<NotificationType> for NotificationOptions {
    fn from(notification_type: NotificationType) -> (r: Self)
        ensures
            r.notification_type == notification_type,
    {
        NotificationOptions { notification_type }
    }
}

impl vstd::std_specs::convert::FromSpecImpl<NotificationType> for NotificationOptions {
    open spec fn obeys_from_spec() -> bool {
        true
    }

    open spec fn from_spec(v: NotificationType) -> Self {
        NotificationOptions { notification_type: v }
    }
}

/// Parameters of a vibration.
///
/// The duration, in milliseconds, is a binary64 floating-point number and is
/// held here as its bit pattern, so that it crosses to the native side
/// exactly as the caller gave it. No range is enforced here: what a platform
/// does with an unusual duration is its own concern.
#[derive(Debug, Clone, Copy, PartialEq, Eq, Structural)]
pub struct VibrateOptions {
    pub duration_bits: u64,
}

impl VibrateOptions {
    /// Options for a vibration of the given duration (binary64 bits of the
    /// milliseconds).
    pub fn from_duration_bits(duration_bits: u64) -> (r: Self)
        ensures
            r.duration_bits == duration_bits,
    {
        VibrateOptions { duration_bits }
    }
}

impl Default for VibrateOptions {
    fn default() -> (r: Self)
        ensures
            r.duration_bits == DEFAULT_VIBRATE_DURATION_BITS,
    {
        VibrateOptions { duration_bits: DEFAULT_VIBRATE_DURATION_BITS }
    }
}

} // verus!
