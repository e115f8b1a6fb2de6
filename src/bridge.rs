use vstd::prelude::*;
use crate::codec::{impact_payload, notification_payload, vibrate_payload};
use crate::options::{ImpactOptions, NotificationOptions, VibrateOptions};
use crate::wire::{payload_view, FieldModel, WireField};

verus! {

/// A native call: the name of the native operation and its encoded payload,
/// absent for requests that carry no data.
#[derive(Debug, Clone, PartialEq, Eq)]
pub struct CallDescriptor {
    pub name: String,
    pub payload: Option<WireField>,
}

/// The mathematical model of a [`CallDescriptor`].
pub struct CallModel {
    pub name: Seq<char>,
    pub payload: Option<FieldModel>,
}

impl View for CallDescriptor {
    type V = CallModel;

    open spec fn view(&self) -> CallModel {
        CallModel { name: self.name@, payload: payload_view(self.payload) }
    }
}

/// What the native gateway reports for one call.
#[derive(Debug, Clone, PartialEq, Eq)]
pub enum NativeOutcome {
    /// The native operation ran and answered, with the payload it returned if
    /// any.
    Resolved(Option<WireField>),
    /// The native operation ran and reported a failure, with its diagnostic.
    Rejected(String),
    /// No native implementation is registered under the call's name.
    Unrouted,
    /// The gateway could not render the payload in its platform's form.
    Unencodable(String),
}

/// The mathematical model of a [`NativeOutcome`].
pub enum OutcomeModel {
    Resolved(Option<FieldModel>),
    Rejected(Seq<char>),
    Unrouted,
    Unencodable(Seq<char>),
}

impl View for NativeOutcome {
    type V = OutcomeModel;

    open spec fn view(&self) -> OutcomeModel {
        match self {
            NativeOutcome::Resolved(p) => OutcomeModel::Resolved(payload_view(*p)),
            NativeOutcome::Rejected(m) => OutcomeModel::Rejected(m@),
            NativeOutcome::Unrouted => OutcomeModel::Unrouted,
            NativeOutcome::Unencodable(m) => OutcomeModel::Unencodable(m@),
        }
    }
}

/// Why a haptics request failed.
#[derive(Debug, Clone, PartialEq, Eq)]
pub enum Error {
    /// The payload could not be represented in the platform's wire form; the
    /// diagnostic the gateway gave.
    Encoding(String),
    /// No native implementation is registered for the call; its name.
    Routing(String),
    /// The native implementation reported a failure; its diagnostic.
    Native(String),
    /// The native answer could not be read as the call's result; the call's
    /// name.
    Decoding(String),
}

/// The mathematical model of an [`Error`].
pub enum Failure {
    Encoding(Seq<char>),
    Routing(Seq<char>),
    Native(Seq<char>),
    Decoding(Seq<char>),
}

impl View for Error {
    type V = Failure;

    open spec fn view(&self) -> Failure {
        match self {
            Error::Encoding(m) => Failure::Encoding(m@),
            Error::Routing(m) => Failure::Routing(m@),
            Error::Native(m) => Failure::Native(m@),
            Error::Decoding(m) => Failure::Decoding(m@),
        }
    }
}

/// The model of a request's result.
pub open spec fn result_view(r: Result<(), Error>) -> Result<(), Failure> {
    match r {
        Ok(()) => Ok(()),
        Err(e) => Err(e@),
    }
}

/// The result of a call that expects no data back, given the outcome the
/// gateway reported for it.
pub open spec fn settle(call: CallModel, outcome: OutcomeModel) -> Result<(), Failure> {
    match outcome {
        OutcomeModel::Resolved(None) => Ok(()),
        OutcomeModel::Resolved(Some(_)) => Err(Failure::Decoding(call.name)),
        OutcomeModel::Rejected(m) => Err(Failure::Native(m)),
        OutcomeModel::Unrouted => Err(Failure::Routing(call.name)),
        OutcomeModel::Unencodable(m) => Err(Failure::Encoding(m)),
    }
}

/// The native call of an impact request.
pub open spec fn impact_call(o: ImpactOptions) -> CallModel {
    CallModel { name: "impact"@, payload: Some(impact_payload(o)) }
}

/// The native call of a vibration request.
pub open spec fn vibrate_call(o: VibrateOptions) -> CallModel {
    CallModel { name: "vibrate"@, payload: Some(vibrate_payload(o)) }
}

/// The native call of a notification request.
pub open spec fn notification_call(o: NotificationOptions) -> CallModel {
    CallModel { name: "notification"@, payload: Some(notification_payload(o)) }
}

/// The native call that signals the start of a selection.
pub open spec fn selection_start_call() -> CallModel {
    CallModel { name: "selectionStart"@, payload: None }
}

/// The native call that signals a change of selection.
pub open spec fn selection_changed_call() -> CallModel {
    CallModel { name: "selectionChanged"@, payload: None }
}

/// The native call that signals the end of a selection.
pub open spec fn selection_end_call() -> CallModel {
    CallModel { name: "selectionEnd"@, payload: None }
}

/// A request on its way to the native side.
///
/// It holds the descriptor to hand to the gateway, and is consumed by
/// [`PendingCall::complete`] when the gateway's one outcome arrives, so each
/// request yields exactly one result. Abandoning it does not cancel a native
/// call already made.
#[derive(Debug)]
pub struct PendingCall {
    descriptor: CallDescriptor,
}

impl View for PendingCall {
    type V = CallModel;

    closed spec fn view(&self) -> CallModel {
        self.descriptor@
    }
}

impl PendingCall {
    fn new(name: &str, payload: Option<WireField>) -> (r: PendingCall)
        ensures
            r@ == (CallModel { name: name@, payload: payload_view(payload) }),
    {
        PendingCall { descriptor: CallDescriptor { name: String::from_str(name), payload } }
    }

    /// The native call to perform.
    pub fn descriptor(&self) -> (r: &CallDescriptor)
        ensures
            r@ == self@,
    {
        &self.descriptor
    }

    /// The request's result, given what the gateway reported for its call:
    /// success when the native side answered with no data, and otherwise the
    /// failure that matches the outcome.
    pub fn complete(self, outcome: NativeOutcome) -> (r: Result<(), Error>)
        ensures
            result_view(r) == settle(self@, outcome@),
    {
        match outcome {
            NativeOutcome::Resolved(None) => Ok(()),
            NativeOutcome::Resolved(Some(_)) => Err(Error::Decoding(self.descriptor.name)),
            NativeOutcome::Rejected(m) => Err(Error::Native(m)),
            NativeOutcome::Unrouted => Err(Error::Routing(self.descriptor.name)),
            NativeOutcome::Unencodable(m) => Err(Error::Encoding(m)),
        }
    }
}

/// Entry points of the haptics feature set.
///
/// Each prepares one native call; performing it and completing the returned
/// [`PendingCall`] with the gateway's outcome gives the request's result.
pub struct Haptics;

impl Haptics {
    /// An impact feedback with the given style.
    pub fn impact(options: ImpactOptions) -> (r: PendingCall)
        ensures
            r@ == impact_call(options),
    {
        PendingCall::new("impact", Some(options.encode()))
    }

    /// A vibration of the given duration.
    pub fn vibrate(options: VibrateOptions) -> (r: PendingCall)
        ensures
            r@ == vibrate_call(options),
    {
        PendingCall::new("vibrate", Some(options.encode()))
    }

    /// A notification feedback of the given type.
    pub fn notification(options: NotificationOptions) -> (r: PendingCall)
        ensures
            r@ == notification_call(options),
    {
        PendingCall::new("notification", Some(options.encode()))
    }

    /// Signals that a selection has started.
    pub fn selection_start() -> (r: PendingCall)
        ensures
            r@ == selection_start_call(),
    {
        PendingCall::new("selectionStart", None)
    }

    /// Signals that the selection has changed.
    pub fn selection_changed() -> (r: PendingCall)
        ensures
            r@ == selection_changed_call(),
    {
        PendingCall::new("selectionChanged", None)
    }

    /// Signals that a selection has ended.
    pub fn selection_end() -> (r: PendingCall)
        ensures
            r@ == selection_end_call(),
    {
        PendingCall::new("selectionEnd", None)
    }
}

/// Each selection-state call carries no payload and settles to exactly one
/// result for the one outcome the gateway reports: success exactly when the
/// native side answered with no data, and otherwise the single failure that
/// matches the outcome.
pub proof fn lemma_selection_call_settles_once(call: CallModel, outcome: OutcomeModel)
    requires
        call == selection_start_call() || call == selection_changed_call() || call
            == selection_end_call(),
    ensures
        call.payload is None,
        settle(call, outcome) is Ok <==> outcome == OutcomeModel::Resolved(None),
        outcome is Unrouted ==> settle(call, outcome) == Err::<(), Failure>(
            Failure::Routing(call.name),
        ),
        outcome matches OutcomeModel::Rejected(m) ==> settle(call, outcome) == Err::<(), Failure>(
            Failure::Native(m),
        ),
        outcome matches OutcomeModel::Unencodable(m) ==> settle(call, outcome) == Err::<
            (),
            Failure,
        >(Failure::Encoding(m)),
        outcome matches OutcomeModel::Resolved(Some(_)) ==> settle(call, outcome) == Err::<
            (),
            Failure,
        >(Failure::Decoding(call.name)),
{
}

/// Two selection-start requests in a row are independent and alike: both
/// make the same native call, and each result depends on its own outcome
/// alone, so equal outcomes give equal results.
pub proof fn lemma_selection_start_repeatable(first: OutcomeModel, second: OutcomeModel)
    ensures
        settle(selection_start_call(), first) is Ok <==> first == OutcomeModel::Resolved(None),
        settle(selection_start_call(), second) is Ok <==> second == OutcomeModel::Resolved(None),
        first == second ==> settle(selection_start_call(), first) == settle(
            selection_start_call(),
            second,
        ),
{
}

} // verus!
