use vstd::prelude::*;

verus! {

/// A value as the native boundary accepts it.
#[derive(Debug, Clone, PartialEq, Eq)]
pub enum WireValue {
    /// A symbolic constant, spelled as the native platform spells it.
    Tag(String),
    /// A binary64 number, given by its bit pattern.
    Number(u64),
}

/// One named field of an encoded payload.
#[derive(Debug, Clone, PartialEq, Eq)]
pub struct WireField {
    pub name: String,
    pub value: WireValue,
}

/// The mathematical model of a [`WireValue`].
pub enum WireDatum {
    Tag(Seq<char>),
    Number(u64),
}

/// The mathematical model of a [`WireField`].
pub struct FieldModel {
    pub name: Seq<char>,
    pub value: WireDatum,
}

impl View for WireValue {
    type V = WireDatum;

    open spec fn view(&self) -> WireDatum {
        match self {
            WireValue::Tag(t) => WireDatum::Tag(t@),
            WireValue::Number(n) => WireDatum::Number(*n),
        }
    }
}

impl View for WireField {
    type V = FieldModel;

    open spec fn view(&self) -> FieldModel {
        FieldModel { name: self.name@, value: self.value@ }
    }
}

/// The model of an optional payload.
pub open spec fn payload_view(p: Option<WireField>) -> Option<FieldModel> {
    match p {
        Some(f) => Some(f@),
        None => None,
    }
}

/// Whether `s` holds exactly the characters of `lit`.
pub fn text_is(s: &String, lit: &str) -> (r: bool)
    ensures
        r == (s@ == lit@),
{
    *s == String::from_str(lit)
}

} // verus!
