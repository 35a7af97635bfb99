//! Lenient reading of decimal amounts from JSON: a number or a text counts,
//! and for an optional amount null and the empty text stand for none.

use vstd::prelude::*;
use vstd::string::StringExecFns;
use rust_decimal::Decimal;

verus! {

/// A JSON value as far as the reading of an amount looks at it.
#[derive(Debug, Clone)]
pub enum JsonInput {
    /// The value `null`.
    Null,
    /// A number that is a signed 64-bit integer.
    Integer(i64),
    /// Any other number that has a floating-point reading, as the text of
    /// that reading.
    Float(String),
    /// A number without a floating-point reading.
    OtherNumber,
    /// A text.
    Text(String),
    /// A truth value, a list or an object.
    Other,
}

/// What an amount is built from.
#[derive(Debug, Clone)]
pub enum DecimalSource {
    /// A whole number.
    Integer(i64),
    /// A text to parse.
    Text(String),
}

/// Why a JSON value gives no amount.
#[derive(Debug)]
pub enum DecimalError {
    /// The number has no reading as an amount.
    InvalidNumber,
    /// The value is neither a number nor a text.
    ExpectedNumberOrText,
    /// The value is neither a number nor a text nor null.
    ExpectedNumberTextOrNull,
    /// The text is no decimal number.
    Unparsable(rust_decimal::Error),
}

/// `rust_decimal::Decimal`, carried as an opaque value.
#[verifier::external_type_specification]
#[verifier::external_body]
pub struct ExDecimal(Decimal);

/// `rust_decimal::Error`, carried as an opaque value.
#[verifier::external_type_specification]
#[verifier::external_body]
pub struct ExDecimalError(rust_decimal::Error);

/// The source as plain values: the number, or the characters of the text.
pub enum SourceModel {
    Integer(i64),
    Text(Seq<char>),
}

impl View for DecimalSource {
    type V = SourceModel;

    open spec fn view(&self) -> SourceModel {
        match self {
            DecimalSource::Integer(number) => SourceModel::Integer(*number),
            DecimalSource::Text(text) => SourceModel::Text(text@),
        }
    }
}

/// What a number or a text is read from; none for every other value.
pub open spec fn source_of(value: JsonInput) -> Option<SourceModel> {
    match value {
        JsonInput::Integer(number) => Some(SourceModel::Integer(number)),
        JsonInput::Float(text) => Some(SourceModel::Text(text@)),
        JsonInput::Text(text) => Some(SourceModel::Text(text@)),
        _ => None,
    }
}

/// An optional amount is absent where the value is missing, null or the
/// empty text.
pub open spec fn stands_for_none(value: Option<JsonInput>) -> bool {
    match value {
        None => true,
        Some(JsonInput::Null) => true,
        Some(JsonInput::Text(text)) => text@.len() == 0,
        _ => false,
    }
}

/// What a required amount is built from. A number without a reading is
/// refused as invalid, every value that is neither number nor text as of the
/// wrong kind.
pub fn decimal_source(value: JsonInput) -> (source: Result<DecimalSource, DecimalError>)
    ensures
        match source {
            Ok(found) => source_of(value) == Some(found@),
            Err(DecimalError::InvalidNumber) => (value matches JsonInput::OtherNumber),
            Err(DecimalError::ExpectedNumberOrText) => (value matches JsonInput::Null) || (
            value matches JsonInput::Other),
            Err(_) => false,
        },
{
    match value {
        JsonInput::Integer(number) => Ok(DecimalSource::Integer(number)),
        JsonInput::Float(text) => Ok(DecimalSource::Text(text)),
        JsonInput::Text(text) => Ok(DecimalSource::Text(text)),
        JsonInput::OtherNumber => Err(DecimalError::InvalidNumber),
        JsonInput::Null => Err(DecimalError::ExpectedNumberOrText),
        JsonInput::Other => Err(DecimalError::ExpectedNumberOrText),
    }
}

/// What an optional amount is built from, if it is present.
pub fn optional_decimal_source(value: Option<JsonInput>) -> (source: Result<
    Option<DecimalSource>,
    DecimalError,
>)
    ensures
        match source {
            Ok(None) => stands_for_none(value),
            Ok(Some(found)) => !stands_for_none(value) && value.is_some() && source_of(
                value.unwrap(),
            ) == Some(found@),
            Err(DecimalError::InvalidNumber) => (value matches Some(JsonInput::OtherNumber)),
            Err(DecimalError::ExpectedNumberTextOrNull) => (value matches Some(JsonInput::Other)),
            Err(_) => false,
        },
{
    match value {
        None => Ok(None),
        Some(JsonInput::Null) => Ok(None),
        Some(JsonInput::Text(text)) => {
            if text.as_str().unicode_len() == 0 {
                Ok(None)
            } else {
                Ok(Some(DecimalSource::Text(text)))
            }
        },
        Some(JsonInput::Integer(number)) => Ok(Some(DecimalSource::Integer(number))),
        Some(JsonInput::Float(text)) => Ok(Some(DecimalSource::Text(text))),
        Some(JsonInput::OtherNumber) => Err(DecimalError::InvalidNumber),
        Some(JsonInput::Other) => Err(DecimalError::ExpectedNumberTextOrNull),
    }
}

/// What `Decimal::from` makes of a signed 64-bit integer: the amount of that
/// value.
pub uninterp spec fn decimal_of_integer(number: i64) -> Decimal;

/// What `Decimal::from_str` makes of a text: the amount that the text
/// writes, or the error that says why it writes none.
pub uninterp spec fn decimal_of_text(text: Seq<char>) -> Result<Decimal, rust_decimal::Error>;

/// Calls `Decimal::from` on a signed 64-bit integer. The conversion looks at
/// nothing but the number, so the same number always gives the same amount.
#[verifier::external_body]
fn decimal_from_integer(number: i64) -> (amount: Decimal)
    ensures
        amount == decimal_of_integer(number),
{
    Decimal::from(number)
}

/// Calls `str::parse` for a `Decimal`, which is `Decimal::from_str`. The
/// parser looks at nothing but the text, so the same text always gives the
/// same amount or the same error.
#[verifier::external_body]
fn decimal_from_text(text: &str) -> (amount: Result<Decimal, rust_decimal::Error>)
    ensures
        amount == decimal_of_text(text@),
{
    text.parse::<Decimal>()
}

/// The outcome of parsing as the outcome of building an amount: the amount,
/// or the parser's error as [`DecimalError::Unparsable`].
pub open spec fn as_amount(parsed: Result<Decimal, rust_decimal::Error>) -> Result<
    Decimal,
    DecimalError,
> {
    match parsed {
        Ok(value) => Ok(value),
        Err(error) => Err(DecimalError::Unparsable(error)),
    }
}

/// The amount that a source gives: that of the whole number, or what the
/// decimal parser makes of the text.
pub open spec fn amount_of(source: SourceModel) -> Result<Decimal, DecimalError> {
    match source {
        SourceModel::Integer(number) => Ok(decimal_of_integer(number)),
        SourceModel::Text(text) => as_amount(decimal_of_text(text)),
    }
}

/// The amount that a required JSON value gives. A number or a text gives
/// what its source gives; a number without a reading is invalid, every other
/// value is of the wrong kind.
pub open spec fn required_amount(value: JsonInput) -> Result<Decimal, DecimalError> {
    match source_of(value) {
        Some(source) => amount_of(source),
        None => match value {
            JsonInput::OtherNumber => Err(DecimalError::InvalidNumber),
            _ => Err(DecimalError::ExpectedNumberOrText),
        },
    }
}

/// The amount that an optional JSON value gives: none where the value
/// stands for none; else what a number or a text gives; a number without a
/// reading is invalid, every other value is of the wrong kind.
pub open spec fn optional_amount(value: Option<JsonInput>) -> Result<
    Option<Decimal>,
    DecimalError,
> {
    if stands_for_none(value) {
        Ok(None)
    } else {
        match source_of(value.unwrap()) {
            Some(source) => match amount_of(source) {
                Ok(found) => Ok(Some(found)),
                Err(error) => Err(error),
            },
            None => match value.unwrap() {
                JsonInput::OtherNumber => Err(DecimalError::InvalidNumber),
                _ => Err(DecimalError::ExpectedNumberTextOrNull),
            },
        }
    }
}

/// The outcome of building an amount, given what parsing the text gave: the
/// amount, or the parser's error as [`DecimalError::Unparsable`].
pub fn parsed_amount(parsed: Result<Decimal, rust_decimal::Error>) -> (amount: Result<
    Decimal,
    DecimalError,
>)
    ensures
        amount == as_amount(parsed),
{
    match parsed {
        Ok(value) => Ok(value),
        Err(error) => Err(DecimalError::Unparsable(error)),
    }
}

/// Builds the amount from its source: the amount of a whole number, or what
/// the decimal parser makes of a text. A whole number always gives an amount;
/// a text gives one where the parser accepts it, else the parser's error.
pub fn build_decimal(source: DecimalSource) -> (amount: Result<Decimal, DecimalError>)
    ensures
        amount == amount_of(source@),
{
    match source {
        DecimalSource::Integer(number) => Ok(decimal_from_integer(number)),
        DecimalSource::Text(text) => parsed_amount(decimal_from_text(text.as_str())),
    }
}

/// Reads a required amount from a JSON value.
pub fn deserialize(value: JsonInput) -> (amount: Result<Decimal, DecimalError>)
    ensures
        amount == required_amount(value),
{
    match decimal_source(value) {
        Ok(source) => build_decimal(source),
        Err(error) => Err(error),
    }
}

/// Reads an optional amount from a JSON value, if there is one.
pub fn deserialize_option(value: Option<JsonInput>) -> (amount: Result<
    Option<Decimal>,
    DecimalError,
>)
    ensures
        amount == optional_amount(value),
{
    match optional_decimal_source(value) {
        Ok(None) => Ok(None),
        Ok(Some(source)) => match build_decimal(source) {
            Ok(found) => Ok(Some(found)),
            Err(error) => Err(error),
        },
        Err(error) => Err(error),
    }
}

impl DecimalError {
    /// The words for an error that is not the parser's own.
    pub open spec fn message_text(self) -> Option<Seq<char>> {
        match self {
            DecimalError::InvalidNumber => Some("Invalid number format"@),
            DecimalError::ExpectedNumberOrText => Some("Expected a number or string for Decimal"@),
            DecimalError::ExpectedNumberTextOrNull => Some(
                "Expected a number, string or null for Decimal"@,
            ),
            DecimalError::Unparsable(_) => None,
        }
    }

    /// The error in words; none for the parser's error, which has its own.
    pub fn message(&self) -> (text: Option<String>)
        ensures
            match text {
                Some(words) => self.message_text() == Some(words@),
                None => self.message_text().is_none(),
            },
    {
        match self {
            DecimalError::InvalidNumber => Some(String::from_str("Invalid number format")),
            DecimalError::ExpectedNumberOrText => Some(
                String::from_str("Expected a number or string for Decimal"),
            ),
            DecimalError::ExpectedNumberTextOrNull => Some(
                String::from_str("Expected a number, string or null for Decimal"),
            ),
            DecimalError::Unparsable(_) => None,
        }
    }
}

} // verus!
