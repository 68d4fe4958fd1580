//! The JSON envelope of a decimal: `{"decimal": "<exact text>", "rounded": <float>}`.
//! This module frames and checks the envelope's fields; reading and writing
//! JSON itself happens outside the library.
use crate::decimal::{text_model, BigDecimal};
use crate::engine::parsed_decimal;
use crate::model::{pair_model, same_value, DecimalModel};
use bigdecimal::ParseBigDecimalError;
use vstd::prelude::*;

verus! {

/// A decimal on its way into or out of its JSON envelope.
#[derive(Debug)]
pub struct BigDecimalJson(BigDecimal);

/// Why an envelope could not be read.
#[derive(Debug)]
pub enum EnvelopeError {
    /// The top-level JSON value is not an object.
    NotAnObject,
    /// The object has no `decimal` field holding a string.
    MissingDecimal,
    /// The `decimal` string is not a decimal numeral.
    InvalidDecimal(ParseBigDecimalError),
}

impl View for BigDecimalJson {
    type V = DecimalModel;

    closed spec fn view(&self) -> DecimalModel {
        self.0@
    }
}

impl BigDecimalJson {
    pub fn from_decimal(value: BigDecimal) -> (r: BigDecimalJson)
        ensures
            r@ == value@,
    {
        BigDecimalJson(value)
    }

    pub fn into_decimal(self) -> (r: BigDecimal)
        ensures
            r@ == self@,
    {
        self.0
    }

    pub fn decimal(&self) -> (r: &BigDecimal)
        ensures
            r@ == self@,
    {
        &self.0
    }

    /// The envelope's `decimal` field: the exact text of the value, which
    /// `decode` reads back as an equal value.
    pub fn decimal_field(&self) -> (r: String)
        ensures
            r@ == text_model(self@),
            parsed_decimal(r@) is Some,
            same_value(pair_model(parsed_decimal(r@).unwrap()), self@),
    {
        self.0.to_string()
    }

    /// Reads an envelope from what the JSON value held: whether it was an
    /// object, and the `decimal` field where it was a string. Any `rounded`
    /// field is never read.
    pub fn decode(is_object: bool, decimal: Option<&str>) -> (r: Result<BigDecimalJson, EnvelopeError>)
        ensures
            !is_object ==> r is Err && r->Err_0 is NotAnObject,
            is_object && decimal is None ==> r is Err && r->Err_0 is MissingDecimal,
            is_object && decimal is Some ==> {
                let s = decimal->Some_0@;
                &&& r is Ok <==> parsed_decimal(s) is Some
                &&& r is Err ==> r->Err_0 is InvalidDecimal
                &&& r is Ok ==> r->Ok_0@ == pair_model(parsed_decimal(s).unwrap())
            },
    {
        if !is_object {
            return Err(EnvelopeError::NotAnObject);
        }
        match decimal {
            None => Err(EnvelopeError::MissingDecimal),
            Some(text) => match BigDecimal::from_str(text) {
                Ok(value) => Ok(BigDecimalJson(value)),
                Err(e) => Err(EnvelopeError::InvalidDecimal(e)),
            },
        }
    }
}

impl Clone for BigDecimalJson {
    fn clone(&self) -> (r: BigDecimalJson)
        ensures
            r@ == self@,
    {
        BigDecimalJson(self.0.clone())
    }
}

} // verus!
