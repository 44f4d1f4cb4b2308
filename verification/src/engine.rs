//! What the worker needs to know of the conversion engine: how its failures
//! are told apart, what a failure says to the consumer, how the result of one
//! conversion becomes an outcome, and the token that stands for a codec that
//! was set up.
//!
//! The engine itself reads and writes files and is no part of this library.
//! It converts one file at a time: the worker asks for the next conversion
//! only after it has the outcome of the one before, and an engine that is
//! called from two places at once is outside the contract.

use crate::events::{ConversionOutcome, ConversionRequest, OutcomeView};
use vstd::prelude::*;

verus! {

/// The steps of one conversion, in their order.
#[derive(Debug, Clone, Copy, PartialEq, Eq)]
pub enum EngineStep {
    /// The source is read and decoded.
    ReadSource,
    /// The image is given the target format.
    SetFormat,
    /// The output is encoded and written.
    WriteOutput,
}

/// Why the engine failed.
#[derive(Debug, Clone, PartialEq, Eq)]
pub enum EngineError {
    /// The source could not be read as an image of the source format.
    Decode(String),
    /// The output could not be encoded or written.
    Encode(String),
    /// The codec could not be set up.
    CodecInit(String),
}

/// An engine failure as plain text.
pub enum EngineErrorView {
    Decode(Seq<char>),
    Encode(Seq<char>),
    CodecInit(Seq<char>),
}

impl View for EngineError {
    type V = EngineErrorView;

    open spec fn view(&self) -> EngineErrorView {
        match self {
            EngineError::Decode(message) => EngineErrorView::Decode(message@),
            EngineError::Encode(message) => EngineErrorView::Encode(message@),
            EngineError::CodecInit(message) => EngineErrorView::CodecInit(message@),
        }
    }
}

impl EngineErrorView {
    /// The failure of a conversion at `step` with `message`: reading the
    /// source fails to decode, every later step fails to encode.
    pub open spec fn at(step: EngineStep, message: Seq<char>) -> EngineErrorView {
        match step {
            EngineStep::ReadSource => EngineErrorView::Decode(message),
            EngineStep::SetFormat => EngineErrorView::Encode(message),
            EngineStep::WriteOutput => EngineErrorView::Encode(message),
        }
    }

    /// What the failure says to the consumer: the message of the engine, as
    /// it is.
    pub open spec fn reason(self) -> Seq<char> {
        match self {
            EngineErrorView::Decode(message) => message,
            EngineErrorView::Encode(message) => message,
            EngineErrorView::CodecInit(message) => message,
        }
    }
}

impl EngineError {
    /// The failure of a conversion at `step`, with the message of the
    /// engine.
    pub fn at(step: EngineStep, message: String) -> (error: EngineError)
        ensures
            error@ == EngineErrorView::at(step, message@),
    {
        match step {
            EngineStep::ReadSource => EngineError::Decode(message),
            EngineStep::SetFormat => EngineError::Encode(message),
            EngineStep::WriteOutput => EngineError::Encode(message),
        }
    }

    /// What the failure says to the consumer.
    pub fn reason(&self) -> (reason: String)
        ensures
            reason@ == self@.reason(),
    {
        match self {
            EngineError::Decode(message) => message.clone(),
            EngineError::Encode(message) => message.clone(),
            EngineError::CodecInit(message) => message.clone(),
        }
    }
}

/// The outcome of the conversion asked for by a request with this
/// destination, from what the engine returned: the destination where it
/// succeeded, the reason of the failure where it failed.
pub open spec fn spec_outcome(
    destination: Seq<char>,
    result: Result<(), EngineErrorView>,
) -> OutcomeView {
    match result {
        Ok(_) => OutcomeView::Converted(destination),
        Err(error) => OutcomeView::Failed(error.reason()),
    }
}

/// The outcome of the conversion that `request` asked for, from what the
/// engine returned.
pub fn conversion_outcome(request: ConversionRequest, result: Result<(), EngineError>) -> (outcome:
    ConversionOutcome)
    ensures
        outcome@ == spec_outcome(
            request.destination@,
            match result {
                Ok(_) => Ok(()),
                Err(error) => Err(error@),
            },
        ),
{
    match result {
        Ok(_) => ConversionOutcome::Converted(request.destination),
        Err(error) => ConversionOutcome::Failed(error.reason()),
    }
}

/// Stands for a codec that was set up. There is no way to one but
/// `initialize_codec`, and no worker without one.
#[derive(Debug)]
pub struct CodecToken {
    sealed: (),
}

/// Takes what the setup of the codec returned: the token where it
/// succeeded, and the failure with its message where it did not. The setup
/// itself is made once in a process, by the caller; taking its result twice
/// does no harm.
pub fn initialize_codec(setup: Result<(), String>) -> (token: Result<CodecToken, EngineError>)
    ensures
        match setup {
            Ok(_) => token is Ok,
            Err(message) => token is Err && token->Err_0@ == EngineErrorView::CodecInit(message@),
        },
{
    match setup {
        Ok(_) => Ok(CodecToken { sealed: () }),
        Err(message) => Err(EngineError::CodecInit(message)),
    }
}

} // verus!
