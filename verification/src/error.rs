//! What can go wrong: a conversion that fails at one of its stages, and a
//! fault in the admission control of a batch.
use vstd::prelude::*;
use vstd::string::*;

verus! {

/// The stage of a conversion at which it failed.
#[derive(Debug, Clone, Copy, PartialEq, Eq, Structural)]
pub enum ErrorStage {
    /// The source could not be read or decoded.
    Decode,
    /// The target encoder rejected the image.
    Encode,
    /// The destination could not be written.
    Write,
}

/// A failed conversion: the stage, a fixed line that says what was being
/// done, and the diagnostic of whoever refused.
#[derive(Debug, Clone, PartialEq, Eq)]
pub struct ConversionError {
    pub stage: ErrorStage,
    pub context: String,
    pub detail: String,
}

/// What a failed conversion says, as plain values.
pub struct ErrorView {
    pub stage: ErrorStage,
    pub context: Seq<char>,
    pub detail: Seq<char>,
}

impl View for ConversionError {
    type V = ErrorView;

    open spec fn view(&self) -> ErrorView {
        ErrorView { stage: self.stage, context: self.context@, detail: self.detail@ }
    }
}

/// A result of the converter with its failure as plain values.
pub open spec fn outcome_of<T>(result: Result<T, ConversionError>) -> Result<T, ErrorView> {
    match result {
        Ok(value) => Ok(value),
        Err(error) => Err(error@),
    }
}

/// The text between the context and the detail of a description.
pub open spec fn separator() -> Seq<char> {
    seq![':', ' ']
}

impl ConversionError {
    /// The description of the failure: context, separator, detail.
    pub open spec fn description_text(&self) -> Seq<char> {
        self.context@ + separator() + self.detail@
    }

    fn with_stage(stage: ErrorStage, context: &str, detail: String) -> (error: ConversionError)
        ensures
            error.stage == stage,
            error.context@ == context@,
            error.detail@ == detail@,
    {
        ConversionError { stage, context: String::from_str(context), detail }
    }

    /// A failure to read or decode the source.
    pub fn decode(context: &str, detail: String) -> (error: ConversionError)
        ensures
            error.stage == ErrorStage::Decode,
            error.context@ == context@,
            error.detail@ == detail@,
    {
        Self::with_stage(ErrorStage::Decode, context, detail)
    }

    /// A failure of the target encoder.
    pub fn encode(context: &str, detail: String) -> (error: ConversionError)
        ensures
            error.stage == ErrorStage::Encode,
            error.context@ == context@,
            error.detail@ == detail@,
    {
        Self::with_stage(ErrorStage::Encode, context, detail)
    }

    /// A failure to write the destination.
    pub fn write(context: &str, detail: String) -> (error: ConversionError)
        ensures
            error.stage == ErrorStage::Write,
            error.context@ == context@,
            error.detail@ == detail@,
    {
        Self::with_stage(ErrorStage::Write, context, detail)
    }

    /// The failure as one line of text. It is never empty.
    pub fn description(&self) -> (text: String)
        ensures
            text@ == self.description_text(),
            text@.len() >= 2,
    {
        proof {
            reveal_strlit(": ");
            assert(": "@ =~= separator());
        }
        let mut text = self.context.clone();
        text.append(": ");
        text.append(self.detail.as_str());
        text
    }
}

/// A fault in the admission control: a permit was handed back that nobody
/// held, or a job reported an end that it could not have reached.
#[derive(Debug, Clone, Copy, PartialEq, Eq, Structural)]
pub struct PermitSystemFault {}

} // verus!
