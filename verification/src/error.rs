//! The failure classes of the engine.

use vstd::prelude::*;
use vstd::string::*;

verus! {

/// What went wrong, by the part of the engine that failed, with a message
/// for the operator.
#[derive(Debug, Clone)]
pub enum ArbError {
    /// The configuration is malformed or incomplete.
    Config(String),
    /// An RPC endpoint could not be reached.
    Provider(String),
    /// A quote could not be produced.
    Quote(String),
    /// A simulation or a submission failed.
    Execution(String),
}

impl ArbError {
    /// The message that the error carries.
    pub open spec fn detail(self) -> Seq<char> {
        match self {
            ArbError::Config(m) => m@,
            ArbError::Provider(m) => m@,
            ArbError::Quote(m) => m@,
            ArbError::Execution(m) => m@,
        }
    }

    /// The heading that names the error's class in a rendered message.
    pub open spec fn heading(self) -> Seq<char> {
        match self {
            ArbError::Config(_) => "Config error: "@,
            ArbError::Provider(_) => "Provider error: "@,
            ArbError::Quote(_) => "Quote error: "@,
            ArbError::Execution(_) => "Execution error: "@,
        }
    }

    /// The error as one line of text: its heading, then its message.
    pub fn describe(&self) -> (text: String)
        ensures
            text@ == self.heading() + self.detail(),
    {
        let (head, detail) = match self {
            ArbError::Config(m) => ("Config error: ", m),
            ArbError::Provider(m) => ("Provider error: ", m),
            ArbError::Quote(m) => ("Quote error: ", m),
            ArbError::Execution(m) => ("Execution error: ", m),
        };
        let mut text = String::from_str(head);
        text.append(detail.as_str());
        text
    }
}

} // verus!
