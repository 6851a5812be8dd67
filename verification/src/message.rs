//! What the controller reports: reloads that went through, and failures.

use crate::stage::ShaderStage;
use vstd::prelude::*;
use vstd::string::*;

verus! {

/// Why the controller could not be set up, or why a reload did not go
/// through.
#[derive(Clone, Debug, PartialEq, Eq)]
pub enum Error {
    /// The shader compiler could not be created.
    CompilerInit { details: String },
    /// The shader directory could not be watched.
    WatchSetup { details: String },
    /// The shader's source could not be read.
    FileRead { path: String, details: String },
    /// The compiler rejected the shader's source.
    Compile { stage: ShaderStage, path: String, diagnostic: String },
    /// The rendering engine did not destroy the live material.
    MaterialTeardown { details: String },
    /// The rendering engine did not create a material.
    MaterialCreation { details: String },
    /// The controller was handed an outcome it had not asked for.
    UnexpectedInput,
}

/// An error as a mathematical value.
pub enum ErrorView {
    CompilerInit { details: Seq<char> },
    WatchSetup { details: Seq<char> },
    FileRead { path: Seq<char>, details: Seq<char> },
    Compile { stage: ShaderStage, path: Seq<char>, diagnostic: Seq<char> },
    MaterialTeardown { details: Seq<char> },
    MaterialCreation { details: Seq<char> },
    UnexpectedInput,
}

impl View for Error {
    type V = ErrorView;

    open spec fn view(&self) -> ErrorView {
        match self {
            Error::CompilerInit { details } => ErrorView::CompilerInit { details: details@ },
            Error::WatchSetup { details } => ErrorView::WatchSetup { details: details@ },
            Error::FileRead { path, details } => ErrorView::FileRead {
                path: path@,
                details: details@,
            },
            Error::Compile { stage, path, diagnostic } => ErrorView::Compile {
                stage: *stage,
                path: path@,
                diagnostic: diagnostic@,
            },
            Error::MaterialTeardown { details } => ErrorView::MaterialTeardown {
                details: details@,
            },
            Error::MaterialCreation { details } => ErrorView::MaterialCreation {
                details: details@,
            },
            Error::UnexpectedInput => ErrorView::UnexpectedInput,
        }
    }
}

impl ErrorView {
    /// Whether the error struck in the middle of a swap, after which no live
    /// material is left. The other errors leave the rendering state as it
    /// was.
    pub open spec fn is_severe(self) -> bool {
        self is MaterialTeardown || self is MaterialCreation
    }

    /// The error in words.
    pub open spec fn text(self) -> Seq<char> {
        match self {
            ErrorView::CompilerInit { details } => "Failed to create the shader compiler: "@
                + details,
            ErrorView::WatchSetup { details } => "Failed to watch the shader directory: "@
                + details,
            ErrorView::FileRead { path, details } => "File error loading "@ + path + ": "@
                + details,
            ErrorView::Compile { stage, path, diagnostic } => "Failed to compile "@ + stage.name()
                + " shader "@ + path + ": "@ + diagnostic,
            ErrorView::MaterialTeardown { details } => "Failed to remove the live material: "@
                + details,
            ErrorView::MaterialCreation { details } => "Failed to create the material: "@
                + details,
            ErrorView::UnexpectedInput => "Input does not answer the pending action"@,
        }
    }
}

impl Error {
    /// Whether the error struck in the middle of a swap, after which no live
    /// material is left.
    pub fn is_severe(&self) -> (severe: bool)
        ensures
            severe == self@.is_severe(),
    {
        match self {
            Error::MaterialTeardown { .. } => true,
            Error::MaterialCreation { .. } => true,
            _ => false,
        }
    }

    /// The error in words, for a log or a status line.
    pub fn describe(&self) -> (text: String)
        ensures
            text@ == self@.text(),
    {
        match self {
            Error::CompilerInit { details } => {
                String::from_str("Failed to create the shader compiler: ").concat(
                    details.as_str(),
                )
            },
            Error::WatchSetup { details } => {
                String::from_str("Failed to watch the shader directory: ").concat(
                    details.as_str(),
                )
            },
            Error::FileRead { path, details } => {
                String::from_str("File error loading ").concat(path.as_str()).concat(": ").concat(
                    details.as_str(),
                )
            },
            Error::Compile { stage, path, diagnostic } => {
                String::from_str("Failed to compile ").concat(stage.label()).concat(
                    " shader ",
                ).concat(path.as_str()).concat(": ").concat(diagnostic.as_str())
            },
            Error::MaterialTeardown { details } => {
                String::from_str("Failed to remove the live material: ").concat(details.as_str())
            },
            Error::MaterialCreation { details } => {
                String::from_str("Failed to create the material: ").concat(details.as_str())
            },
            Error::UnexpectedInput => String::from_str("Input does not answer the pending action"),
        }
    }
}

/// What one complete poll reports when it has something to report.
#[derive(Clone, Debug, PartialEq, Eq)]
pub enum Message {
    /// The shader at `path` was compiled and is now part of the live
    /// material.
    Reloaded { stage: ShaderStage, path: String },
    /// The reload was given up.
    Error(Error),
}

/// A message as a mathematical value.
pub enum MessageView {
    Reloaded { stage: ShaderStage, path: Seq<char> },
    Error(ErrorView),
}

impl View for Message {
    type V = MessageView;

    open spec fn view(&self) -> MessageView {
        match self {
            Message::Reloaded { stage, path } => MessageView::Reloaded {
                stage: *stage,
                path: path@,
            },
            Message::Error(error) => MessageView::Error(error@),
        }
    }
}

impl MessageView {
    /// The message in words.
    pub open spec fn text(self) -> Seq<char> {
        match self {
            MessageView::Reloaded { stage, path } => "Successfully loaded "@ + stage.name()
                + " shader: "@ + path,
            MessageView::Error(error) => error.text(),
        }
    }
}

impl Message {
    /// The message in words, for a log or a status line.
    pub fn describe(&self) -> (text: String)
        ensures
            text@ == self@.text(),
    {
        match self {
            Message::Reloaded { stage, path } => {
                String::from_str("Successfully loaded ").concat(stage.label()).concat(
                    " shader: ",
                ).concat(path.as_str())
            },
            Message::Error(error) => error.describe(),
        }
    }
}

} // verus!
