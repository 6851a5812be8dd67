//! Shader stages and how a file's extension selects one.

use crate::text::{same_text, text_of};
use vstd::prelude::*;

verus! {

/// The two programmable stages a material is built from.
#[derive(Clone, Copy, Debug, PartialEq, Eq, Structural)]
pub enum ShaderStage {
    Vertex,
    Fragment,
}

/// How the rendering engine interprets the vertices drawn with a material.
#[derive(Clone, Copy, Debug, PartialEq, Eq, Structural)]
pub enum DrawMode {
    Triangles,
    Lines,
    Points,
}

/// The stage that a file extension stands for: `vert` is a vertex shader,
/// `frag` a fragment shader, and nothing else is a shader at all.
pub open spec fn stage_of_extension(extension: Option<Seq<char>>) -> Option<ShaderStage> {
    match extension {
        Some(e) => if e == "vert"@ {
            Some(ShaderStage::Vertex)
        } else if e == "frag"@ {
            Some(ShaderStage::Fragment)
        } else {
            None
        },
        None => None,
    }
}

impl ShaderStage {
    /// Infers the stage from a file extension, given without its dot.
    pub fn from_extension(extension: &Option<String>) -> (stage: Option<ShaderStage>)
        ensures
            stage == stage_of_extension(text_of(*extension)),
    {
        match extension {
            Some(e) => {
                if same_text(e.as_str(), "vert") {
                    Some(ShaderStage::Vertex)
                } else if same_text(e.as_str(), "frag") {
                    Some(ShaderStage::Fragment)
                } else {
                    None
                }
            },
            None => None,
        }
    }

    /// The stage's name as it appears in messages.
    pub open spec fn name(self) -> Seq<char> {
        match self {
            ShaderStage::Vertex => "Vertex"@,
            ShaderStage::Fragment => "Fragment"@,
        }
    }

    /// The stage's name as it appears in messages.
    pub fn label(self) -> (name: &'static str)
        ensures
            name@ == self.name(),
    {
        match self {
            ShaderStage::Vertex => "Vertex",
            ShaderStage::Fragment => "Fragment",
        }
    }
}

} // verus!
