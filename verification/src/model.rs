//! Data model of the plugin protocol: requests, responses, host targets and
//! the error taxonomy.

use vstd::prelude::*;

verus! {

/// Identity a plugin needs to locate and describe a package.
#[derive(Debug, Clone, PartialEq)]
pub struct TargetRequest {
    pub package_name: String,
    pub package_root: String,
}

/// Mathematical value of a [`TargetRequest`].
pub struct TargetRequestV {
    pub package_name: Seq<char>,
    pub package_root: Seq<char>,
}

impl View for TargetRequest {
    type V = TargetRequestV;

    open spec fn view(&self) -> TargetRequestV {
        TargetRequestV { package_name: self.package_name@, package_root: self.package_root@ }
    }
}

/// Kind of a target as a plugin describes it.
#[derive(Debug, Clone, Copy, PartialEq, Eq, Structural)]
pub enum ExtTargetKind {
    Bin,
    Lib,
}

/// One buildable artifact as a plugin describes it.
#[derive(Debug, Clone, PartialEq)]
pub struct ExtTarget {
    pub kind: ExtTargetKind,
    pub name: String,
    pub src_path: String,
}

/// Mathematical value of an [`ExtTarget`].
pub struct ExtTargetV {
    pub kind: ExtTargetKind,
    pub name: Seq<char>,
    pub src_path: Seq<char>,
}

impl View for ExtTarget {
    type V = ExtTargetV;

    open spec fn view(&self) -> ExtTargetV {
        ExtTargetV { kind: self.kind, name: self.name@, src_path: self.src_path@ }
    }
}

/// A plugin's whole answer to a target-resolution request: exactly one of
/// success with target descriptors and advisory diagnostics, or an in-band
/// failure message.
#[derive(Debug, Clone, PartialEq)]
pub enum TargetResult {
    Success { targets: Vec<ExtTarget>, warnings: Vec<String>, errors: Vec<String> },
    Failure { message: String },
}

/// Mathematical value of a [`TargetResult`].
pub enum TargetResultV {
    Success { targets: Seq<ExtTargetV>, warnings: Seq<Seq<char>>, errors: Seq<Seq<char>> },
    Failure { message: Seq<char> },
}

impl View for TargetResult {
    type V = TargetResultV;

    open spec fn view(&self) -> TargetResultV {
        match self {
            TargetResult::Success { targets, warnings, errors } => TargetResultV::Success {
                targets: targets@.map_values(|t: ExtTarget| t@),
                warnings: warnings@.map_values(|w: String| w@),
                errors: errors@.map_values(|e: String| e@),
            },
            TargetResult::Failure { message } => TargetResultV::Failure { message: message@ },
        }
    }
}

/// Kind of a host target: a binary, or a library of the host's plain library
/// crate-kind.
#[derive(Debug, Clone, Copy, PartialEq, Eq, Structural)]
pub enum TargetKind {
    Binary,
    Library,
}

/// The single language edition this protocol supports; there is no per-target
/// edition negotiation.
#[derive(Debug, Clone, Copy, PartialEq, Eq, Structural)]
pub enum Edition {
    Edition2021,
}

/// A buildable artifact in the host's own representation.
#[derive(Debug, Clone, PartialEq)]
pub struct Target {
    pub kind: TargetKind,
    pub name: String,
    pub src_path: String,
    pub edition: Edition,
}

/// Mathematical value of a [`Target`].
pub struct TargetV {
    pub kind: TargetKind,
    pub name: Seq<char>,
    pub src_path: Seq<char>,
    pub edition: Edition,
}

impl View for Target {
    type V = TargetV;

    open spec fn view(&self) -> TargetV {
        TargetV { kind: self.kind, name: self.name@, src_path: self.src_path@, edition: self.edition }
    }
}

/// How a plugin descriptor maps into a host target: a `Bin` descriptor
/// becomes a binary target, a `Lib` descriptor a library target, both under
/// the fixed edition, keeping name and source path.
pub open spec fn spec_mk_target(t: ExtTargetV) -> TargetV {
    TargetV {
        kind: match t.kind {
            ExtTargetKind::Bin => TargetKind::Binary,
            ExtTargetKind::Lib => TargetKind::Library,
        },
        name: t.name,
        src_path: t.src_path,
        edition: Edition::Edition2021,
    }
}

impl ExtTarget {
    /// Convert this descriptor into the host's target representation.
    pub fn mk_target(&self) -> (t: Target)
        ensures
            t@ == spec_mk_target(self@),
    {
        Target {
            kind: match self.kind {
                ExtTargetKind::Bin => TargetKind::Binary,
                ExtTargetKind::Lib => TargetKind::Library,
            },
            name: self.name.clone(),
            src_path: self.src_path.clone(),
            edition: Edition::Edition2021,
        }
    }
}

/// Every way a lookup or a protocol exchange can fail.  Discovery errors do
/// not appear here: discovery is best-effort and silently omits what it
/// cannot read.
#[derive(Debug, Clone, PartialEq)]
pub enum InvokeError {
    /// The requested identifier is not registered; `suggestion` holds the
    /// closest registered identifier when one is close enough.
    UnknownPlugin { requested: String, suggestion: Option<String> },
    /// The plugin executable could not be spawned.
    LaunchFailure { path: String },
    /// The plugin's output was not a well-formed target response.
    ProtocolError { path: String },
    /// The plugin exited with a non-zero code; this overrides even a
    /// well-formed success body.
    ExecutionFailure { path: String, exit_code: i32 },
    /// The plugin answered with its in-band failure message.
    InBandFailure { message: String },
}

/// Mathematical value of an [`InvokeError`].
pub enum InvokeErrorV {
    UnknownPlugin { requested: Seq<char>, suggestion: Option<Seq<char>> },
    LaunchFailure { path: Seq<char> },
    ProtocolError { path: Seq<char> },
    ExecutionFailure { path: Seq<char>, exit_code: i32 },
    InBandFailure { message: Seq<char> },
}

impl View for InvokeError {
    type V = InvokeErrorV;

    open spec fn view(&self) -> InvokeErrorV {
        match self {
            InvokeError::UnknownPlugin { requested, suggestion } => InvokeErrorV::UnknownPlugin {
                requested: requested@,
                suggestion: match suggestion {
                    Some(s) => Some(s@),
                    None => None,
                },
            },
            InvokeError::LaunchFailure { path } => InvokeErrorV::LaunchFailure { path: path@ },
            InvokeError::ProtocolError { path } => InvokeErrorV::ProtocolError { path: path@ },
            InvokeError::ExecutionFailure { path, exit_code } => InvokeErrorV::ExecutionFailure {
                path: path@,
                exit_code: *exit_code,
            },
            InvokeError::InBandFailure { message } => InvokeErrorV::InBandFailure {
                message: message@,
            },
        }
    }
}

/// What the embedding program observed of one protocol exchange: either the
/// child process could not be spawned at all, or it ran to exit with the
/// given captured standard output and exit code.
#[derive(Debug, Clone, PartialEq)]
pub enum ExchangeOutcome {
    LaunchFailed,
    Exited { stdout: String, exit_code: i32 },
}

/// Mathematical value of an [`ExchangeOutcome`].
pub enum ExchangeOutcomeV {
    LaunchFailed,
    Exited { stdout: Seq<char>, exit_code: i32 },
}

impl View for ExchangeOutcome {
    type V = ExchangeOutcomeV;

    open spec fn view(&self) -> ExchangeOutcomeV {
        match self {
            ExchangeOutcome::LaunchFailed => ExchangeOutcomeV::LaunchFailed,
            ExchangeOutcome::Exited { stdout, exit_code } => ExchangeOutcomeV::Exited {
                stdout: stdout@,
                exit_code: *exit_code,
            },
        }
    }
}

/// One artifact file path a plugin produced for a build unit.
#[derive(Debug, Clone, PartialEq)]
pub struct OutputFile {
    pub path: String,
}

/// Mathematical value of an [`OutputFile`].
pub struct OutputFileV {
    pub path: Seq<char>,
}

impl View for OutputFile {
    type V = OutputFileV;

    open spec fn view(&self) -> OutputFileV {
        OutputFileV { path: self.path@ }
    }
}

/// One unit of a finished plugin build, as the host's build layer records it:
/// the package it belonged to and the artifact paths the plugin reported
/// having produced.
#[derive(Debug, Clone, PartialEq)]
pub struct Unit {
    pub package_name: String,
    pub artifacts: Vec<OutputFile>,
}

/// Mathematical value of a [`Unit`].
pub struct UnitV {
    pub package_name: Seq<char>,
    pub artifacts: Seq<OutputFileV>,
}

impl View for Unit {
    type V = UnitV;

    open spec fn view(&self) -> UnitV {
        UnitV {
            package_name: self.package_name@,
            artifacts: self.artifacts@.map_values(|a: OutputFile| a@),
        }
    }
}

} // verus!
