//! The option set: a closed, validated configuration that fully determines
//! which optional blocks of a document are assembled.
//!
//! An `OptionSet` is immutable once constructed; `new` is its only
//! constructor and rejects unsupported combinations, so the assembler never
//! sees one.

use vstd::prelude::*;

use crate::errors::Error;

verus! {

/// The runtime flavor a document is generated for.
#[derive(Clone, Copy, Debug, PartialEq, Eq, Structural)]
pub enum Runtime {
    /// Ahead-of-time native compilation.
    NativeAot,
    /// A managed runtime shipped with the output.
    ManagedRuntime,
}

/// The mathematical model of an `OptionSet`.
pub ghost struct OptionModel {
    pub runtime: Runtime,
    pub aot: bool,
    pub clean_targets: bool,
}

/// Whether a combination of runtime and flags is supported: the
/// ahead-of-time flag is meaningful only to the native-AOT runtime.
pub open spec fn supported(runtime: Runtime, aot: bool, clean_targets: bool) -> bool {
    !(runtime is ManagedRuntime && aot)
}

/// A validated, immutable set of generation options.
#[derive(Debug)]
pub struct OptionSet {
    runtime: Runtime,
    aot: bool,
    clean_targets: bool,
}

impl View for OptionSet {
    type V = OptionModel;

    closed spec fn view(&self) -> OptionModel {
        OptionModel { runtime: self.runtime, aot: self.aot, clean_targets: self.clean_targets }
    }
}

impl OptionSet {
    /// Constructs a validated option set. Fails with
    /// `UnsupportedCombination`, naming the offending flag, exactly when the
    /// ahead-of-time flag is combined with the managed runtime; any change
    /// to a finished option set requires constructing a new one.
    pub fn new(runtime: Runtime, aot: bool, clean_targets: bool) -> (r: Result<OptionSet, Error>)
        ensures
            r matches Ok(o) ==> o@ == (OptionModel { runtime, aot, clean_targets }),
            r matches Err(e) ==> (e matches Error::UnsupportedCombination { flag }
                && flag@ == "aot"@),
            r is Ok <==> supported(runtime, aot, clean_targets),
    {
        match runtime {
            Runtime::ManagedRuntime if aot => Err(
                Error::UnsupportedCombination { flag: String::from_str("aot") },
            ),
            _ => Ok(OptionSet { runtime, aot, clean_targets }),
        }
    }

    /// The runtime flavor this option set was built for.
    pub fn runtime(&self) -> (r: Runtime)
        ensures
            r == self@.runtime,
    {
        self.runtime
    }

    /// Whether ahead-of-time compilation is enabled.
    pub fn aot(&self) -> (r: bool)
        ensures
            r == self@.aot,
    {
        self.aot
    }

    /// Whether the cleanup block is requested.
    pub fn clean_targets(&self) -> (r: bool)
        ensures
            r == self@.clean_targets,
    {
        self.clean_targets
    }
}

} // verus!
