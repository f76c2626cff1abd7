//! The project-facing builders: one per runtime flavor, each carrying a
//! target directory, a component name, a world name and the two optional
//! flags, and producing the artifact batch of its document set.
//!
//! The builders hold raw, unvalidated inputs; `artifacts` validates them —
//! options first, then names — and assembles. Writing the batch to disk is
//! the caller's step, driven by the emitter.

use vstd::prelude::*;

use crate::artifact::OutputArtifact;
use crate::assemble::{assemble, spec_artifacts};
use crate::errors::Error;
use crate::ident::normalizable;
use crate::options::{OptionModel, OptionSet, Runtime};
use crate::target::{target_model, BuildTarget};

verus! {

/// Entry point: constructs the builder of either runtime flavor.
pub struct CSProject;

/// A builder for the native-AOT flavor of the document set.
pub struct CSProjectLLVMBuilder {
    pub name: String,
    pub dir: String,
    pub aot: bool,
    pub clean_targets: bool,
    pub world_name: String,
}

/// A builder for the managed-runtime flavor of the document set.
pub struct CSProjectMonoBuilder {
    pub name: String,
    pub dir: String,
    pub aot: bool,
    pub clean_targets: bool,
    pub world_name: String,
}

impl CSProject {
    /// A native-AOT builder for the given directory, component name and
    /// world name, with both flags off.
    pub fn new(dir: String, name: &str, world_name: &str) -> (b: CSProjectLLVMBuilder)
        ensures
            b.name@ == name@,
            b.dir@ == dir@,
            b.world_name@ == world_name@,
            !b.aot,
            !b.clean_targets,
    {
        CSProjectLLVMBuilder {
            name: name.to_owned(),
            dir,
            aot: false,
            clean_targets: false,
            world_name: world_name.to_owned(),
        }
    }

    /// A managed-runtime builder for the given directory, component name
    /// and world name, with both flags off.
    pub fn new_mono(dir: String, name: &str, world_name: &str) -> (b: CSProjectMonoBuilder)
        ensures
            b.name@ == name@,
            b.dir@ == dir@,
            b.world_name@ == world_name@,
            !b.aot,
            !b.clean_targets,
    {
        CSProjectMonoBuilder {
            name: name.to_owned(),
            dir,
            aot: false,
            clean_targets: false,
            world_name: world_name.to_owned(),
        }
    }
}

impl CSProjectLLVMBuilder {
    /// Requests ahead-of-time compilation; everything else is kept.
    pub fn aot(&mut self)
        ensures
            *final(self) == (CSProjectLLVMBuilder { aot: true, ..*old(self) }),
    {
        self.aot = true;
    }

    /// Requests the cleanup block; everything else is kept.
    pub fn clean(&mut self) -> (r: &mut Self)
        ensures
            *r == (CSProjectLLVMBuilder { clean_targets: true, ..*old(self) }),
            *final(self) == *final(r),
    {
        self.clean_targets = true;
        self
    }

    /// The artifact batch of this builder: validates the names, then
    /// assembles the native-AOT document set. Fails with
    /// `InvalidIdentifier` exactly when a name cannot be normalized.
    pub fn artifacts(&self) -> (r: Result<Vec<OutputArtifact>, Error>)
        ensures
            r matches Ok(arts) ==> normalizable(self.name@) && normalizable(self.world_name@)
                && arts@.map_values(|a: OutputArtifact| a@) == spec_artifacts(
                target_model(self.dir@, self.name@, self.world_name@),
                OptionModel {
                    runtime: Runtime::NativeAot,
                    aot: self.aot,
                    clean_targets: self.clean_targets,
                },
            ),
            r matches Err(e) ==> (e matches Error::InvalidIdentifier { name: off } && off@ == (
            if !normalizable(self.name@) {
                self.name@
            } else {
                self.world_name@
            })),
            r is Ok <==> normalizable(self.name@) && normalizable(self.world_name@),
    {
        let options = match OptionSet::new(Runtime::NativeAot, self.aot, self.clean_targets) {
            Ok(o) => o,
            Err(e) => {
                return Err(e);
            },
        };
        let target = match BuildTarget::new(
            self.dir.as_str(),
            self.name.as_str(),
            self.world_name.as_str(),
        ) {
            Ok(t) => t,
            Err(e) => {
                return Err(e);
            },
        };
        Ok(assemble(&target, &options))
    }
}

impl CSProjectMonoBuilder {
    /// Requests ahead-of-time compilation; everything else is kept. The
    /// flag is not supported by this flavor, and `artifacts` rejects it.
    pub fn aot(&mut self)
        ensures
            *final(self) == (CSProjectMonoBuilder { aot: true, ..*old(self) }),
    {
        self.aot = true;
    }

    /// Requests the cleanup block; everything else is kept.
    pub fn clean(&mut self) -> (r: &mut Self)
        ensures
            *r == (CSProjectMonoBuilder { clean_targets: true, ..*old(self) }),
            *final(self) == *final(r),
    {
        self.clean_targets = true;
        self
    }

    /// The artifact batch of this builder: validates the options — the
    /// ahead-of-time flag is meaningful only to the native-AOT flavor —
    /// then the names, then assembles the managed-runtime document set.
    pub fn artifacts(&self) -> (r: Result<Vec<OutputArtifact>, Error>)
        ensures
            r matches Ok(arts) ==> !self.aot && normalizable(self.name@) && normalizable(
                self.world_name@,
            ) && arts@.map_values(|a: OutputArtifact| a@) == spec_artifacts(
                target_model(self.dir@, self.name@, self.world_name@),
                OptionModel {
                    runtime: Runtime::ManagedRuntime,
                    aot: false,
                    clean_targets: self.clean_targets,
                },
            ),
            r matches Err(e) ==> (if self.aot {
                e matches Error::UnsupportedCombination { flag } && flag@ == "aot"@
            } else {
                e matches Error::InvalidIdentifier { name: off } && off@ == (
                if !normalizable(self.name@) {
                    self.name@
                } else {
                    self.world_name@
                })
            }),
            r is Ok <==> !self.aot && normalizable(self.name@) && normalizable(self.world_name@),
    {
        let options = match OptionSet::new(Runtime::ManagedRuntime, self.aot, self.clean_targets) {
            Ok(o) => o,
            Err(e) => {
                return Err(e);
            },
        };
        let target = match BuildTarget::new(
            self.dir.as_str(),
            self.name.as_str(),
            self.world_name.as_str(),
        ) {
            Ok(t) => t,
            Err(e) => {
                return Err(e);
            },
        };
        Ok(assemble(&target, &options))
    }
}

} // verus!
