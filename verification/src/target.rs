//! The build target: the validated, normalized inputs of one generation
//! call — an output directory, a component name and a world name, the two
//! names already normalized.

use vstd::prelude::*;

use crate::errors::Error;
use crate::ident::{normalize, normalizable, spec_normalized, Identifier, IdentifierModel};

verus! {

/// The mathematical model of a `BuildTarget`.
pub ghost struct TargetModel {
    pub dir: Seq<char>,
    pub name: IdentifierModel,
    pub world: IdentifierModel,
}

impl TargetModel {
    /// Well-formedness: both names kept at least one character through
    /// normalization.
    pub open spec fn wf(self) -> bool {
        self.name.camel.len() > 0 && self.world.camel.len() > 0
    }
}

/// A validated target for one generation call. Immutable once constructed;
/// `new` is its only constructor and establishes `wf` on the model.
#[derive(Debug)]
pub struct BuildTarget {
    /// The output directory the artifacts are destined for.
    pub dir: String,
    /// The normalized component name.
    pub name: Identifier,
    /// The normalized world name.
    pub world: Identifier,
}

impl View for BuildTarget {
    type V = TargetModel;

    open spec fn view(&self) -> TargetModel {
        TargetModel { dir: self.dir@, name: self.name@, world: self.world@ }
    }
}

/// The model `BuildTarget::new` yields for given raw inputs.
pub open spec fn target_model(dir: Seq<char>, name: Seq<char>, world: Seq<char>) -> TargetModel {
    TargetModel { dir, name: spec_normalized(name), world: spec_normalized(world) }
}

impl BuildTarget {
    /// Constructs a validated target. Fails with `InvalidIdentifier`,
    /// naming the offending input, exactly when the component name or the
    /// world name cannot be normalized; the component name is checked
    /// first.
    pub fn new(dir: &str, name: &str, world_name: &str) -> (r: Result<BuildTarget, Error>)
        ensures
            r matches Ok(t) ==> t@ == target_model(dir@, name@, world_name@) && t@.wf(),
            r matches Err(e) ==> (e matches Error::InvalidIdentifier { name: off } && off@ == (
            if !normalizable(name@) {
                name@
            } else {
                world_name@
            })),
            r is Ok <==> normalizable(name@) && normalizable(world_name@),
    {
        let name_id = match normalize(name) {
            Ok(id) => id,
            Err(e) => {
                return Err(e);
            },
        };
        let world_id = match normalize(world_name) {
            Ok(id) => id,
            Err(e) => {
                return Err(e);
            },
        };
        Ok(BuildTarget { dir: dir.to_owned(), name: name_id, world: world_id })
    }
}

/// A directory path joined with a file name: a single separator stands
/// between them unless the directory is empty or already ends in one.
pub open spec fn joined(dir: Seq<char>, file: Seq<char>) -> Seq<char> {
    if dir.len() == 0 {
        file
    } else if dir[dir.len() - 1] == '/' {
        dir + file
    } else {
        dir + "/"@ + file
    }
}

/// Joins a directory path and a file name.
pub fn join_path(dir: &str, file: &str) -> (r: String)
    ensures
        r@ == joined(dir@, file@),
{
    if dir.is_empty() {
        return file.to_owned();
    }
    let mut out = dir.to_owned();
    let last = dir.get_char(dir.unicode_len() - 1);
    if last != '/' {
        out.append("/");
    }
    out.append(file);
    out
}

/// The path of the output binary that a cleanup block removes: the
/// normalized component name with the binary extension, under the output
/// directory.
pub open spec fn wasm_path(t: TargetModel) -> Seq<char> {
    joined(t.dir, t.name.camel + ".wasm"@)
}

/// Builds the output-binary path of a target.
pub fn wasm_file(t: &BuildTarget) -> (r: String)
    ensures
        r@ == wasm_path(t@),
{
    let mut file = t.name.camel.clone();
    file.append(".wasm");
    join_path(t.dir.as_str(), file.as_str())
}

} // verus!
