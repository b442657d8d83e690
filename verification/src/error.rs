use vstd::prelude::*;
use vstd::string::StringExecFns;

verus! {

/// A failure detected while a scene description is being built. Every
/// variant is fatal: the render never starts after one of these.
#[derive(Debug)]
pub enum SceneError {
    /// An object referred to a named material that was never registered.
    MaterialNotDefined { name: String },
    /// A value referred to a pattern variable that is not in scope.
    VariableNotFound { name: String },
    /// A pattern's range list did not hold one, two or three values, or its
    /// step was zero.
    MalformedPatternRange,
    /// The camera was given neither a point to look from nor one to look at.
    MissingCameraAnchor,
    /// The camera's two anchor points nearly coincide, so no view direction
    /// can be derived from them.
    DegenerateCamera,
}

impl SceneError {
    /// The diagnostic text of this error.
    pub open spec fn message_spec(&self) -> Seq<char> {
        match self {
            SceneError::MaterialNotDefined { name } => "Material "@ + name@ + " not defined"@,
            SceneError::VariableNotFound { name } => "Variable "@ + name@ + " not found"@,
            SceneError::MalformedPatternRange => "Unexpected format for range"@,
            SceneError::MissingCameraAnchor => "at least one of look_at or look_from are required"@,
            SceneError::DegenerateCamera => "look_at and look_from are too close together"@,
        }
    }

    /// Renders the diagnostic text shown to the user.
    pub fn message(&self) -> (r: String)
        ensures
            r@ == self.message_spec(),
    {
        match self {
            SceneError::MaterialNotDefined { name } => {
                let r = String::from_str("Material ").concat(name.as_str()).concat(" not defined");
                proof {
                    assert(r@ == self.message_spec());
                }
                r
            },
            SceneError::VariableNotFound { name } => {
                let r = String::from_str("Variable ").concat(name.as_str()).concat(" not found");
                proof {
                    assert(r@ == self.message_spec());
                }
                r
            },
            SceneError::MalformedPatternRange => String::from_str("Unexpected format for range"),
            SceneError::MissingCameraAnchor => String::from_str(
                "at least one of look_at or look_from are required",
            ),
            SceneError::DegenerateCamera => String::from_str(
                "look_at and look_from are too close together",
            ),
        }
    }
}

} // verus!
