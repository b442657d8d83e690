use vstd::prelude::*;

use crate::error::SceneError;

verus! {

/// The camera builder's eager validation, decided from what the
/// configuration provides: at least one of the two anchor points must be
/// given, and the vector between them must not be near zero, or no view
/// direction could be derived. The caller tests the anchors' distance and
/// reports it here; validation fails exactly on the two degenerate
/// configurations, the missing anchors taking precedence.
pub fn validate_camera(has_look_from: bool, has_look_at: bool, look_vector_near_zero: bool) -> (r:
    Result<(), SceneError>)
    ensures
        !has_look_from && !has_look_at ==> r == Err::<(), SceneError>(
            SceneError::MissingCameraAnchor,
        ),
        (has_look_from || has_look_at) && look_vector_near_zero ==> r == Err::<(), SceneError>(
            SceneError::DegenerateCamera,
        ),
        (has_look_from || has_look_at) && !look_vector_near_zero ==> r == Ok::<(), SceneError>(()),
{
    if !has_look_from && !has_look_at {
        Err(SceneError::MissingCameraAnchor)
    } else if look_vector_near_zero {
        Err(SceneError::DegenerateCamera)
    } else {
        Ok(())
    }
}

} // verus!
