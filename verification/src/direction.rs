//! Validation of the copy direction: exactly one side must be local and the
//! other remote. The two-variant locator type leaves only four pairings, and
//! the match below is exhaustive over them, so no combination can silently
//! fall through.

use vstd::prelude::*;

use crate::errors::DirectionError;
use crate::locator::DataPath;

verus! {

/// The two supported transfer directions.
#[derive(Debug, Clone, Copy, PartialEq, Eq, Structural)]
pub enum Direction {
    /// Local file to remote object.
    Upload,
    /// Remote object to local file.
    Download,
}

/// Confirms that exactly one of source and destination is local. Both local
/// fails with `BothLocal`, both remote with `BothRemote`; the two remaining
/// pairings give the two directions.
pub fn validate(src: &DataPath, dst: &DataPath) -> (r: Result<Direction, DirectionError>)
    ensures
        *src is File && *dst is File ==> r == Err::<Direction, DirectionError>(
            DirectionError::BothLocal,
        ),
        *src is Gs && *dst is Gs ==> r == Err::<Direction, DirectionError>(
            DirectionError::BothRemote,
        ),
        *src is File && *dst is Gs ==> r == Ok::<Direction, DirectionError>(Direction::Upload),
        *src is Gs && *dst is File ==> r == Ok::<Direction, DirectionError>(Direction::Download),
{
    match (src, dst) {
        (DataPath::File(_), DataPath::File(_)) => Err(DirectionError::BothLocal),
        (DataPath::Gs(_), DataPath::Gs(_)) => Err(DirectionError::BothRemote),
        (DataPath::File(_), DataPath::Gs(_)) => Ok(Direction::Upload),
        (DataPath::Gs(_), DataPath::File(_)) => Ok(Direction::Download),
    }
}

} // verus!
