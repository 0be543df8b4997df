//! Planning of one copy invocation: classify both raw arguments, validate
//! the direction, and, for an upload, resolve the destination object name.
//! The result is a [`TransferPlan`], an ephemeral value holding everything
//! the transfer executor needs; no file or network is touched here.

use vstd::prelude::*;

use crate::direction::{validate, Direction};
use crate::errors::{CpError, DirectionError, NameError, ParseError};
use crate::locator::{
    authority_of, classify, has_remote_scheme, object_part_of, valid_bucket, valid_object,
    DataPath, GsUrl,
};
use crate::naming::{resolve_object_name, spec_file_name, spec_resolved};

verus! {

/// The mathematical reading of a classified path: a remote locator is a
/// bucket and an optional object name, a local path is its text.
pub enum LocatorModel {
    Remote { bucket: Seq<char>, object: Option<Seq<char>> },
    Local { path: Seq<char> },
}

impl DataPath {
    /// The model of this path.
    pub open spec fn model(&self) -> LocatorModel {
        match self {
            DataPath::Gs(g) => LocatorModel::Remote {
                bucket: g.bucket@,
                object: g.object_view(),
            },
            DataPath::File(p) => LocatorModel::Local { path: p@ },
        }
    }
}

/// What classification yields for a raw string, at the level of models:
/// the value that [`classify`] returns, with its strings read as sequences.
pub open spec fn spec_classify(raw: Seq<char>) -> Result<LocatorModel, ParseError> {
    if !has_remote_scheme(raw) {
        Ok(LocatorModel::Local { path: raw })
    } else {
        let a = authority_of(raw);
        if a.len() == 0 {
            Err(ParseError::InvalidUrl)
        } else if !valid_bucket(a) {
            Err(ParseError::InvalidLocator)
        } else {
            match object_part_of(raw) {
                Some(o) => if valid_object(o) {
                    Ok(LocatorModel::Remote { bucket: a, object: Some(o) })
                } else {
                    Err(ParseError::InvalidLocator)
                },
                None => Ok(LocatorModel::Remote { bucket: a, object: None }),
            }
        }
    }
}

/// The model of a classification result.
pub open spec fn model_of(r: Result<DataPath, ParseError>) -> Result<LocatorModel, ParseError> {
    match r {
        Ok(dp) => Ok(dp.model()),
        Err(e) => Err(e),
    }
}

/// What [`classify`] promises, read at the level of models.
pub proof fn lemma_classified_model(raw: Seq<char>, r: Result<DataPath, ParseError>)
    requires
        crate::locator::classified(raw, r),
    ensures
        model_of(r) == spec_classify(raw),
{
}

/// Every string that does not begin with the remote scheme classifies as a
/// local path wrapping the string unchanged.
pub proof fn lemma_classify_local(raw: Seq<char>)
    requires
        !has_remote_scheme(raw),
    ensures
        spec_classify(raw) == Ok::<LocatorModel, ParseError>(LocatorModel::Local { path: raw }),
{
}

/// Every string that begins with the remote scheme and carries a valid
/// bucket (and, when an object part is present, a valid object name)
/// classifies as a remote locator with exactly that bucket.
pub proof fn lemma_classify_remote_bucket(raw: Seq<char>)
    requires
        has_remote_scheme(raw),
        valid_bucket(authority_of(raw)),
        object_part_of(raw) matches Some(o) ==> valid_object(o),
    ensures
        spec_classify(raw) matches Ok(m) && m matches LocatorModel::Remote { bucket, object }
            && bucket == authority_of(raw) && object == object_part_of(raw),
{
}

/// Everything one transfer needs, resolved before any file or network is
/// touched. Built per invocation and discarded afterwards.
pub enum TransferPlan {
    /// Copy the local file at `src_path` to `object_name` in `bucket`.
    Upload { src_path: String, bucket: String, object_name: String },
    /// Copy the remote object `object_name` of `bucket` into the local file
    /// at `dst_path`.
    Download { bucket: String, object_name: String, dst_path: String },
}

/// What [`plan`] returns for a pair of raw arguments: the errors of
/// classification, direction validation and name resolution in that order,
/// or the fully resolved plan.
pub open spec fn planned(src: Seq<char>, dst: Seq<char>, r: Result<TransferPlan, CpError>) -> bool {
    match (spec_classify(src), spec_classify(dst)) {
        (Err(e), _) => r == Err::<TransferPlan, CpError>(CpError::Parse(e)),
        (Ok(_), Err(e)) => r == Err::<TransferPlan, CpError>(CpError::Parse(e)),
        (Ok(LocatorModel::Local { .. }), Ok(LocatorModel::Local { .. })) => r == Err::<
            TransferPlan,
            CpError,
        >(CpError::Direction(DirectionError::BothLocal)),
        (Ok(LocatorModel::Remote { .. }), Ok(LocatorModel::Remote { .. })) => r == Err::<
            TransferPlan,
            CpError,
        >(CpError::Direction(DirectionError::BothRemote)),
        (
            Ok(LocatorModel::Local { path }),
            Ok(LocatorModel::Remote { bucket, object }),
        ) => match spec_file_name(path) {
            None => r == Err::<TransferPlan, CpError>(
                CpError::Name(NameError::UnrepresentableFileName),
            ),
            Some(f) => r matches Ok(
                TransferPlan::Upload { src_path, bucket: b, object_name },
            ) && src_path@ == path && b@ == bucket && object_name@ == spec_resolved(object, f),
        },
        (Ok(LocatorModel::Remote { bucket, object }), Ok(LocatorModel::Local { path })) => match
        object {
            None => r == Err::<TransferPlan, CpError>(CpError::MissingObjectName),
            Some(o) => r matches Ok(
                TransferPlan::Download { bucket: b, object_name, dst_path },
            ) && b@ == bucket && object_name@ == o && dst_path@ == path,
        },
    }
}

/// Plans one copy: classifies the two raw arguments, validates that exactly
/// one side is local, and resolves the upload object name or requires a full
/// download object name. Pure: no file is opened, no request is issued.
pub fn plan(src_url: String, dst_url: String) -> (r: Result<TransferPlan, CpError>)
    ensures
        planned(src_url@, dst_url@, r),
{
    let ghost src_seq = src_url@;
    let ghost dst_seq = dst_url@;
    let src = match classify(src_url) {
        Ok(p) => p,
        Err(e) => {
            proof {
                lemma_classified_model(src_seq, Err(e));
            }
            return Err(CpError::Parse(e));
        },
    };
    proof {
        lemma_classified_model(src_seq, Ok(src));
    }
    let dst = match classify(dst_url) {
        Ok(p) => p,
        Err(e) => {
            proof {
                lemma_classified_model(dst_seq, Err(e));
            }
            return Err(CpError::Parse(e));
        },
    };
    proof {
        lemma_classified_model(dst_seq, Ok(dst));
    }
    let dir = match validate(&src, &dst) {
        Ok(d) => d,
        Err(e) => {
            return Err(CpError::Direction(e));
        },
    };
    match (src, dst, dir) {
        (DataPath::File(src_path), DataPath::Gs(g), Direction::Upload) => {
            let object_name = match resolve_object_name(&g, src_path.as_str()) {
                Ok(n) => n,
                Err(e) => {
                    return Err(CpError::Name(e));
                },
            };
            Ok(TransferPlan::Upload { src_path, bucket: g.bucket, object_name })
        },
        (DataPath::Gs(g), DataPath::File(dst_path), Direction::Download) => {
            let object_name = match g.object {
                Some(o) => o,
                None => {
                    return Err(CpError::MissingObjectName);
                },
            };
            Ok(TransferPlan::Download { bucket: g.bucket, object_name, dst_path })
        },
        _ => {
            proof {
                assert(false);
            }
            Err(CpError::MissingObjectName)
        },
    }
}

} // verus!
