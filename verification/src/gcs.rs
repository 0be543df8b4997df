//! Building the remote store's requests. The upload is a single multipart
//! insert carrying the object name as its only metadata; the download is a
//! streamed read of one object. Both are built here as plain HTTP request
//! values by the `tame_gcs` crate; sending them, and reading the responses,
//! is the caller's job, so nothing here touches a file or the network.

use vstd::prelude::*;

use crate::errors::CpError;
use crate::locator::{valid_bucket, valid_object};

verus! {

#[verifier::external_type_specification]
#[verifier::external_body]
#[verifier::reject_recursive_types(T)]
pub struct ExHttpRequest<T>(http::Request<T>);

#[verifier::external_type_specification]
#[verifier::external_body]
pub struct ExIoEmpty(std::io::Empty);

#[verifier::external_type_specification]
#[verifier::external_body]
#[verifier::reject_recursive_types(T)]
pub struct ExIoCursor<T>(std::io::Cursor<T>);

#[verifier::external_type_specification]
#[verifier::external_body]
#[verifier::reject_recursive_types(B)]
pub struct ExMultipart<B>(tame_gcs::objects::Multipart<B>);

#[verifier::external_type_specification]
#[verifier::external_body]
pub struct ExGcsError(tame_gcs::Error);

/// Relies on the `Display` impl of `tame_gcs::Error`: renders the error as
/// text so it can be carried in an error of this crate. Every display arm of
/// that error prints a non-empty message, so the text is never empty.
#[verifier::external_body]
fn gcs_error_text(e: &tame_gcs::Error) -> (r: String)
    ensures
        r@.len() > 0,
{
    format!("{}", e)
}

/// Relies on `tame_gcs::objects::Object::download`, with the name validation
/// of `tame_gcs::BucketName::try_from` and `tame_gcs::ObjectName::try_from`:
/// builds the GET request for one object against the standard remote
/// authority. The result is `Ok` exactly when both names conform: either
/// `try_from` rejects a non-conforming name, and on conforming names the
/// builder cannot fail — the default query options always serialize, the
/// names are percent-encoded into bytes the request parser accepts, and the
/// one header is a constant.
#[verifier::external_body]
fn gcs_build_download(bucket: &str, object: &str) -> (r: Result<
    http::Request<std::io::Empty>,
    tame_gcs::Error,
>)
    ensures
        valid_bucket(bucket@) && valid_object(object@) ==> r is Ok,
        !(valid_bucket(bucket@) && valid_object(object@)) ==> r is Err,
{
    let bucket = tame_gcs::BucketName::try_from(bucket)?;
    let object = tame_gcs::ObjectName::try_from(object)?;
    tame_gcs::objects::Object::default().download(&(&bucket, &object), None)
}

/// Relies on `tame_gcs::objects::Object::insert_multipart`, with the name
/// validation of `tame_gcs::BucketName::try_from`: builds the multipart
/// insert request whose metadata holds only the object name and whose body
/// carries `content` with its exact length. The result is `Ok` exactly when
/// both names conform: the bucket is validated here and the object name by
/// `insert_multipart` itself, and on conforming names the builder cannot
/// fail — the metadata (one string field) always serializes, only the
/// validated bucket enters the URI, and the two headers are a constant and
/// an integer.
#[verifier::external_body]
fn gcs_build_insert(bucket: &str, object_name: &str, content: Vec<u8>) -> (r: Result<
    http::Request<tame_gcs::objects::Multipart<std::io::Cursor<Vec<u8>>>>,
    tame_gcs::Error,
>)
    ensures
        valid_bucket(bucket@) && valid_object(object_name@) ==> r is Ok,
        !(valid_bucket(bucket@) && valid_object(object_name@)) ==> r is Err,
{
    let bucket = tame_gcs::BucketName::try_from(bucket)?;
    let len = content.len() as u64;
    let metadata = tame_gcs::objects::Metadata {
        name: Some(object_name.to_owned()),
        ..Default::default()
    };
    tame_gcs::objects::Object::default().insert_multipart(
        &bucket,
        std::io::Cursor::new(content),
        len,
        &metadata,
        None,
    )
}

/// Builds the download request for one remote object: the request is built
/// exactly when both names conform to the remote store's rules, and whatever
/// the remote builder rejects is surfaced as a `RequestBuild` error carrying
/// the builder's text.
pub fn prepare_download(bucket: &str, object: &str) -> (r: Result<
    http::Request<std::io::Empty>,
    CpError,
>)
    ensures
        r is Ok <==> valid_bucket(bucket@) && valid_object(object@),
        r matches Err(e) ==> e matches CpError::RequestBuild(t) && t@.len() > 0,
{
    match gcs_build_download(bucket, object) {
        Ok(req) => Ok(req),
        Err(e) => Err(CpError::RequestBuild(gcs_error_text(&e))),
    }
}

/// Builds the multipart insert request that uploads `content` as the object
/// `object_name` of `bucket`: the request is built exactly when both names
/// conform to the remote store's rules, and whatever the remote builder
/// rejects is surfaced as a `RequestBuild` error carrying the builder's
/// text.
pub fn prepare_upload(bucket: &str, object_name: &str, content: Vec<u8>) -> (r: Result<
    http::Request<tame_gcs::objects::Multipart<std::io::Cursor<Vec<u8>>>>,
    CpError,
>)
    ensures
        r is Ok <==> valid_bucket(bucket@) && valid_object(object_name@),
        r matches Err(e) ==> e matches CpError::RequestBuild(t) && t@.len() > 0,
{
    match gcs_build_insert(bucket, object_name, content) {
        Ok(req) => Ok(req),
        Err(e) => Err(CpError::RequestBuild(gcs_error_text(&e))),
    }
}

} // verus!
