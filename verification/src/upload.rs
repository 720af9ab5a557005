//! The reconstruction upload: which parts are sent, and what the answer
//! means.
//!
//! The extracted frame images are posted to the local reconstruction
//! service as one multipart request: every file becomes a part under the
//! shared field name `images`, keeping its file name, typed `image/jpeg`.
//! A run that finds no frame files at all is refused before any request is
//! built.  On a success status the raw response body is the reconstructed
//! asset; on any other status the body is kept as the error's diagnostics.

use vstd::prelude::*;

use crate::errors::PipelineError;

verus! {

/// The fixed local endpoint the multipart upload is posted to.
pub fn reconstruction_url() -> (r: String)
    ensures
        r@ == "http://localhost:8888/reconstruction"@,
{
    "http://localhost:8888/reconstruction".to_owned()
}

/// One part of the multipart upload: the shared field name, the file name
/// the part keeps, and its content type.
pub struct UploadPart {
    pub field: String,
    pub file_name: String,
    pub content_type: String,
}

/// Lays out the multipart upload for the given frame file names, in order:
/// one part per file under the shared `images` field with the `image/jpeg`
/// content type — or refuses the upload outright when there are no files,
/// rather than sending an empty request.
pub fn plan_upload(files: &Vec<String>) -> (r: Result<Vec<UploadPart>, PipelineError>)
    ensures
        match r {
            Ok(parts) => {
                &&& files@.len() > 0
                &&& parts@.len() == files@.len()
                &&& forall|i: int|
                    #![trigger parts@[i]]
                    0 <= i < parts@.len() ==> {
                        &&& parts@[i].field@ == "images"@
                        &&& parts@[i].file_name@ == files@[i]@
                        &&& parts@[i].content_type@ == "image/jpeg"@
                    }
            },
            Err(e) => files@.len() == 0 && e == PipelineError::NoInput,
        },
{
    if files.len() == 0 {
        return Err(PipelineError::NoInput);
    }
    let mut parts: Vec<UploadPart> = Vec::new();
    let mut i: usize = 0;
    while i < files.len()
        invariant
            0 <= i <= files@.len(),
            parts@.len() == i,
            forall|j: int|
                #![trigger parts@[j]]
                0 <= j < i ==> {
                    &&& parts@[j].field@ == "images"@
                    &&& parts@[j].file_name@ == files@[j]@
                    &&& parts@[j].content_type@ == "image/jpeg"@
                },
        decreases files@.len() - i,
    {
        let mut file_name = String::new();
        file_name.push_str(files[i].as_str());
        parts.push(
            UploadPart {
                field: "images".to_owned(),
                file_name,
                content_type: "image/jpeg".to_owned(),
            },
        );
        i += 1;
    }
    Ok(parts)
}

/// Interprets the reconstruction service's answer: a success status hands
/// the raw body through unchanged as the reconstructed asset, and any other
/// status fails, keeping the body as diagnostics.
pub fn reconstruction_outcome(http_success: bool, body: Vec<u8>) -> (r: Result<
    Vec<u8>,
    PipelineError,
>)
    ensures
        match r {
            Ok(asset) => http_success && asset == body,
            Err(e) => !http_success && e == PipelineError::Remote(body),
        },
{
    if http_success {
        Ok(body)
    } else {
        Err(PipelineError::Remote(body))
    }
}

} // verus!
