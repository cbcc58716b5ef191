use vstd::prelude::*;

verus! {

/// Uniform outcome of a file or settings operation.
pub struct FileResult {
    pub success: bool,
    pub data: Option<String>,
    pub error: Option<String>,
}

impl FileResult {
    /// Success holds exactly when no error is carried, and a failure carries no payload.
    pub open spec fn wf(&self) -> bool {
        &&& self.success == self.error.is_none()
        &&& !self.success ==> self.data.is_none()
    }

    /// A success that carries `data` as its payload.
    pub fn succeeded(data: String) -> (r: FileResult)
        ensures
            r.wf(),
            r.success,
            r.data == Some(data),
            r.error.is_none(),
    {
        FileResult { success: true, data: Some(data), error: None }
    }

    /// A success without payload.
    pub fn succeeded_empty() -> (r: FileResult)
        ensures
            r.wf(),
            r.success,
            r.data.is_none(),
            r.error.is_none(),
    {
        FileResult { success: true, data: None, error: None }
    }

    /// A failure that carries `message` as its error.
    pub fn failed(message: String) -> (r: FileResult)
        ensures
            r.wf(),
            !r.success,
            r.data.is_none(),
            r.error == Some(message),
    {
        FileResult { success: false, data: None, error: Some(message) }
    }
}

/// Envelope of a read: the text read on success, the failure's message otherwise.
pub fn read_outcome(read: Result<String, String>) -> (r: FileResult)
    ensures
        r.wf(),
        match read {
            Ok(text) => r.success && r.data == Some(text) && r.error.is_none(),
            Err(message) => !r.success && r.data.is_none() && r.error == Some(message),
        },
{
    match read {
        Ok(text) => FileResult::succeeded(text),
        Err(message) => FileResult::failed(message),
    }
}

/// Envelope of a write or directory creation: no payload on success, the
/// failure's message otherwise.
pub fn write_outcome(written: Result<(), String>) -> (r: FileResult)
    ensures
        r.wf(),
        r.data.is_none(),
        match written {
            Ok(_) => r.success && r.error.is_none(),
            Err(message) => !r.success && r.error == Some(message),
        },
{
    match written {
        Ok(_) => FileResult::succeeded_empty(),
        Err(message) => FileResult::failed(message),
    }
}

} // verus!
