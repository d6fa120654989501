use vstd::prelude::*;

verus! {

/// Errors reported by the capture engine.
#[derive(Debug, Clone)]
pub enum XCapError {
    NotSupported,
    Error(String),
    StdSyncPoisonError(String),
    InvalidCaptureRegion(String),
}

pub type XCapResult<T> = Result<T, XCapError>;

impl XCapError {
    /// A general error carrying a message.
    pub fn new(err: &str) -> (r: XCapError)
        ensures
            r matches XCapError::Error(m) && m@ == err@,
    {
        XCapError::Error(err.to_string())
    }

    /// The message of the error, as it would be displayed.
    pub fn message(&self) -> (r: String)
        ensures
            r@ == match self {
                XCapError::NotSupported => "Not supported"@,
                XCapError::Error(m) => m@,
                XCapError::StdSyncPoisonError(m) => "StdSyncPoisonError "@ + m@,
                XCapError::InvalidCaptureRegion(m) => "Invalid capture region: "@ + m@,
            },
    {
        match self {
            XCapError::NotSupported => "Not supported".to_string(),
            XCapError::Error(m) => m.clone(),
            XCapError::StdSyncPoisonError(m) => {
                let mut s = "StdSyncPoisonError ".to_string();
                s.append(m.as_str());
                s
            },
            XCapError::InvalidCaptureRegion(m) => {
                let mut s = "Invalid capture region: ".to_string();
                s.append(m.as_str());
                s
            },
        }
    }
}

} // verus!
