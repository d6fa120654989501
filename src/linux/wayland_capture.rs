use vstd::prelude::*;

verus! {

/// Reply to a screenshot portal request: where the image was saved.
#[derive(Debug)]
pub struct ScreenshotResponse {
    uri: String,
}

impl ScreenshotResponse {
    pub fn new(uri: String) -> (r: ScreenshotResponse)
        ensures
            r.spec_uri() == uri@,
    {
        ScreenshotResponse { uri }
    }

    pub closed spec fn spec_uri(&self) -> Seq<char> {
        self.uri@
    }

    /// The URI of the saved image.
    pub fn uri(&self) -> (r: &str)
        ensures
            r@ == self.spec_uri(),
    {
        self.uri.as_str()
    }
}

} // verus!
