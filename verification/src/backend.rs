//! The service's entry point: one request in, the first step of its operation
//! out.

use crate::operation::{expand, expand_begin, extract, extract_begin, Step, StepView};
use crate::request::{HkdfRequest, RequestView};
use vstd::prelude::*;

verus! {

/// Names the extension: [`HkdfRequest`] in, [`crate::request::HkdfReply`] out.
#[derive(Clone, Copy, Debug, Default, PartialEq, Eq)]
pub struct HkdfExtension;

/// Serves the extension. It keeps nothing between two calls: whatever outlasts
/// a call is in the keystore.
#[derive(Clone, Copy, Debug, Default, PartialEq, Eq)]
pub struct HkdfBackend;

/// The first step of a call: that of the operation which the request names.
pub open spec fn begin(request: RequestView) -> StepView {
    match request {
        RequestView::Extract(request) => extract_begin(request),
        RequestView::Expand(request) => expand_begin(request),
    }
}

impl HkdfBackend {
    /// Takes up a request. The operation that comes back goes on with
    /// [`crate::operation::resume`] until its action is a reply.
    pub fn extension_request(&mut self, request: HkdfRequest) -> (step: Step)
        ensures
            step@ == begin(request@),
    {
        match request {
            HkdfRequest::Extract(req) => extract(req),
            HkdfRequest::Expand(req) => expand(req),
        }
    }
}

} // verus!
