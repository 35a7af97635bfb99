//! The limit on the size that a request declares.

use vstd::prelude::*;
use vstd::string::StringExecFns;
use vstd::string::to_string_from_display_ensures;

verus! {

/// The limit on the size of a request, in bytes.
pub struct RequestSizeLimitMiddleware {
    pub max_size: usize,
}

impl RequestSizeLimitMiddleware {
    /// A request is refused when it declares a length above the limit; one
    /// that declares none is let through.
    pub open spec fn refuses(self, declared: Option<usize>) -> bool {
        declared.is_some() && declared.unwrap() > self.max_size
    }

    /// Whether a request with this declared length is refused.
    pub fn exceeds(&self, declared: Option<usize>) -> (refused: bool)
        ensures
            refused == self.refuses(declared),
    {
        match declared {
            Some(length) => length > self.max_size,
            None => false,
        }
    }

    /// The text of the refusal for a request of `length` bytes.
    pub fn refusal(&self, length: usize) -> (text: String)
        ensures
            exists|size: String, limit: String|
                #![trigger
                    to_string_from_display_ensures::<usize>(&length, size),
                    to_string_from_display_ensures::<usize>(&self.max_size, limit),
                ]
                to_string_from_display_ensures::<usize>(&length, size)
                    && to_string_from_display_ensures::<usize>(&self.max_size, limit) && text@
                    == "Request size "@ + size@ + " exceeds maximum allowed size "@ + limit@,
    {
        let size = length.to_string();
        let limit = self.max_size.to_string();
        String::from_str("Request size ").concat(size.as_str()).concat(
            " exceeds maximum allowed size ",
        ).concat(limit.as_str())
    }
}

} // verus!
