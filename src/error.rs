use vstd::prelude::*;

verus! {

/// HTTP status code for a malformed request.
pub const BAD_REQUEST: u16 = 400;

/// HTTP status code for a failure on the server side.
pub const INTERNAL_SERVER_ERROR: u16 = 500;

/// An error response: a status code and the messages gathered for it.
#[derive(Debug)]
pub struct ApiError {
    pub status_code: u16,
    pub errors: Vec<String>,
}

impl ApiError {
    /// The messages of this error, as character sequences.
    pub open spec fn messages(&self) -> Seq<Seq<char>> {
        self.errors@.map_values(|e: String| e@)
    }

    /// An error with the given status code and one message.
    pub fn new(status_code: u16, err: &str) -> (r: ApiError)
        ensures
            r.status_code == status_code,
            r.messages() == seq![err@],
    {
        let mut errors: Vec<String> = Vec::new();
        errors.push(String::from_str(err));
        let r = ApiError { status_code, errors };
        assert(r.messages() =~= seq![err@]);
        r
    }

    /// An internal server error with one message.
    pub fn new_internal(err: &str) -> (r: ApiError)
        ensures
            r.status_code == INTERNAL_SERVER_ERROR,
            r.messages() == seq![err@],
    {
        ApiError::new(INTERNAL_SERVER_ERROR, err)
    }

    /// A bad-request error with one message.
    pub fn new_bad_request(err: &str) -> (r: ApiError)
        ensures
            r.status_code == BAD_REQUEST,
            r.messages() == seq![err@],
    {
        ApiError::new(BAD_REQUEST, err)
    }

    /// Adds one more message; the status code stays.
    pub fn append_error(&mut self, err: &str)
        ensures
            final(self).status_code == old(self).status_code,
            final(self).messages() == old(self).messages().push(err@),
    {
        self.errors.push(String::from_str(err));
        assert(self.messages() =~= old(self).messages().push(err@));
    }

    /// The status code of this error.
    pub fn status_code(&self) -> (r: u16)
        ensures
            r == self.status_code,
    {
        self.status_code
    }
}

} // verus!
