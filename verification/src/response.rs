use vstd::prelude::*;

verus! {

/// The uniform envelope every HTTP response carries: a body code, a
/// human-readable message, and the payload, absent on failure.
#[derive(Debug)]
pub struct ApiResponse<T> {
    pub code: i32,
    pub message: String,
    pub data: Option<T>,
}

impl<T> ApiResponse<T> {
    /// The success envelope: body code 200, message "Success", the payload
    /// attached.
    pub fn success(data: T) -> (r: Self)
        ensures
            r.code == 200,
            r.message@ == "Success"@,
            r.data matches Some(d) && d == data,
    {
        ApiResponse { code: 200, message: String::from_str("Success"), data: Some(data) }
    }

    /// The failure envelope: body code 500 whatever the error, the message
    /// passed through, no payload.
    pub fn error(message: String) -> (r: ApiResponse<()>)
        ensures
            r.code == 500,
            r.message == message,
            r.data is None,
    {
        ApiResponse { code: 500, message, data: None }
    }
}

} // verus!
