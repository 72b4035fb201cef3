use vstd::prelude::*;

verus! {

/// The HTTP statuses that the API answers with.
#[derive(Debug, Clone, Copy, PartialEq, Eq, Structural)]
pub enum Status {
    Okay,
    Created,
    NoContent,
    Unauthorized,
    NotFound,
    Conflict,
    InternalServerError,
}

/// The numeric HTTP code of a status.
pub open spec fn status_code(status: Status) -> u16 {
    match status {
        Status::Okay => 200,
        Status::Created => 201,
        Status::NoContent => 204,
        Status::Unauthorized => 401,
        Status::NotFound => 404,
        Status::Conflict => 409,
        Status::InternalServerError => 500,
    }
}

/// A status in the 2xx range.
pub open spec fn is_success(status: Status) -> bool {
    200 <= status_code(status) < 300
}

impl Status {
    /// Computes `status_code(*self)`.
    pub fn code(&self) -> (res: u16)
        ensures
            res == status_code(*self),
    {
        match self {
            Status::Okay => 200,
            Status::Created => 201,
            Status::NoContent => 204,
            Status::Unauthorized => 401,
            Status::NotFound => 404,
            Status::Conflict => 409,
            Status::InternalServerError => 500,
        }
    }
}

/// A handler's answer: a success status as `Ok`, any other as `Err`, the
/// status itself in both.
pub fn answer(status: Status) -> (res: Result<Status, Status>)
    ensures
        res is Ok <==> is_success(status),
        match res {
            Ok(s) => s == status,
            Err(s) => s == status,
        },
{
    let code = status.code();
    if 200 <= code && code < 300 {
        Ok(status)
    } else {
        Err(status)
    }
}

} // verus!
