//! The error type propagated by registry calls: a machine-readable code
//! plus a human detail string, convertible to and from the numeric code
//! space of the coordination store's RPC status representation.

use vstd::prelude::*;

verus! {

/// Status codes, following the HTTP status-code registry.
#[derive(Clone, Copy, Debug, PartialEq, Eq, Structural)]
pub enum Code {
    Unknown,
    Continue,
    Okay,
    BadRequest,
    Unauthorized,
    Forbidden,
    NotFound,
    MethodNotAllowed,
    RequestTimeout,
    Conflict,
    PreconditionFailed,
    TooManyRequests,
    InternalServerError,
    NotImplementedError,
    BadGateway,
    ServiceUnavailable,
    GatewayTimeout,
}

/// The numeric value of a code, as carried in a status header.
pub open spec fn spec_code_number(c: Code) -> int {
    match c {
        Code::Unknown => 0,
        Code::Continue => 100,
        Code::Okay => 200,
        Code::BadRequest => 400,
        Code::Unauthorized => 401,
        Code::Forbidden => 403,
        Code::NotFound => 404,
        Code::MethodNotAllowed => 405,
        Code::RequestTimeout => 408,
        Code::Conflict => 409,
        Code::PreconditionFailed => 412,
        Code::TooManyRequests => 429,
        Code::InternalServerError => 500,
        Code::NotImplementedError => 501,
        Code::BadGateway => 502,
        Code::ServiceUnavailable => 503,
        Code::GatewayTimeout => 504,
    }
}

/// The code a numeric value maps back to.  The value 100 is not
/// recognized: only 201 maps to `Continue`.
pub open spec fn spec_code_of_number(i: int) -> Code {
    if i == 200 {
        Code::Okay
    } else if i == 201 {
        Code::Continue
    } else if i == 400 {
        Code::BadRequest
    } else if i == 401 {
        Code::Unauthorized
    } else if i == 403 {
        Code::Forbidden
    } else if i == 404 {
        Code::NotFound
    } else if i == 405 {
        Code::MethodNotAllowed
    } else if i == 408 {
        Code::RequestTimeout
    } else if i == 409 {
        Code::Conflict
    } else if i == 412 {
        Code::PreconditionFailed
    } else if i == 429 {
        Code::TooManyRequests
    } else if i == 500 {
        Code::InternalServerError
    } else if i == 501 {
        Code::NotImplementedError
    } else if i == 502 {
        Code::BadGateway
    } else if i == 503 {
        Code::ServiceUnavailable
    } else if i == 504 {
        Code::GatewayTimeout
    } else {
        Code::Unknown
    }
}

/// The short text describing a code.
pub open spec fn spec_description(c: Code) -> Seq<char> {
    match c {
        Code::Continue => "Continue"@,
        Code::Okay => "OK"@,
        Code::BadRequest => "Bad Request"@,
        Code::Unauthorized => "Unauthorized"@,
        Code::Forbidden => "forbidden"@,
        Code::NotFound => "Not Found"@,
        Code::MethodNotAllowed => "Method Not Allowed"@,
        Code::RequestTimeout => "Request Timeout"@,
        Code::Conflict => "Conflict"@,
        Code::PreconditionFailed => "Precondition Failed"@,
        Code::TooManyRequests => "Too Many Requests"@,
        Code::InternalServerError => "Internal Server Error"@,
        Code::NotImplementedError => "Not Implemented"@,
        Code::BadGateway => "Bad Gateway"@,
        Code::ServiceUnavailable => "Service Unavailable"@,
        Code::GatewayTimeout => "Gateway Timeout"@,
        Code::Unknown => "Unknown error"@,
    }
}

impl Code {
    /// The `Code` that represents the integer; `Code::Unknown` if the
    /// integer is not a recognized code number.
    pub fn from_i32(i: i32) -> (r: Code)
        ensures
            r == spec_code_of_number(i as int),
    {
        match i {
            200 => Code::Okay,
            201 => Code::Continue,
            400 => Code::BadRequest,
            401 => Code::Unauthorized,
            403 => Code::Forbidden,
            404 => Code::NotFound,
            405 => Code::MethodNotAllowed,
            408 => Code::RequestTimeout,
            409 => Code::Conflict,
            412 => Code::PreconditionFailed,
            429 => Code::TooManyRequests,
            500 => Code::InternalServerError,
            501 => Code::NotImplementedError,
            502 => Code::BadGateway,
            503 => Code::ServiceUnavailable,
            504 => Code::GatewayTimeout,
            _ => Code::Unknown,
        }
    }

    /// The numeric value of this code.
    pub fn to_i32(self) -> (r: i32)
        ensures
            r as int == spec_code_number(self),
    {
        match self {
            Code::Unknown => 0,
            Code::Continue => 100,
            Code::Okay => 200,
            Code::BadRequest => 400,
            Code::Unauthorized => 401,
            Code::Forbidden => 403,
            Code::NotFound => 404,
            Code::MethodNotAllowed => 405,
            Code::RequestTimeout => 408,
            Code::Conflict => 409,
            Code::PreconditionFailed => 412,
            Code::TooManyRequests => 429,
            Code::InternalServerError => 500,
            Code::NotImplementedError => 501,
            Code::BadGateway => 502,
            Code::ServiceUnavailable => 503,
            Code::GatewayTimeout => 504,
        }
    }

    /// The short text describing this code.
    pub fn description(&self) -> (r: &'static str)
        ensures
            r@ == spec_description(*self),
    {
        match self {
            Code::Continue => "Continue",
            Code::Okay => "OK",
            Code::BadRequest => "Bad Request",
            Code::Unauthorized => "Unauthorized",
            Code::Forbidden => "forbidden",
            Code::NotFound => "Not Found",
            Code::MethodNotAllowed => "Method Not Allowed",
            Code::RequestTimeout => "Request Timeout",
            Code::Conflict => "Conflict",
            Code::PreconditionFailed => "Precondition Failed",
            Code::TooManyRequests => "Too Many Requests",
            Code::InternalServerError => "Internal Server Error",
            Code::NotImplementedError => "Not Implemented",
            Code::BadGateway => "Bad Gateway",
            Code::ServiceUnavailable => "Service Unavailable",
            Code::GatewayTimeout => "Gateway Timeout",
            Code::Unknown => "Unknown error",
        }
    }
}

/// A status describing the result of a registry or RPC call.
#[derive(Debug)]
pub struct Status {
    pub id: String,
    pub code: Code,
    pub detail: String,
    pub status: String,
    pub position: String,
}

/// What a freshly constructed status looks like: the given id, detail and
/// code, the code's description as the status text, and no position.
pub open spec fn spec_fresh_status(r: Status, id: Seq<char>, detail: Seq<char>, code: Code) -> bool {
    &&& r.id@ == id
    &&& r.detail@ == detail
    &&& r.code == code
    &&& r.status@ == spec_description(code)
    &&& r.position@ == Seq::<char>::empty()
}

impl Status {
    pub fn new(id: &str, detail: &str, code: Code) -> (r: Status)
        ensures
            spec_fresh_status(r, id@, detail@, code),
    {
        Status {
            id: id.to_owned(),
            code,
            detail: detail.to_owned(),
            status: code.description().to_owned(),
            position: String::new(),
        }
    }

    /// Two statuses are considered equal when their codes agree.
    pub fn equal(&self, another: &Self) -> (r: bool)
        ensures
            r == (self.code == another.code),
    {
        self.code == another.code
    }

    pub fn id(&self) -> (r: &str)
        ensures
            r@ == self.id@,
    {
        self.id.as_str()
    }

    pub fn code(&self) -> (r: Code)
        ensures
            r == self.code,
    {
        self.code
    }

    pub fn status(&self) -> (r: &str)
        ensures
            r@ == self.status@,
    {
        self.status.as_str()
    }

    pub fn detail(&self) -> (r: &str)
        ensures
            r@ == self.detail@,
    {
        self.detail.as_str()
    }

    pub fn position(&self) -> (r: &str)
        ensures
            r@ == self.position@,
    {
        self.position.as_str()
    }

    pub fn with_id(&mut self, id: &str) -> (r: &Self)
        ensures
            final(self).id@ == id@,
            final(self).code == old(self).code,
            final(self).detail == old(self).detail,
            final(self).status == old(self).status,
            final(self).position == old(self).position,
            r == *final(self),
    {
        self.id = id.to_owned();
        self
    }

    pub fn with_code(&mut self, code: Code) -> (r: &Self)
        ensures
            final(self).code == code,
            final(self).id == old(self).id,
            final(self).detail == old(self).detail,
            final(self).status == old(self).status,
            final(self).position == old(self).position,
            r == *final(self),
    {
        self.code = code;
        self
    }

    /// A status for an unrecognized failure.
    pub fn unknown(id: &str, detail: &str) -> (r: Status)
        ensures
            spec_fresh_status(r, id@, detail@, Code::Unknown),
    {
        Status::new(id, detail, Code::Unknown)
    }

    /// A success status: no detail, and the unknown code's description as
    /// its status text.
    pub fn ok(id: &str) -> (r: Status)
        ensures
            spec_fresh_status(r, id@, Seq::<char>::empty(), Code::Unknown),
    {
        proof {
            reveal_strlit("");
            assert(""@ =~= Seq::<char>::empty());
        }
        Status::new(id, "", Code::Unknown)
    }

    /// A continue status.
    pub fn do_continue(id: &str) -> (r: Status)
        ensures
            spec_fresh_status(r, id@, Seq::<char>::empty(), Code::Okay),
    {
        proof {
            reveal_strlit("");
            assert(""@ =~= Seq::<char>::empty());
        }
        Status::new(id, "", Code::Okay)
    }

    /// A 400 error.
    pub fn bad_request(id: &str, detail: &str) -> (r: Status)
        ensures
            spec_fresh_status(r, id@, detail@, Code::BadRequest),
    {
        Status::new(id, detail, Code::BadRequest)
    }

    /// A 401 error.
    pub fn unauthorized(id: &str, detail: &str) -> (r: Status)
        ensures
            spec_fresh_status(r, id@, detail@, Code::Unauthorized),
    {
        Status::new(id, detail, Code::Unauthorized)
    }

    /// A 403 error.
    pub fn forbidden(id: &str, detail: &str) -> (r: Status)
        ensures
            spec_fresh_status(r, id@, detail@, Code::Forbidden),
    {
        Status::new(id, detail, Code::Forbidden)
    }

    /// A 404 error.
    pub fn not_found(id: &str, detail: &str) -> (r: Status)
        ensures
            spec_fresh_status(r, id@, detail@, Code::NotFound),
    {
        Status::new(id, detail, Code::NotFound)
    }

    /// A 405 error.
    pub fn method_not_allowed(id: &str, detail: &str) -> (r: Status)
        ensures
            spec_fresh_status(r, id@, detail@, Code::MethodNotAllowed),
    {
        Status::new(id, detail, Code::MethodNotAllowed)
    }

    /// A 408 error.
    pub fn timeout(id: &str, detail: &str) -> (r: Status)
        ensures
            spec_fresh_status(r, id@, detail@, Code::RequestTimeout),
    {
        Status::new(id, detail, Code::RequestTimeout)
    }

    /// A 409 error.
    pub fn conflict(id: &str, detail: &str) -> (r: Status)
        ensures
            spec_fresh_status(r, id@, detail@, Code::Conflict),
    {
        Status::new(id, detail, Code::Conflict)
    }

    /// A 412 error.
    pub fn precondition_failed(id: &str, detail: &str) -> (r: Status)
        ensures
            spec_fresh_status(r, id@, detail@, Code::PreconditionFailed),
    {
        Status::new(id, detail, Code::PreconditionFailed)
    }

    /// A 429 error.
    pub fn too_many_requests(id: &str, detail: &str) -> (r: Status)
        ensures
            spec_fresh_status(r, id@, detail@, Code::TooManyRequests),
    {
        Status::new(id, detail, Code::TooManyRequests)
    }

    /// A 500 error.
    pub fn internal_server_error(id: &str, detail: &str) -> (r: Status)
        ensures
            spec_fresh_status(r, id@, detail@, Code::InternalServerError),
    {
        Status::new(id, detail, Code::InternalServerError)
    }

    /// A 501 error.
    pub fn not_implemented(id: &str, detail: &str) -> (r: Status)
        ensures
            spec_fresh_status(r, id@, detail@, Code::NotImplementedError),
    {
        Status::new(id, detail, Code::NotImplementedError)
    }

    /// A 502 error.
    pub fn bad_gateway(id: &str, detail: &str) -> (r: Status)
        ensures
            spec_fresh_status(r, id@, detail@, Code::BadGateway),
    {
        Status::new(id, detail, Code::BadGateway)
    }

    /// A 503 error.
    pub fn service_unavailable(id: &str, detail: &str) -> (r: Status)
        ensures
            spec_fresh_status(r, id@, detail@, Code::ServiceUnavailable),
    {
        Status::new(id, detail, Code::ServiceUnavailable)
    }

    /// A 504 error.
    pub fn gateway_timeout(id: &str, detail: &str) -> (r: Status)
        ensures
            spec_fresh_status(r, id@, detail@, Code::GatewayTimeout),
    {
        Status::new(id, detail, Code::GatewayTimeout)
    }
}

/// The registry code an RPC status code maps to, by the numeric value the
/// RPC code space assigns it: 0 ok, 1 cancelled, 2 unknown, 3 invalid
/// argument, 4 deadline exceeded, 5 not found, 6 already exists, 7
/// permission denied, 8 resource exhausted, 9 failed precondition, 10
/// aborted, 11 out of range, 12 unimplemented, 13 internal, 14
/// unavailable, 15 data loss, 16 unauthenticated.
pub open spec fn spec_code_of_rpc(i: int) -> Code {
    if i == 0 {
        Code::Okay
    } else if i == 1 {
        Code::RequestTimeout
    } else if i == 3 {
        Code::BadRequest
    } else if i == 4 {
        Code::GatewayTimeout
    } else if i == 5 {
        Code::NotFound
    } else if i == 6 {
        Code::Conflict
    } else if i == 7 {
        Code::Forbidden
    } else if i == 8 {
        Code::TooManyRequests
    } else if i == 9 {
        Code::PreconditionFailed
    } else if i == 10 {
        Code::Conflict
    } else if i == 11 {
        Code::BadRequest
    } else if i == 12 {
        Code::NotImplementedError
    } else if i == 13 {
        Code::InternalServerError
    } else if i == 14 {
        Code::ServiceUnavailable
    } else if i == 15 {
        Code::InternalServerError
    } else if i == 16 {
        Code::Unauthorized
    } else {
        Code::Unknown
    }
}

/// The RPC status code a registry code maps to, in the same numbering.
pub open spec fn spec_rpc_of_code(c: Code) -> int {
    match c {
        Code::Unknown => 2,
        Code::Continue => 0,
        Code::Okay => 0,
        Code::BadRequest => 3,
        Code::Unauthorized => 16,
        Code::Forbidden => 7,
        Code::NotFound => 5,
        Code::MethodNotAllowed => 12,
        Code::RequestTimeout => 1,
        Code::Conflict => 15,
        Code::PreconditionFailed => 9,
        Code::TooManyRequests => 8,
        Code::InternalServerError => 13,
        Code::NotImplementedError => 12,
        Code::BadGateway => 13,
        Code::ServiceUnavailable => 14,
        Code::GatewayTimeout => 4,
    }
}

/// Builds a `Status` from the numeric code and message of an RPC status
/// coming back from the coordination store.
pub fn status_from_rpc(rpc_code: i32, message: &str) -> (r: Status)
    ensures
        spec_fresh_status(r, Seq::<char>::empty(), message@, spec_code_of_rpc(rpc_code as int)),
{
    let code = match rpc_code {
        0 => Code::Okay,
        1 => Code::RequestTimeout,
        3 => Code::BadRequest,
        4 => Code::GatewayTimeout,
        5 => Code::NotFound,
        6 => Code::Conflict,
        7 => Code::Forbidden,
        8 => Code::TooManyRequests,
        9 => Code::PreconditionFailed,
        10 => Code::Conflict,
        11 => Code::BadRequest,
        12 => Code::NotImplementedError,
        13 => Code::InternalServerError,
        14 => Code::ServiceUnavailable,
        15 => Code::InternalServerError,
        16 => Code::Unauthorized,
        _ => Code::Unknown,
    };
    proof {
        reveal_strlit("");
        assert(""@ =~= Seq::<char>::empty());
    }
    Status::new("", message, code)
}

impl Status {
    /// The numeric RPC status code this status maps to when it is sent
    /// back over the store's RPC status representation.
    pub fn to_rpc_code(&self) -> (r: i32)
        ensures
            r as int == spec_rpc_of_code(self.code),
    {
        match self.code {
            Code::Unknown => 2,
            Code::Continue => 0,
            Code::Okay => 0,
            Code::BadRequest => 3,
            Code::Unauthorized => 16,
            Code::Forbidden => 7,
            Code::NotFound => 5,
            Code::MethodNotAllowed => 12,
            Code::RequestTimeout => 1,
            Code::Conflict => 15,
            Code::PreconditionFailed => 9,
            Code::TooManyRequests => 8,
            Code::InternalServerError => 13,
            Code::NotImplementedError => 12,
            Code::BadGateway => 13,
            Code::ServiceUnavailable => 14,
            Code::GatewayTimeout => 4,
        }
    }
}

} // verus!
