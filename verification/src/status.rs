//! RPC status codes, the status value attached to a failed call, and the
//! inference that turns trailing metadata into a final call outcome.

use vstd::prelude::*;
use vstd::string::StringExecFns;

verus! {

/// The character a decimal digit prints as.
pub open spec fn spec_digit(d: int) -> Seq<char> {
    if d == 0 {
        "0"@
    } else if d == 1 {
        "1"@
    } else if d == 2 {
        "2"@
    } else if d == 3 {
        "3"@
    } else if d == 4 {
        "4"@
    } else if d == 5 {
        "5"@
    } else if d == 6 {
        "6"@
    } else if d == 7 {
        "7"@
    } else if d == 8 {
        "8"@
    } else {
        "9"@
    }
}

/// The decimal rendering of a byte, without leading zeros.
pub open spec fn spec_u8_decimal(n: u8) -> Seq<char> {
    if n >= 100 {
        spec_digit(n as int / 100) + spec_digit(n as int / 10 % 10) + spec_digit(n as int % 10)
    } else if n >= 10 {
        spec_digit(n as int / 10) + spec_digit(n as int % 10)
    } else {
        spec_digit(n as int)
    }
}

fn digit_str(d: u8) -> (r: &'static str)
    requires
        d < 10,
    ensures
        r@ == spec_digit(d as int),
{
    match d {
        0 => "0",
        1 => "1",
        2 => "2",
        3 => "3",
        4 => "4",
        5 => "5",
        6 => "6",
        7 => "7",
        8 => "8",
        _ => "9",
    }
}

/// Renders a byte in decimal, as `spec_u8_decimal` reads it.
pub fn u8_decimal(n: u8) -> (r: String)
    ensures
        r@ == spec_u8_decimal(n),
{
    proof {
        assert(n / 100 < 10 && n / 10 % 10 < 10 && n % 10 < 10 && (n < 100 ==> n / 10 < 10))
            by (bit_vector);
    }
    let mut s = String::new();
    if n >= 100 {
        s.append(digit_str(n / 100));
        s.append(digit_str(n / 10 % 10));
        s.append(digit_str(n % 10));
    } else if n >= 10 {
        s.append(digit_str(n / 10));
        s.append(digit_str(n % 10));
    } else {
        s.append(digit_str(n));
    }
    proof {
        assert(s@ =~= spec_u8_decimal(n));
    }
    s
}

/// The status codes an RPC call can end with.
#[derive(Clone, Copy, Debug, PartialEq, Eq, Structural)]
pub enum Code {
    Okay,
    Cancelled,
    Unknown,
    InvalidArgument,
    DeadlineExceeded,
    NotFound,
    AlreadyExists,
    PermissionDenied,
    ResourceExhausted,
    FailedPrecondition,
    Aborted,
    OutOfRange,
    Unimplemented,
    Internal,
    Unavailable,
    DataLoss,
    Unauthenticated,
}

/// The code that a numeric status field in trailing metadata stands for;
/// numbers outside the known range mean an unknown outcome.
pub open spec fn spec_code_from_u32(n: u32) -> Code {
    if n == 0 {
        Code::Okay
    } else if n == 1 {
        Code::Cancelled
    } else if n == 2 {
        Code::Unknown
    } else if n == 3 {
        Code::InvalidArgument
    } else if n == 4 {
        Code::DeadlineExceeded
    } else if n == 5 {
        Code::NotFound
    } else if n == 6 {
        Code::AlreadyExists
    } else if n == 7 {
        Code::PermissionDenied
    } else if n == 8 {
        Code::ResourceExhausted
    } else if n == 9 {
        Code::FailedPrecondition
    } else if n == 10 {
        Code::Aborted
    } else if n == 11 {
        Code::OutOfRange
    } else if n == 12 {
        Code::Unimplemented
    } else if n == 13 {
        Code::Internal
    } else if n == 14 {
        Code::Unavailable
    } else if n == 15 {
        Code::DataLoss
    } else if n == 16 {
        Code::Unauthenticated
    } else {
        Code::Unknown
    }
}

/// The code a response without any status field maps to, judged from the
/// transport-level response status it arrived with.
pub open spec fn spec_code_from_http(status: u16) -> Code {
    if status == 400 {
        Code::Internal
    } else if status == 401 {
        Code::Unauthenticated
    } else if status == 403 {
        Code::PermissionDenied
    } else if status == 404 {
        Code::Unimplemented
    } else if status == 429 || status == 502 || status == 503 || status == 504 {
        Code::Unavailable
    } else {
        Code::Unknown
    }
}

impl Code {
    /// Decodes a numeric status field into a `Code`.
    pub fn from_u32(n: u32) -> (r: Code)
        ensures
            r == spec_code_from_u32(n),
    {
        match n {
            0 => Code::Okay,
            1 => Code::Cancelled,
            2 => Code::Unknown,
            3 => Code::InvalidArgument,
            4 => Code::DeadlineExceeded,
            5 => Code::NotFound,
            6 => Code::AlreadyExists,
            7 => Code::PermissionDenied,
            8 => Code::ResourceExhausted,
            9 => Code::FailedPrecondition,
            10 => Code::Aborted,
            11 => Code::OutOfRange,
            12 => Code::Unimplemented,
            13 => Code::Internal,
            14 => Code::Unavailable,
            15 => Code::DataLoss,
            16 => Code::Unauthenticated,
            _ => Code::Unknown,
        }
    }

    /// Maps a transport-level response status to the code reported when the
    /// trailing metadata carries no status field of its own.
    pub fn from_http(status: u16) -> (r: Code)
        ensures
            r == spec_code_from_http(status),
    {
        match status {
            400 => Code::Internal,
            401 => Code::Unauthenticated,
            403 => Code::PermissionDenied,
            404 => Code::Unimplemented,
            429 => Code::Unavailable,
            502 => Code::Unavailable,
            503 => Code::Unavailable,
            504 => Code::Unavailable,
            _ => Code::Unknown,
        }
    }
}

/// A status describing how a call failed: a code plus a human-readable
/// message.
#[derive(Clone, Debug)]
pub struct GrpcStatus {
    pub code: Code,
    pub message: String,
}

impl GrpcStatus {
    /// Builds a status from its parts.
    pub fn new(code: Code, message: String) -> (r: GrpcStatus)
        ensures
            r.code == code,
            r.message == message,
    {
        GrpcStatus { code, message }
    }
}

/// The trailing metadata of a response stream, reduced to the two fields the
/// decoder reads: the numeric status and the optional status message.
#[derive(Clone, Debug, PartialEq)]
pub struct Trailers {
    pub status: Option<u32>,
    pub message: Option<String>,
}

/// What status inference concludes from trailing metadata: `Ok` for a clean
/// call, or the code and message of the terminal failure.  A status field of
/// zero is success; a non-zero field is the failure it names; a missing field
/// (or missing trailers altogether) is itself a violation, mapped from the
/// transport-level response status.
pub open spec fn spec_infer(trailers: Option<Trailers>, http_status: u16) -> Result<
    (),
    (Code, Seq<char>),
> {
    match trailers {
        Option::None => Result::Err(
            (spec_code_from_http(http_status), "grpc-status header missing"@),
        ),
        Option::Some(t) => match t.status {
            Option::None => Result::Err(
                (spec_code_from_http(http_status), "grpc-status header missing"@),
            ),
            Option::Some(n) => if n == 0 {
                Result::Ok(())
            } else {
                Result::Err(
                    (
                        spec_code_from_u32(n),
                        match t.message {
                            Option::Some(m) => m@,
                            Option::None => Seq::<char>::empty(),
                        },
                    ),
                )
            },
        },
    }
}

/// Turns trailing metadata into the final outcome of a response stream,
/// exactly as `spec_infer` describes.
pub fn infer_grpc_status(trailers: &Option<Trailers>, http_status: u16) -> (r: Result<
    (),
    GrpcStatus,
>)
    ensures
        (r is Ok) == (spec_infer(*trailers, http_status) is Ok),
        r matches Err(st) ==> spec_infer(*trailers, http_status) matches Err(f) && st.code == f.0
            && st.message@ == f.1,
{
    match trailers {
        Option::None => Result::Err(
            GrpcStatus::new(Code::from_http(http_status), "grpc-status header missing".to_string()),
        ),
        Option::Some(t) => match &t.status {
            Option::None => Result::Err(
                GrpcStatus::new(
                    Code::from_http(http_status),
                    "grpc-status header missing".to_string(),
                ),
            ),
            Option::Some(n) => if *n == 0 {
                Result::Ok(())
            } else {
                let msg: String = match &t.message {
                    Option::Some(m) => m.clone(),
                    Option::None => String::new(),
                };
                Result::Err(GrpcStatus::new(Code::from_u32(*n), msg))
            },
        },
    }
}

} // verus!
