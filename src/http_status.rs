//! Response status codes, as the numbers HTTP gives them, and the trait by
//! which a result of an operation names its own status.
use vstd::prelude::*;

verus! {

pub const OK: u16 = 200;

pub const BAD_REQUEST: u16 = 400;

pub const FORBIDDEN: u16 = 403;

pub const NOT_FOUND: u16 = 404;

pub const UNPROCESSABLE_ENTITY: u16 = 422;

pub const INTERNAL_SERVER_ERROR: u16 = 500;

/// A value that carries the HTTP status under which it is sent.
pub trait ResponseStatusCode {
    spec fn status_spec(&self) -> u16;

    fn status_code(&self) -> (r: u16)
        ensures
            r == self.status_spec(),
    ;
}

/// A value paired with the status chosen for it by the caller.
#[derive(Debug, Clone, Copy)]
pub struct WithStatusCode<T> {
    pub status_code: u16,
    pub target: T,
}

impl<T> WithStatusCode<T> {
    pub fn new(status_code: u16, target: T) -> (r: Self)
        ensures
            r.status_code == status_code,
            r.target == target,
    {
        WithStatusCode { status_code, target }
    }
}

impl<T> ResponseStatusCode for WithStatusCode<T> {
    open spec fn status_spec(&self) -> u16 {
        self.status_code
    }

    fn status_code(&self) -> (r: u16) {
        self.status_code
    }
}

/// Attaching a status to one side of a `Result`.
pub trait WithResultStatus: Sized {
    type Ok;

    type Err;

    fn with_http_status(self, status_code: u16) -> Result<WithStatusCode<Self::Ok>, Self::Err>;

    fn with_err_http_status(self, status_code: u16) -> Result<Self::Ok, WithStatusCode<Self::Err>>;
}

impl<T, E> WithResultStatus for Result<T, E> {
    type Ok = T;

    type Err = E;

    fn with_http_status(self, status_code: u16) -> (r: Result<WithStatusCode<T>, E>)
        ensures
            match self {
                Ok(data) => r == Ok::<WithStatusCode<T>, E>(WithStatusCode { status_code, target: data }),
                Err(error) => r == Err::<WithStatusCode<T>, E>(error),
            },
    {
        match self {
            Ok(data) => Ok(WithStatusCode::new(status_code, data)),
            Err(error) => Err(error),
        }
    }

    fn with_err_http_status(self, status_code: u16) -> (r: Result<T, WithStatusCode<E>>)
        ensures
            match self {
                Ok(data) => r == Ok::<T, WithStatusCode<E>>(data),
                Err(error) => r == Err::<T, WithStatusCode<E>>(WithStatusCode { status_code, target: error }),
            },
    {
        match self {
            Ok(data) => Ok(data),
            Err(error) => Err(WithStatusCode::new(status_code, error)),
        }
    }
}

} // verus!
