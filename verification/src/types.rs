//! The envelope in which every response is wrapped, and the plain request
//! and documentation types of the gateway.

use vstd::prelude::*;
use vstd::string::*;
use crate::error::ResError;

verus! {

/// The credentials of a login request.
#[derive(Debug)]
pub struct LoginPost {
    pub email: String,
    pub password: String,
}

/// The envelope of every response body.
#[derive(Debug)]
pub struct ResultBody<T> {
    pub success: bool,
    pub error: Option<String>,
    pub data: Option<T>,
}

/// Marks a value that is sent, or was received, as JSON.
#[derive(Debug)]
pub struct Json<T>(pub T);

/// A handler's result: status code and envelope, or the error to answer
/// with.
pub type ServerResult<T> = Result<(u16, Json<ResultBody<T>>), ResError>;

/// The response to a successful request: the given status code and an
/// envelope that holds the payload.
pub fn new_ok_res<T>(code: u16, data: T) -> (res: ServerResult<T>)
    ensures
        res is Ok,
        res->Ok_0.0 == code,
        res->Ok_0.1.0.success,
        res->Ok_0.1.0.error is None,
        res->Ok_0.1.0.data == Some(data),
{
    Ok((code, Json(ResultBody { success: true, error: None, data: Some(data) })))
}

/// The response to a failed request: the given status code and an
/// envelope that holds the client-facing message and no payload.
pub fn new_err_res(status_code: u16, response_msg: &str) -> (res: (u16, Json<ResultBody<()>>))
    ensures
        res.0 == status_code,
        !res.1.0.success,
        res.1.0.error is Some,
        res.1.0.error->Some_0@ == response_msg@,
        res.1.0.data is None,
{
    (
        status_code,
        Json(ResultBody { success: false, error: Some(String::from_str(response_msg)), data: None }),
    )
}

/// The response with which an error is answered: its status code and its
/// generic message. The internal detail stays out of the response.
pub fn error_response(err: &ResError) -> (res: (u16, Json<ResultBody<()>>))
    ensures
        res.0 == err.spec_status_code(),
        !res.1.0.success,
        res.1.0.error is Some,
        res.1.0.error->Some_0@ == err.spec_response_msg(),
        res.1.0.data is None,
{
    new_err_res(err.status_code(), err.response_msg())
}

/// One documented response: its status code pattern and what it means.
#[derive(Clone, Copy, Debug)]
pub struct ResponseDoc {
    pub code: &'static str,
    pub description: &'static str,
}

/// Documented response of a successful request.
#[derive(Clone, Copy, Debug)]
pub enum ExRes200 {
    Documented,
}

/// Documented response of a request that created an item.
#[derive(Clone, Copy, Debug)]
pub enum ExRes201 {
    Documented,
}

/// Documented response of an invalid request.
#[derive(Clone, Copy, Debug)]
pub enum ExRes400 {
    Documented,
}

/// Documented response of a request without valid credentials.
#[derive(Clone, Copy, Debug)]
pub enum ExRes401 {
    Documented,
}

/// Documented response of a request for a missing item.
#[derive(Clone, Copy, Debug)]
pub enum ExRes404 {
    Documented,
}

/// Documented response of a request with a wrong content type.
#[derive(Clone, Copy, Debug)]
pub enum ExRes415 {
    Documented,
}

/// Documented response of a request with unacceptable body fields.
#[derive(Clone, Copy, Debug)]
pub enum ExRes422 {
    Documented,
}

/// Documented response of a request that failed inside the service.
#[derive(Clone, Copy, Debug)]
pub enum ExRes5XX {
    Documented,
}

impl ExRes200 {
    pub fn responses() -> (doc: ResponseDoc)
        ensures
            doc.code@ == "200"@,
            doc.description@ == "Success"@,
    {
        ResponseDoc { code: "200", description: "Success" }
    }
}

impl ExRes201 {
    pub fn responses() -> (doc: ResponseDoc)
        ensures
            doc.code@ == "201"@,
            doc.description@ == "Item created successfully"@,
    {
        ResponseDoc { code: "201", description: "Item created successfully" }
    }
}

impl ExRes400 {
    pub fn responses() -> (doc: ResponseDoc)
        ensures
            doc.code@ == "400"@,
            doc.description@
                == "The request was invalid. Most likely the body, path, or query format was incorrect"@,
    {
        ResponseDoc {
            code: "400",
            description: "The request was invalid. Most likely the body, path, or query format was incorrect",
        }
    }
}

impl ExRes401 {
    pub fn responses() -> (doc: ResponseDoc)
        ensures
            doc.code@ == "401"@,
            doc.description@ == "The required auth token is either missing or invalid"@,
    {
        ResponseDoc { code: "401", description: "The required auth token is either missing or invalid" }
    }
}

impl ExRes404 {
    pub fn responses() -> (doc: ResponseDoc)
        ensures
            doc.code@ == "404"@,
            doc.description@ == "Some item related to the request was not found"@,
    {
        ResponseDoc { code: "404", description: "Some item related to the request was not found" }
    }
}

impl ExRes415 {
    pub fn responses() -> (doc: ResponseDoc)
        ensures
            doc.code@ == "415"@,
            doc.description@ == "The request's content type was incorrect"@,
    {
        ResponseDoc { code: "415", description: "The request's content type was incorrect" }
    }
}

impl ExRes422 {
    pub fn responses() -> (doc: ResponseDoc)
        ensures
            doc.code@ == "422"@,
            doc.description@ == "There was something wrong with the request's body fields"@,
    {
        ResponseDoc {
            code: "422",
            description: "There was something wrong with the request's body fields",
        }
    }
}

impl ExRes5XX {
    pub fn responses() -> (doc: ResponseDoc)
        ensures
            doc.code@ == "5XX"@,
            doc.description@ == "Some internal server error happened that wasn't the client's fault"@,
    {
        ResponseDoc {
            code: "5XX",
            description: "Some internal server error happened that wasn't the client's fault",
        }
    }
}

} // verus!
