//! A service error enum with human-readable responses and status codes.

use vstd::prelude::*;

verus! {

use vstd::string::StringExecFns;

/// The error classes a request handler distinguishes.
#[derive(Debug)]
pub enum MyErrorNew {
    /// A database failure, with a description.
    DbError(String),
    /// A framework failure, with a description.
    ActixError(String),
    /// The requested resource does not exist.
    NotFound(String),
}

/// The response body for a failed request.
#[derive(Debug)]
pub struct MyErrorNewResponse {
    /// The human-readable message.
    pub error_message: String,
}

impl MyErrorNew {
    /// The human-readable message for this error: a class prefix followed
    /// by the carried description.
    pub fn error_response(&self) -> (r: String)
        ensures
            self matches MyErrorNew::DbError(m) ==> r@ == "数据库错误: "@ + m@,
            self matches MyErrorNew::ActixError(m) ==> r@ == "框架错误: "@ + m@,
            self matches MyErrorNew::NotFound(m) ==> r@ == "资源未找到: "@ + m@,
    {
        match self {
            MyErrorNew::DbError(msg) => "数据库错误: ".to_owned().concat(msg.as_str()),
            MyErrorNew::ActixError(msg) => "框架错误: ".to_owned().concat(msg.as_str()),
            MyErrorNew::NotFound(msg) => "资源未找到: ".to_owned().concat(msg.as_str()),
        }
    }

    /// The HTTP status code for this error: 500 for database and framework
    /// failures, 404 for a missing resource.
    pub fn status_code(&self) -> (code: u16)
        ensures
            code == (match self {
                MyErrorNew::DbError(_) => 500int,
                MyErrorNew::ActixError(_) => 500int,
                MyErrorNew::NotFound(_) => 404int,
            }),
    {
        match self {
            MyErrorNew::DbError(_) => 500,
            MyErrorNew::ActixError(_) => 500,
            MyErrorNew::NotFound(_) => 404,
        }
    }

    /// The full response body for this error.
    pub fn to_response(&self) -> (resp: MyErrorNewResponse)
        ensures
            self matches MyErrorNew::DbError(m) ==> resp.error_message@ == "数据库错误: "@ + m@,
            self matches MyErrorNew::ActixError(m) ==> resp.error_message@ == "框架错误: "@ + m@,
            self matches MyErrorNew::NotFound(m) ==> resp.error_message@ == "资源未找到: "@ + m@,
    {
        MyErrorNewResponse { error_message: self.error_response() }
    }
}

} // verus!
