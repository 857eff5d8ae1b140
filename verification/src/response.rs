//! The envelope of API responses and paginated results.
use vstd::prelude::*;

use crate::api_code::OfsApiCode;
use crate::validation::ValidationError;

verus! {

/// One problem with a request, optionally tied to a field.
#[derive(Debug, Clone)]
pub struct ApiErrorDetail {
    pub field: Option<String>,
    pub reason: String,
}

impl ApiErrorDetail {
    /// The detail of a validation error: its field and reason.
    pub fn from_validation_error(e: ValidationError) -> (r: Self)
        ensures
            r.field == Some(e.field),
            r.reason == e.reason,
    {
        ApiErrorDetail { field: Some(e.field), reason: e.reason }
    }
}

impl From<ValidationError> for ApiErrorDetail {
    fn from(e: ValidationError) -> Self {
        ApiErrorDetail::from_validation_error(e)
    }
}

impl vstd::std_specs::convert::FromSpecImpl<ValidationError> for ApiErrorDetail {
    open spec fn obeys_from_spec() -> bool {
        true
    }

    open spec fn from_spec(v: ValidationError) -> ApiErrorDetail {
        ApiErrorDetail { field: Some(v.field), reason: v.reason }
    }
}

/// The response envelope of the API: a status word, a result code, a message,
/// and the data or the error details.
#[derive(Debug, Clone)]
pub struct ApiResponse<T> {
    pub status: String,
    pub code: OfsApiCode,
    pub message: String,
    pub data: Option<T>,
    pub errors: Option<Vec<ApiErrorDetail>>,
    pub request_id: Option<String>,
}

impl<T> ApiResponse<T> {
    /// A successful response carrying `data`.
    pub fn success(data: T) -> (r: Self)
        ensures
            r.status@ == "success"@,
            r.code == OfsApiCode::Success,
            r.message@ == Seq::<char>::empty(),
            r.data == Some(data),
            r.errors is None,
            r.request_id is None,
    {
        ApiResponse {
            status: String::from_str("success"),
            code: OfsApiCode::Success,
            message: String::new(),
            data: Some(data),
            errors: None,
            request_id: None,
        }
    }

    /// An error response with the given code and message.
    pub fn error(code: OfsApiCode, message: &str) -> (r: Self)
        ensures
            r.status@ == "error"@,
            r.code == code,
            r.message@ == message@,
            r.data is None,
            r.errors is None,
            r.request_id is None,
    {
        ApiResponse {
            status: String::from_str("error"),
            code,
            message: String::from_str(message),
            data: None,
            errors: None,
            request_id: None,
        }
    }

    /// This response with the given error details.
    pub fn with_errors(self, errors: Vec<ApiErrorDetail>) -> (r: Self)
        ensures
            r.status == self.status,
            r.code == self.code,
            r.message == self.message,
            r.data == self.data,
            r.errors == Some(errors),
            r.request_id == self.request_id,
    {
        let mut s = self;
        s.errors = Some(errors);
        s
    }

    /// This response tagged with a request id.
    pub fn with_request_id(self, request_id: String) -> (r: Self)
        ensures
            r.status == self.status,
            r.code == self.code,
            r.message == self.message,
            r.data == self.data,
            r.errors == self.errors,
            r.request_id == Some(request_id),
    {
        let mut s = self;
        s.request_id = Some(request_id);
        s
    }
}

/// One page of a longer list.
#[derive(Debug, Clone)]
pub struct PaginatedResponse<T> {
    pub data: Vec<T>,
    pub total: u64,
    pub page: u64,
    pub page_size: u64,
    pub has_more: bool,
}

impl<T> PaginatedResponse<T> {
    /// Page `page` (counted from 1) of `total` items, `page_size` to a page;
    /// there are more when the pages so far hold fewer than `total` items.
    pub fn new(data: Vec<T>, total: u64, page: u64, page_size: u64) -> (r: Self)
        requires
            page * page_size <= u64::MAX,
        ensures
            r.data == data,
            r.total == total,
            r.page == page,
            r.page_size == page_size,
            r.has_more == (page * page_size < total),
    {
        let has_more = (page * page_size) < total;
        PaginatedResponse { data, total, page, page_size, has_more }
    }
}

} // verus!
