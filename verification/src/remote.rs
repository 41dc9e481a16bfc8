//! Talking to the conversion service: the requests to send, and what each kind of reply means
//! for the file being converted. Sending and receiving is left to the caller.

use vstd::prelude::*;
use vstd::string::StringExecFns;
use crate::error::{invalid_response, JobError};
use crate::serve_config::DoclingServeConfig;

verus! {

/// What came of one exchange with the service.
#[derive(Debug)]
pub enum Reply<T> {
    /// No answer came; the text says why.
    Unreachable(String),
    /// The service answered with a status other than success.
    Rejected { status: String, body: String },
    /// The service answered with success, but the body could not be read as expected.
    Malformed(String),
    /// The service answered with success and this content.
    Accepted(T),
}

/// The exchanges whose reply decides how a conversion goes on.
#[derive(Debug, Clone, Copy, PartialEq, Eq, Structural)]
pub enum Exchange {
    /// Uploading a file and waiting for its result.
    Convert,
    /// Uploading a file as a job.
    Submit,
    /// Asking for the status of a job.
    Poll,
    /// Fetching the result of a finished job.
    Fetch,
}

/// The message of the failure that `reply` means in `exchange`; an accepted reply means none.
pub open spec fn failure_message<T>(exchange: Exchange, reply: Reply<T>) -> Option<Seq<char>> {
    match reply {
        Reply::Unreachable(reason) => Some(
            match exchange {
                Exchange::Convert => "Failed to send request to docling-serve: "@ + reason@,
                Exchange::Submit => "Failed to send async request: "@ + reason@,
                Exchange::Poll => "Failed to poll task status: "@ + reason@,
                Exchange::Fetch => "Failed to get task result: "@ + reason@,
            },
        ),
        Reply::Rejected { status, body } => Some(
            match exchange {
                Exchange::Convert => "Docling-serve returned error "@ + status@ + ": "@ + body@,
                Exchange::Submit => "Failed to submit async task: "@ + body@,
                Exchange::Poll => "Task status polling failed: "@ + body@,
                Exchange::Fetch => "Failed to get task result: "@ + body@,
            },
        ),
        Reply::Malformed(reason) => Some(
            match exchange {
                Exchange::Convert => "Failed to parse docling-serve response: "@ + reason@,
                Exchange::Submit => "Failed to parse task response: "@ + reason@,
                Exchange::Poll => "Failed to parse status response: "@ + reason@,
                Exchange::Fetch => "Failed to parse result: "@ + reason@,
            },
        ),
        Reply::Accepted(_) => None,
    }
}

/// Takes the content out of an accepted reply and turns every other reply into the failure
/// of the file being converted, with the message that belongs to the exchange.
pub fn accept<T>(exchange: Exchange, reply: Reply<T>) -> (content: Result<T, JobError>)
    ensures
        content is Ok == reply is Accepted,
        content matches Ok(inner) ==> reply == Reply::Accepted(inner),
        content matches Err(error) ==> error == JobError::InvalidResponse(error->InvalidResponse_0)
            && Some(error.message()) == failure_message(exchange, reply),
{
    match reply {
        Reply::Unreachable(reason) => Err(
            match exchange {
                Exchange::Convert => invalid_response(
                    "Failed to send request to docling-serve: ",
                    reason.as_str(),
                ),
                Exchange::Submit => invalid_response(
                    "Failed to send async request: ",
                    reason.as_str(),
                ),
                Exchange::Poll => invalid_response("Failed to poll task status: ", reason.as_str()),
                Exchange::Fetch => invalid_response("Failed to get task result: ", reason.as_str()),
            },
        ),
        Reply::Rejected { status, body } => Err(
            match exchange {
                Exchange::Convert => {
                    let mut prefix = String::from_str("Docling-serve returned error ");
                    prefix.append(status.as_str());
                    prefix.append(": ");
                    invalid_response(prefix.as_str(), body.as_str())
                },
                Exchange::Submit => invalid_response(
                    "Failed to submit async task: ",
                    body.as_str(),
                ),
                Exchange::Poll => invalid_response("Task status polling failed: ", body.as_str()),
                Exchange::Fetch => invalid_response("Failed to get task result: ", body.as_str()),
            },
        ),
        Reply::Malformed(reason) => Err(
            match exchange {
                Exchange::Convert => invalid_response(
                    "Failed to parse docling-serve response: ",
                    reason.as_str(),
                ),
                Exchange::Submit => invalid_response(
                    "Failed to parse task response: ",
                    reason.as_str(),
                ),
                Exchange::Poll => invalid_response(
                    "Failed to parse status response: ",
                    reason.as_str(),
                ),
                Exchange::Fetch => invalid_response("Failed to parse result: ", reason.as_str()),
            },
        ),
        Reply::Accepted(inner) => Ok(inner),
    }
}

/// The message of the failure that the reply to the health probe means for the whole batch:
/// a service that cannot be reached or that answers with an error. A body that cannot be
/// read is no failure.
pub open spec fn health_failure<T>(base_url: Seq<char>, reply: Reply<T>) -> Option<Seq<char>> {
    match reply {
        Reply::Unreachable(_) => Some(
            "Docling-serve is not available at "@ + base_url
                + ". Please start the service or check the URL."@,
        ),
        Reply::Rejected { status, body } => Some(
            "Docling-serve health check failed with status: "@ + status@,
        ),
        _ => None,
    }
}

/// The name of the header that carries the bearer token.
pub const AUTHORIZATION: &'static str = "Authorization";

/// A request that uploads one file together with the conversion options.
#[derive(Debug)]
pub struct Upload {
    pub url: String,
    pub authorization: Option<String>,
    pub file_part: &'static str,
    pub file_name: String,
    pub fields: Vec<(&'static str, String)>,
}

/// A request that only asks.
#[derive(Debug)]
pub struct Query {
    pub url: String,
    pub authorization: Option<String>,
}

/// The name under which a file is uploaded: its own, or `document` where it has none.
pub open spec fn upload_name(file_name: Option<Seq<char>>) -> Seq<char> {
    match file_name {
        Some(name) => name,
        None => "document"@,
    }
}

impl Query {
    /// Whether the request goes to `url` with the header `authorization`.
    pub open spec fn is(&self, url: Seq<char>, authorization: Option<Seq<char>>) -> bool {
        &&& self.url@ == url
        &&& self.authorization is Some == authorization is Some
        &&& self.authorization matches Some(value) ==> Some(value@) == authorization
    }
}

impl DoclingServeConfig {
    /// Whether `upload` is the request that sends the file named `file_name` for conversion
    /// with these options: to the conversion endpoint, with the bearer token where a key is
    /// set, the file as the part `files`, and every option as a form field.
    pub open spec fn uploads(&self, upload: Upload, file_name: Option<Seq<char>>) -> bool {
        &&& upload.url@ == self.convert_endpoint()
        &&& upload.authorization is Some == self.authorization() is Some
        &&& upload.authorization matches Some(value) ==> Some(value@) == self.authorization()
        &&& upload.file_part@ == "files"@
        &&& upload.file_name@ == upload_name(file_name)
        &&& upload.fields.deep_view() == self.form_fields()
    }

    /// Builds the request that sends a file for conversion, to be answered with the result
    /// or, where jobs are used, with the job.
    pub fn upload_request(&self, file_name: Option<&str>) -> (upload: Upload)
        ensures
            self.uploads(
                upload,
                match file_name {
                    Some(name) => Some(name@),
                    None => None,
                },
            ),
    {
        Upload {
            url: self.get_convert_endpoint(),
            authorization: self.authorization_header(),
            file_part: "files",
            file_name: match file_name {
                Some(name) => String::from_str(name),
                None => String::from_str("document"),
            },
            fields: self.build_form_data(),
        }
    }

    /// Builds the request that asks for the status of the job `task_id`.
    pub fn status_request(&self, task_id: &str) -> (query: Query)
        ensures
            query.is(self.status_endpoint(task_id@), self.authorization()),
    {
        Query { url: self.get_status_endpoint(task_id), authorization: self.authorization_header() }
    }

    /// Builds the request that fetches the result of the job `task_id`.
    pub fn result_request(&self, task_id: &str) -> (query: Query)
        ensures
            query.is(self.result_endpoint(task_id@), self.authorization()),
    {
        Query { url: self.get_result_endpoint(task_id), authorization: self.authorization_header() }
    }

    /// Builds the request that probes whether the service is up.
    pub fn health_request(&self) -> (query: Query)
        ensures
            query.is(self.health_endpoint(), self.authorization()),
    {
        Query { url: self.get_health_endpoint(), authorization: self.authorization_header() }
    }

    /// Decides from the reply to the health probe whether the batch may start. A service that
    /// cannot be reached, or that answers with an error, stops the batch before any file is
    /// converted.
    pub fn check_service_availability<T>(&self, reply: &Reply<T>) -> (usable: Result<(), JobError>)
        ensures
            usable is Err == health_failure(self.base_url@, *reply) is Some,
            usable matches Err(error) ==> error == JobError::InvalidResponse(
                error->InvalidResponse_0,
            ) && Some(error.message()) == health_failure(self.base_url@, *reply),
    {
        match reply {
            Reply::Unreachable(_) => {
                let mut prefix = String::from_str("Docling-serve is not available at ");
                prefix.append(self.base_url.as_str());
                Err(
                    invalid_response(
                        prefix.as_str(),
                        ". Please start the service or check the URL.",
                    ),
                )
            },
            Reply::Rejected { status, body } => Err(
                invalid_response(
                    "Docling-serve health check failed with status: ",
                    status.as_str(),
                ),
            ),
            _ => Ok(()),
        }
    }
}

} // verus!
