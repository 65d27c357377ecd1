//! The compute API client core: it validates the credential, classifies
//! response statuses, and builds the exact request each remote operation
//! sends — method, route, query and body. Sending the request and decoding
//! the response body are the transport's work, outside this crate's logic.
use vstd::prelude::*;
use vstd::string::{StringExecFns, StringSliceAdditionalSpecFns};
use crate::compute::ComputeError;
use crate::compute::task_io::{TaskCreationInput, TaskRedoInput, TaskUpdateInput};
use crate::text::u32_to_decimal;

verus! {

/// The HTTP method of a request.
#[derive(Debug, Clone, Copy, PartialEq, Eq, Structural)]
pub enum Method {
    Get,
    Post,
    Put,
    Patch,
    Delete,
}

/// The body a request carries.
#[derive(Debug, Clone)]
pub enum RequestBody {
    /// No body at all.
    NoBody,
    /// An empty (null) JSON body.
    EmptyJson,
    /// A task creation payload.
    Task(TaskCreationInput),
    /// A retry/recover/resume payload.
    Redo(TaskRedoInput),
    /// A task update payload.
    Update(TaskUpdateInput),
}

/// One request against the compute API: everything the transport needs to
/// send it, short of the base URL and the credential header.
#[derive(Debug, Clone)]
pub struct Request {
    /// The HTTP method.
    pub method: Method,
    /// The route under the versioned base URL.
    pub route: String,
    /// The query pairs, if any.
    pub query: Vec<(String, String)>,
    /// The body, if any.
    pub body: RequestBody,
}

/// A byte the credential header may carry: horizontal tab or any byte from
/// space on, except delete.
pub open spec fn valid_header_byte(b: u8) -> bool {
    b == 9 || (32 <= b && b != 127)
}

/// Every byte of the credential is one a header value may carry.
pub open spec fn valid_header_value(bytes: Seq<u8>) -> bool {
    forall|i: int| 0 <= i < bytes.len() ==> valid_header_byte(bytes[i])
}

/// The compute API client: the versioned base URL and the credential that
/// every request is sent with.
#[derive(Debug, Clone)]
pub struct ComputeClient {
    /// Base URL of the compute API.
    pub compute_url: String,
    /// Version segment of the API.
    pub version: String,
    /// The credential sent as the authorization header. Never log it.
    pub api_key: String,
}

impl ComputeClient {
    /// A client for the given endpoint. A credential that cannot stand in a
    /// header (a control byte or delete) is rejected as unauthorized before
    /// any request is made.
    pub fn new(compute_url: String, version: String, api_key: &str) -> (r: Result<
        Self,
        ComputeError,
    >)
        ensures
            valid_header_value(api_key.spec_bytes()) ==> (r matches Ok(c) && c.compute_url
                == compute_url && c.version == version && c.api_key@ == api_key@),
            !valid_header_value(api_key.spec_bytes()) ==> r == Result::<
                Self,
                ComputeError,
            >::Err(ComputeError::Unauthorized),
    {
        let bytes = api_key.as_bytes();
        let n = bytes.len();
        let mut i: usize = 0;
        while i < n
            invariant
                i <= n,
                n == api_key.spec_bytes().len(),
                bytes@ == api_key.spec_bytes(),
                forall|j: int| 0 <= j < i ==> valid_header_byte(api_key.spec_bytes()[j]),
            decreases n - i,
        {
            let b = bytes[i];
            if !(b == 9 || (32 <= b && b != 127)) {
                return Err(ComputeError::Unauthorized);
            }
            i += 1;
        }
        Ok(ComputeClient { compute_url, version, api_key: api_key.to_owned() })
    }

    /// The full URL of a route: base URL, version segment and route, joined
    /// with slashes.
    pub fn full_url(&self, route: &str) -> (r: String)
        ensures
            r@ == self.compute_url@ + "/"@ + self.version@ + "/"@ + route@,
    {
        let mut s = self.compute_url.clone();
        s.append("/");
        s.append(self.version.as_str());
        s.append("/");
        s.append(route);
        s
    }

    /// Classifies a response status: 200 succeeds, 401, 403 and 404 map to
    /// their own errors, anything else is the generic failure.
    pub fn check_status(status: u16) -> (r: Result<(), ComputeError>)
        ensures
            status == 200 ==> r == Result::<(), ComputeError>::Ok(()),
            status == 401 ==> r == Result::<(), ComputeError>::Err(ComputeError::Unauthorized),
            status == 403 ==> r == Result::<(), ComputeError>::Err(ComputeError::Forbidden),
            status == 404 ==> r == Result::<(), ComputeError>::Err(ComputeError::NotFound),
            (status != 200 && status != 401 && status != 403 && status != 404) ==> r == Result::<
                (),
                ComputeError,
            >::Err(ComputeError::Generic),
    {
        if status == 200 {
            Ok(())
        } else if status == 401 {
            Err(ComputeError::Unauthorized)
        } else if status == 403 {
            Err(ComputeError::Forbidden)
        } else if status == 404 {
            Err(ComputeError::NotFound)
        } else {
            Err(ComputeError::Generic)
        }
    }

    /// The user-info request.
    pub fn get_user_info_request(&self) -> (r: Request)
        ensures
            r.method == Method::Get,
            r.route@ == "info"@,
            r.query@ == Seq::<(String, String)>::empty(),
            r.body is NoBody,
    {
        Request {
            method: Method::Get,
            route: "info".to_owned(),
            query: Vec::new(),
            body: RequestBody::NoBody,
        }
    }

    /// The API-versions request.
    pub fn get_versions_request(&self) -> (r: Request)
        ensures
            r.method == Method::Get,
            r.route@ == "versions"@,
            r.query@ == Seq::<(String, String)>::empty(),
            r.body is NoBody,
    {
        Request {
            method: Method::Get,
            route: "versions".to_owned(),
            query: Vec::new(),
            body: RequestBody::NoBody,
        }
    }

    /// The status probe: the bare versioned root.
    pub fn get_status_request(&self) -> (r: Request)
        ensures
            r.method == Method::Get,
            r.route@ == Seq::<char>::empty(),
            r.query@ == Seq::<(String, String)>::empty(),
            r.body is NoBody,
    {
        Request {
            method: Method::Get,
            route: String::new(),
            query: Vec::new(),
            body: RequestBody::NoBody,
        }
    }

    /// The task-listing request, optionally filtered by tags: one `tag`
    /// query pair per tag, in order.
    pub fn get_tasks_request(&self, tags: Option<&Vec<String>>) -> (r: Request)
        ensures
            r.method == Method::Get,
            r.route@ == "/tasks"@,
            r.body is NoBody,
            tag_query_matches(r.query@, tags),
    {
        Request {
            method: Method::Get,
            route: "/tasks".to_owned(),
            query: tag_query(tags),
            body: RequestBody::NoBody,
        }
    }

    /// The task-summaries request, optionally filtered by tags.
    pub fn get_tasks_summaries_request(&self, tags: Option<&Vec<String>>) -> (r: Request)
        ensures
            r.method == Method::Get,
            r.route@ == "/tasks/summaries"@,
            r.body is NoBody,
            tag_query_matches(r.query@, tags),
    {
        Request {
            method: Method::Get,
            route: "/tasks/summaries".to_owned(),
            query: tag_query(tags),
            body: RequestBody::NoBody,
        }
    }

    /// The single-task detail request.
    pub fn get_task_info_request(&self, uuid: &str) -> (r: Request)
        ensures
            r.method == Method::Get,
            r.route@ == "tasks/"@ + uuid@,
            r.query@ == Seq::<(String, String)>::empty(),
            r.body is NoBody,
    {
        let route = task_route(uuid, "");
        proof {
            reveal_strlit("");
            assert(route@ =~= "tasks/"@ + uuid@);
        }
        Request { method: Method::Get, route, query: Vec::new(), body: RequestBody::NoBody }
    }

    /// The hardware-constraint catalog request.
    pub fn get_hardware_constraints_request(&self) -> (r: Request)
        ensures
            r.method == Method::Get,
            r.route@ == "hardware-constraints"@,
            r.query@ == Seq::<(String, String)>::empty(),
            r.body is NoBody,
    {
        Request {
            method: Method::Get,
            route: "hardware-constraints".to_owned(),
            query: Vec::new(),
            body: RequestBody::NoBody,
        }
    }

    /// The profile-listing request.
    pub fn get_profiles_request(&self) -> (r: Request)
        ensures
            r.method == Method::Get,
            r.route@ == "profiles"@,
            r.query@ == Seq::<(String, String)>::empty(),
            r.body is NoBody,
    {
        Request {
            method: Method::Get,
            route: "profiles".to_owned(),
            query: Vec::new(),
            body: RequestBody::NoBody,
        }
    }

    /// The profile-detail request.
    pub fn get_profile_details_request(&self, profile_name: &str) -> (r: Request)
        ensures
            r.method == Method::Get,
            r.route@ == "profiles/"@ + profile_name@,
            r.query@ == Seq::<(String, String)>::empty(),
            r.body is NoBody,
    {
        let mut route = "profiles/".to_owned();
        route.append(profile_name);
        Request { method: Method::Get, route, query: Vec::new(), body: RequestBody::NoBody }
    }

    /// The public-settings request.
    pub fn get_settings_request(&self) -> (r: Request)
        ensures
            r.method == Method::Get,
            r.route@ == "settings"@,
            r.query@ == Seq::<(String, String)>::empty(),
            r.body is NoBody,
    {
        Request {
            method: Method::Get,
            route: "settings".to_owned(),
            query: Vec::new(),
            body: RequestBody::NoBody,
        }
    }

    /// The task submission request, carrying the creation payload.
    pub fn post_task_request(&self, task: TaskCreationInput) -> (r: Request)
        ensures
            r.method == Method::Post,
            r.route@ == "tasks"@,
            r.query@ == Seq::<(String, String)>::empty(),
            r.body == RequestBody::Task(task),
    {
        Request {
            method: Method::Post,
            route: "tasks".to_owned(),
            query: Vec::new(),
            body: RequestBody::Task(task),
        }
    }

    /// The task retry request, carrying the redo payload.
    pub fn post_retry_task_request(&self, uuid: &str, task: TaskRedoInput) -> (r: Request)
        ensures
            r.method == Method::Post,
            r.route@ == "tasks/"@ + uuid@ + "/retry"@,
            r.query@ == Seq::<(String, String)>::empty(),
            r.body == RequestBody::Redo(task),
    {
        Request {
            method: Method::Post,
            route: task_route(uuid, "/retry"),
            query: Vec::new(),
            body: RequestBody::Redo(task),
        }
    }

    /// The task recover request, carrying the redo payload.
    pub fn post_recover_task_request(&self, uuid: &str, task: TaskRedoInput) -> (r: Request)
        ensures
            r.method == Method::Post,
            r.route@ == "tasks/"@ + uuid@ + "/recover"@,
            r.query@ == Seq::<(String, String)>::empty(),
            r.body == RequestBody::Redo(task),
    {
        Request {
            method: Method::Post,
            route: task_route(uuid, "/recover"),
            query: Vec::new(),
            body: RequestBody::Redo(task),
        }
    }

    /// The task resume request, carrying the redo payload.
    pub fn post_resume_task_request(&self, uuid: &str, task: TaskRedoInput) -> (r: Request)
        ensures
            r.method == Method::Post,
            r.route@ == "tasks/"@ + uuid@ + "/resume"@,
            r.query@ == Seq::<(String, String)>::empty(),
            r.body == RequestBody::Redo(task),
    {
        Request {
            method: Method::Post,
            route: task_route(uuid, "/resume"),
            query: Vec::new(),
            body: RequestBody::Redo(task),
        }
    }

    /// The task update request: a PUT of the mutable trio.
    pub fn put_update_task_request(&self, uuid: &str, task: TaskUpdateInput) -> (r: Request)
        ensures
            r.method == Method::Put,
            r.route@ == "tasks/"@ + uuid@,
            r.query@ == Seq::<(String, String)>::empty(),
            r.body == RequestBody::Update(task),
    {
        let route = task_route(uuid, "");
        proof {
            reveal_strlit("");
            assert(route@ =~= "tasks/"@ + uuid@);
        }
        Request { method: Method::Put, route, query: Vec::new(), body: RequestBody::Update(task) }
    }

    /// The resource-resync trigger: a bare PATCH of the task.
    pub fn patch_update_task_resources_request(&self, uuid: &str) -> (r: Request)
        ensures
            r.method == Method::Patch,
            r.route@ == "tasks/"@ + uuid@,
            r.query@ == Seq::<(String, String)>::empty(),
            r.body is NoBody,
    {
        let route = task_route(uuid, "");
        proof {
            reveal_strlit("");
            assert(route@ =~= "tasks/"@ + uuid@);
        }
        Request { method: Method::Patch, route, query: Vec::new(), body: RequestBody::NoBody }
    }

    /// The task deletion request.
    pub fn delete_task_request(&self, uuid: &str) -> (r: Request)
        ensures
            r.method == Method::Delete,
            r.route@ == "tasks/"@ + uuid@,
            r.query@ == Seq::<(String, String)>::empty(),
            r.body is NoBody,
    {
        let route = task_route(uuid, "");
        proof {
            reveal_strlit("");
            assert(route@ =~= "tasks/"@ + uuid@);
        }
        Request { method: Method::Delete, route, query: Vec::new(), body: RequestBody::NoBody }
    }

    /// The task abort request: a POST with an empty JSON body.
    pub fn post_abort_task_request(&self, uuid: &str) -> (r: Request)
        ensures
            r.method == Method::Post,
            r.route@ == "tasks/"@ + uuid@ + "/abort"@,
            r.query@ == Seq::<(String, String)>::empty(),
            r.body is EmptyJson,
    {
        Request {
            method: Method::Post,
            route: task_route(uuid, "/abort"),
            query: Vec::new(),
            body: RequestBody::EmptyJson,
        }
    }

    /// The full-stdout request of a task.
    pub fn get_task_stdout_request(&self, uuid: &str) -> (r: Request)
        ensures
            r.method == Method::Get,
            r.route@ == "tasks/"@ + uuid@ + "/stdout"@,
            r.query@ == Seq::<(String, String)>::empty(),
            r.body is NoBody,
    {
        Request {
            method: Method::Get,
            route: task_route(uuid, "/stdout"),
            query: Vec::new(),
            body: RequestBody::NoBody,
        }
    }

    /// The full-stderr request of a task.
    pub fn get_task_stderr_request(&self, uuid: &str) -> (r: Request)
        ensures
            r.method == Method::Get,
            r.route@ == "tasks/"@ + uuid@ + "/stderr"@,
            r.query@ == Seq::<(String, String)>::empty(),
            r.body is NoBody,
    {
        Request {
            method: Method::Get,
            route: task_route(uuid, "/stderr"),
            query: Vec::new(),
            body: RequestBody::NoBody,
        }
    }

    /// The last-chunk stdout request of a task: what arrived since the
    /// previous fetch.
    pub fn post_task_last_stdout_request(&self, uuid: &str) -> (r: Request)
        ensures
            r.method == Method::Post,
            r.route@ == "tasks/"@ + uuid@ + "/stdout"@,
            r.query@ == Seq::<(String, String)>::empty(),
            r.body is NoBody,
    {
        Request {
            method: Method::Post,
            route: task_route(uuid, "/stdout"),
            query: Vec::new(),
            body: RequestBody::NoBody,
        }
    }

    /// The last-chunk stderr request of a task.
    pub fn post_task_last_stderr_request(&self, uuid: &str) -> (r: Request)
        ensures
            r.method == Method::Post,
            r.route@ == "tasks/"@ + uuid@ + "/stderr"@,
            r.query@ == Seq::<(String, String)>::empty(),
            r.body is NoBody,
    {
        Request {
            method: Method::Post,
            route: task_route(uuid, "/stderr"),
            query: Vec::new(),
            body: RequestBody::NoBody,
        }
    }

    /// The full-stdout request of one instance.
    pub fn get_instance_stdout_request(&self, uuid: &str, instance_id: u32) -> (r: Request)
        ensures
            r.method == Method::Get,
            r.route@ == "tasks/"@ + uuid@ + "/stdout/"@ + crate::text::spec_decimal(
                instance_id as nat,
            ),
            r.query@ == Seq::<(String, String)>::empty(),
            r.body is NoBody,
    {
        Request {
            method: Method::Get,
            route: instance_route(uuid, "/stdout/", instance_id),
            query: Vec::new(),
            body: RequestBody::NoBody,
        }
    }

    /// The full-stderr request of one instance.
    pub fn get_instance_stderr_request(&self, uuid: &str, instance_id: u32) -> (r: Request)
        ensures
            r.method == Method::Get,
            r.route@ == "tasks/"@ + uuid@ + "/stderr/"@ + crate::text::spec_decimal(
                instance_id as nat,
            ),
            r.query@ == Seq::<(String, String)>::empty(),
            r.body is NoBody,
    {
        Request {
            method: Method::Get,
            route: instance_route(uuid, "/stderr/", instance_id),
            query: Vec::new(),
            body: RequestBody::NoBody,
        }
    }

    /// The last-chunk stdout request of one instance.
    pub fn post_instance_last_stdout_request(&self, uuid: &str, instance_id: u32) -> (r: Request)
        ensures
            r.method == Method::Post,
            r.route@ == "tasks/"@ + uuid@ + "/stdout/"@ + crate::text::spec_decimal(
                instance_id as nat,
            ),
            r.query@ == Seq::<(String, String)>::empty(),
            r.body is NoBody,
    {
        Request {
            method: Method::Post,
            route: instance_route(uuid, "/stdout/", instance_id),
            query: Vec::new(),
            body: RequestBody::NoBody,
        }
    }

    /// The last-chunk stderr request of one instance.
    pub fn post_instance_last_stderr_request(&self, uuid: &str, instance_id: u32) -> (r: Request)
        ensures
            r.method == Method::Post,
            r.route@ == "tasks/"@ + uuid@ + "/stderr/"@ + crate::text::spec_decimal(
                instance_id as nat,
            ),
            r.query@ == Seq::<(String, String)>::empty(),
            r.body is NoBody,
    {
        Request {
            method: Method::Post,
            route: instance_route(uuid, "/stderr/", instance_id),
            query: Vec::new(),
            body: RequestBody::NoBody,
        }
    }
}

/// The query is one `tag` pair per given tag, in order; no tags, no query.
pub open spec fn tag_query_matches(query: Seq<(String, String)>, tags: Option<&Vec<String>>) -> bool {
    match tags {
        Option::None => query.len() == 0,
        Option::Some(ts) => query.len() == ts@.len() && forall|i: int|
            0 <= i < query.len() ==> (#[trigger] query[i]).0@ == "tag"@ && query[i].1 == ts@[i],
    }
}

/// Builds the tag-filter query pairs.
fn tag_query(tags: Option<&Vec<String>>) -> (r: Vec<(String, String)>)
    ensures
        tag_query_matches(r@, tags),
{
    match tags {
        None => Vec::new(),
        Some(ts) => {
            let mut out: Vec<(String, String)> = Vec::new();
            let n = ts.len();
            let mut i: usize = 0;
            while i < n
                invariant
                    i <= n,
                    n == ts@.len(),
                    out@.len() == i,
                    forall|j: int|
                        0 <= j < i ==> (#[trigger] out@[j]).0@ == "tag"@ && out@[j].1 == ts@[j],
                decreases n - i,
            {
                out.push(("tag".to_owned(), ts[i].clone()));
                i += 1;
            }
            out
        },
    }
}

/// The route of one task, with a suffix.
fn task_route(uuid: &str, suffix: &str) -> (r: String)
    ensures
        r@ == "tasks/"@ + uuid@ + suffix@,
{
    let mut s = "tasks/".to_owned();
    s.append(uuid);
    s.append(suffix);
    s
}

/// The route of one instance's log stream.
fn instance_route(uuid: &str, suffix: &str, instance_id: u32) -> (r: String)
    ensures
        r@ == "tasks/"@ + uuid@ + suffix@ + crate::text::spec_decimal(instance_id as nat),
{
    let mut s = task_route(uuid, suffix);
    let d = u32_to_decimal(instance_id);
    s.append(d.as_str());
    s
}

} // verus!
