//! The tasks of a connector: their statuses, and the task operations.
use vstd::prelude::*;
use vstd::string::*;
use crate::connect::{collection_url, config_of, connector_url, decode_config_value, opt_view, ConnectorConfig};
use crate::decode::{
    document, field_at, get_field, get_opt_str, get_str, get_uint, lemma_prepend_done,
    lemma_prepend_empty, lemma_prepend_step, opt_str_field, prepend, read_document, str_field,
    uint_field, DecodeError, DecodeFault, JsonKind,
};
use crate::http::{
    check_reply, decimal, decimal_text, join, outcome, reply_body, reply_failure, ApiError, ApiFault,
    HttpReply, Method, Request,
};
use crate::json::{json_view, JsonV};
use crate::text::str_eq;

pub use crate::connect::Task;

verus! {

/// The state of a task.
#[derive(Clone, Copy, Debug, PartialEq, Eq, Structural)]
pub enum TaskState {
    Running,
    Failed,
    Paused,
    Restarting,
    Lost,
    Created,
    Dead,
}

/// The task state that an API token names, if any.
pub open spec fn parse_task_state(t: Seq<char>) -> Option<TaskState> {
    if t == "RUNNING"@ {
        Some(TaskState::Running)
    } else if t == "FAILED"@ {
        Some(TaskState::Failed)
    } else if t == "PAUSED"@ {
        Some(TaskState::Paused)
    } else if t == "RESTARTING"@ {
        Some(TaskState::Restarting)
    } else if t == "LOST"@ {
        Some(TaskState::Lost)
    } else if t == "CREATED"@ {
        Some(TaskState::Created)
    } else if t == "DEAD"@ {
        Some(TaskState::Dead)
    } else {
        None
    }
}

/// The API token of a task state.
pub open spec fn task_state_token(s: TaskState) -> Seq<char> {
    match s {
        TaskState::Running => "RUNNING"@,
        TaskState::Failed => "FAILED"@,
        TaskState::Paused => "PAUSED"@,
        TaskState::Restarting => "RESTARTING"@,
        TaskState::Lost => "LOST"@,
        TaskState::Created => "CREATED"@,
        TaskState::Dead => "DEAD"@,
    }
}

impl TaskState {
    /// Reads an API token; any text but the seven upper-case tokens is refused.
    pub fn from_str(input: &str) -> (r: Option<TaskState>)
        ensures
            r == parse_task_state(input@),
    {
        if str_eq(input, "RUNNING") {
            Some(TaskState::Running)
        } else if str_eq(input, "FAILED") {
            Some(TaskState::Failed)
        } else if str_eq(input, "PAUSED") {
            Some(TaskState::Paused)
        } else if str_eq(input, "RESTARTING") {
            Some(TaskState::Restarting)
        } else if str_eq(input, "LOST") {
            Some(TaskState::Lost)
        } else if str_eq(input, "CREATED") {
            Some(TaskState::Created)
        } else if str_eq(input, "DEAD") {
            Some(TaskState::Dead)
        } else {
            None
        }
    }

    /// The API token of the state.
    pub fn as_str(&self) -> (r: &'static str)
        ensures
            r@ == task_state_token(*self),
    {
        match self {
            TaskState::Running => "RUNNING",
            TaskState::Failed => "FAILED",
            TaskState::Paused => "PAUSED",
            TaskState::Restarting => "RESTARTING",
            TaskState::Lost => "LOST",
            TaskState::Created => "CREATED",
            TaskState::Dead => "DEAD",
        }
    }
}

/// The status of one task.
#[derive(Debug, PartialEq)]
pub struct TaskStatus {
    pub id: usize,
    pub state: TaskState,
    pub worker_id: String,
    pub trace: Option<String>,
}

/// The model of a [`TaskStatus`].
pub struct TaskStatusV {
    pub id: nat,
    pub state: TaskState,
    pub worker_id: Seq<char>,
    pub trace: Option<Seq<char>>,
}

impl View for TaskStatus {
    type V = TaskStatusV;

    open spec fn view(&self) -> TaskStatusV {
        TaskStatusV { id: self.id as nat, state: self.state, worker_id: self.worker_id@, trace: opt_view(self.trace) }
    }
}

/// Which task of which connector.
#[derive(Debug, PartialEq)]
pub struct TaskID {
    pub connector: String,
    pub task: usize,
}

/// One task as the task listing returns it: its identity and its settings.
#[derive(Debug, PartialEq)]
pub struct TaskResponse {
    pub id: TaskID,
    pub config: ConnectorConfig,
}

/// The model of a [`TaskResponse`].
pub struct TaskResponseV {
    pub connector: Seq<char>,
    pub task: nat,
    pub config: Seq<(Seq<char>, Seq<char>)>,
}

impl View for TaskResponse {
    type V = TaskResponseV;

    open spec fn view(&self) -> TaskResponseV {
        TaskResponseV { connector: self.id.connector@, task: self.id.task as nat, config: self.config@ }
    }
}

/// A task's status: `id`, `state`, `worker_id` and an optional `trace`.
pub open spec fn task_status_of(v: JsonV) -> Result<TaskStatusV, DecodeFault> {
    match uint_field(v, "id"@, "id"@) {
        Err(e) => Err(e),
        Ok(id) => match str_field(v, "state"@, "state"@) {
            Err(e) => Err(e),
            Ok(t) => match parse_task_state(t) {
                None => Err(DecodeFault::UnknownValue("state"@, t)),
                Some(state) => match str_field(v, "worker_id"@, "worker_id"@) {
                    Err(e) => Err(e),
                    Ok(worker_id) => match opt_str_field(v, "trace"@, "trace"@) {
                        Err(e) => Err(e),
                        Ok(trace) => Ok(TaskStatusV { id, state, worker_id, trace }),
                    },
                },
            },
        },
    }
}

/// The task status that a reply body holds.
pub open spec fn task_status_text(body: Seq<char>) -> Result<TaskStatusV, DecodeFault> {
    match document(body) {
        Err(e) => Err(e),
        Ok(doc) => task_status_of(doc),
    }
}

/// One entry of the task listing: `id.connector`, `id.task`, then `config`.
pub open spec fn task_response_of(v: JsonV) -> Result<TaskResponseV, DecodeFault> {
    match field_at(v, "id"@, "id"@) {
        Err(e) => Err(e),
        Ok(id) => match str_field(id, "connector"@, "id.connector"@) {
            Err(e) => Err(e),
            Ok(connector) => match uint_field(id, "task"@, "id.task"@) {
                Err(e) => Err(e),
                Ok(task) => match field_at(v, "config"@, "config"@) {
                    Err(e) => Err(e),
                    Ok(c) => match config_of(c, "config"@) {
                        Err(e) => Err(e),
                        Ok(config) => Ok(TaskResponseV { connector, task, config }),
                    },
                },
            },
        },
    }
}

/// The entries of the task listing, or the first one's error.
pub open spec fn task_responses(items: Seq<JsonV>) -> Result<Seq<TaskResponseV>, DecodeFault>
    decreases items.len(),
{
    if items.len() == 0 {
        Ok(Seq::empty())
    } else {
        match task_response_of(items[0]) {
            Err(e) => Err(e),
            Ok(t) => prepend(seq![t], task_responses(items.drop_first())),
        }
    }
}

/// The task listing that a reply body holds: a JSON array.
pub open spec fn task_list_text(body: Seq<char>) -> Result<Seq<TaskResponseV>, DecodeFault> {
    match document(body) {
        Err(e) => Err(e),
        Ok(JsonV::Array(items)) => task_responses(items),
        Ok(_) => Err(DecodeFault::WrongKind(Seq::empty(), JsonKind::Array)),
    }
}

/// Decodes a task's status.
pub fn decode_task_status_value(v: &serde_json::Value) -> (r: Result<TaskStatus, DecodeError>)
    ensures
        match r {
            Ok(t) => task_status_of(json_view(*v)) == Ok::<TaskStatusV, DecodeFault>(t@),
            Err(e) => task_status_of(json_view(*v)) == Err::<TaskStatusV, DecodeFault>(e@),
        },
{
    let id = get_uint(v, "id", "id")?;
    let t = get_str(v, "state", "state")?;
    let state = match TaskState::from_str(t.as_str()) {
        Some(s) => s,
        None => {
            return Err(DecodeError::UnknownValue { path: "state".to_owned(), value: t });
        },
    };
    let worker_id = get_str(v, "worker_id", "worker_id")?;
    let trace = get_opt_str(v, "trace", "trace")?;
    Ok(TaskStatus { id, state, worker_id, trace })
}

/// Decodes a reply body that holds a task's status.
pub fn decode_task_status(body: &str) -> (r: Result<TaskStatus, DecodeError>)
    ensures
        match r {
            Ok(t) => task_status_text(body@) == Ok::<TaskStatusV, DecodeFault>(t@),
            Err(e) => task_status_text(body@) == Err::<TaskStatusV, DecodeFault>(e@),
        },
{
    let doc = read_document(body)?;
    decode_task_status_value(&doc)
}

/// Decodes one entry of the task listing.
pub fn decode_task_response(v: &serde_json::Value) -> (r: Result<TaskResponse, DecodeError>)
    ensures
        r matches Ok(t) ==> t.config.wf(),
        match r {
            Ok(t) => task_response_of(json_view(*v)) == Ok::<TaskResponseV, DecodeFault>(t@),
            Err(e) => task_response_of(json_view(*v)) == Err::<TaskResponseV, DecodeFault>(e@),
        },
{
    let id = get_field(v, "id", "id")?;
    let connector = get_str(id, "connector", "id.connector")?;
    let task = get_uint(id, "task", "id.task")?;
    let c = get_field(v, "config", "config")?;
    let config = decode_config_value(c, "config")?;
    Ok(TaskResponse { id: TaskID { connector, task }, config })
}

/// Decodes a reply body that lists a connector's tasks.
pub fn decode_task_list(body: &str) -> (r: Result<Vec<TaskResponse>, DecodeError>)
    ensures
        r matches Ok(ts) ==> forall|i: int| 0 <= i < ts@.len() ==> (#[trigger] ts@[i]).config.wf(),
        match r {
            Ok(ts) => task_list_text(body@) == Ok::<Seq<TaskResponseV>, DecodeFault>(ts@.map_values(|t: TaskResponse| t@)),
            Err(e) => task_list_text(body@) == Err::<Seq<TaskResponseV>, DecodeFault>(e@),
        },
{
    let doc = read_document(body)?;
    let items = match doc.as_array() {
        Some(a) => a,
        None => {
            return Err(DecodeError::WrongKind { path: String::new(), expected: JsonKind::Array });
        },
    };
    let ghost js = items@.map_values(|x: serde_json::Value| json_view(x));
    let mut out: Vec<TaskResponse> = Vec::new();
    let mut i: usize = 0;
    proof {
        assert(js.skip(0) =~= js);
        lemma_prepend_empty(task_responses(js));
    }
    while i < items.len()
        invariant
            js == items@.map_values(|x: serde_json::Value| json_view(x)),
            task_list_text(body@) == task_responses(js),
            i <= items@.len(),
            forall|j: int| 0 <= j < out@.len() ==> (#[trigger] out@[j]).config.wf(),
            task_responses(js) == prepend(out@.map_values(|t: TaskResponse| t@), task_responses(js.skip(i as int))),
        decreases items.len() - i,
    {
        let ghost before = out@.map_values(|t: TaskResponse| t@);
        proof {
            assert(js.skip(i as int).drop_first() =~= js.skip(i + 1));
            assert(js.skip(i as int)[0] == js[i as int]);
        }
        let t = decode_task_response(&items[i])?;
        proof {
            lemma_prepend_step(before, t@, task_responses(js.skip(i + 1)));
        }
        out.push(t);
        proof {
            assert(out@.map_values(|t: TaskResponse| t@) =~= before.push(t@));
        }
        i = i + 1;
    }
    proof {
        assert(js.skip(i as int) =~= Seq::<JsonV>::empty());
        lemma_prepend_done(out@.map_values(|t: TaskResponse| t@));
    }
    Ok(out)
}

/// The URL of the connector collection under `uri`.
pub fn valid_uri(uri: &str) -> (r: String)
    ensures
        r@ == collection_url(uri@),
{
    join(uri, "connectors")
}

/// The URL of a task's sub-resource.
pub open spec fn task_url(host: Seq<char>, name: Seq<char>, task_id: nat, suffix: Seq<char>) -> Seq<char> {
    connector_url(host, name, "/tasks/"@) + decimal_text(task_id) + suffix
}

fn task_request(method: Method, host: &str, connector_name: &str, task_id: usize, suffix: &str) -> (r: Request)
    ensures
        r@.method == method,
        r@.url == task_url(host@, connector_name@, task_id as nat, suffix@),
        r@.query.len() == 0,
{
    let mut url = valid_uri(host);
    url.append("/");
    url.append(connector_name);
    url.append("/tasks/");
    let n = decimal(task_id);
    url.append(n.as_str());
    url.append(suffix);
    Request { method, url, query: Vec::new() }
}

/// `GET` on the connector's tasks.
pub fn list_tasks_request(host: &str, connector_name: &str) -> (r: Request)
    ensures
        r@.method == Method::Get,
        r@.url == connector_url(host@, connector_name@, "/tasks"@),
        r@.query.len() == 0,
{
    let mut url = valid_uri(host);
    url.append("/");
    url.append(connector_name);
    url.append("/tasks");
    Request { method: Method::Get, url, query: Vec::new() }
}

/// `GET` on a task's status.
pub fn task_status_request(host: &str, connector_name: &str, task_id: usize) -> (r: Request)
    ensures
        r@.method == Method::Get,
        r@.url == task_url(host@, connector_name@, task_id as nat, "/status"@),
        r@.query.len() == 0,
{
    task_request(Method::Get, host, connector_name, task_id, "/status")
}

/// `POST` on a task's restart resource.
pub fn restart_task_request(host: &str, connector_name: &str, task_id: usize) -> (r: Request)
    ensures
        r@.method == Method::Post,
        r@.url == task_url(host@, connector_name@, task_id as nat, "/restart"@),
        r@.query.len() == 0,
{
    task_request(Method::Post, host, connector_name, task_id, "/restart")
}

/// Reads the reply of the task listing: 404 means the connector does not exist.
pub fn list_tasks(connector_name: &str, reply: &HttpReply) -> (r: Result<Vec<TaskResponse>, ApiError>)
    ensures
        r matches Ok(ts) ==> forall|i: int| 0 <= i < ts@.len() ==> (#[trigger] ts@[i]).config.wf(),
        match r {
            Ok(ts) => outcome(reply@, task_list_text(reply_body(reply@)), Some(ApiFault::ConnectorNotFound(connector_name@)))
                == Ok::<Seq<TaskResponseV>, ApiFault>(ts@.map_values(|t: TaskResponse| t@)),
            Err(e) => outcome(reply@, task_list_text(reply_body(reply@)), Some(ApiFault::ConnectorNotFound(connector_name@)))
                == Err::<Seq<TaskResponseV>, ApiFault>(e@),
        },
{
    let body = check_reply(reply, Some(ApiError::ConnectorNotFound { name: connector_name.to_owned() }))?;
    match decode_task_list(body.as_str()) {
        Ok(ts) => Ok(ts),
        Err(e) => Err(ApiError::MalformedResponse { error: e, body: body.clone() }),
    }
}

/// Reads the reply of a task status query: 404 means the task does not exist.
pub fn task_status(connector_name: &str, task_id: usize, reply: &HttpReply) -> (r: Result<TaskStatus, ApiError>)
    ensures
        match r {
            Ok(t) => outcome(reply@, task_status_text(reply_body(reply@)), Some(ApiFault::TaskNotFound(connector_name@, task_id as nat)))
                == Ok::<TaskStatusV, ApiFault>(t@),
            Err(e) => outcome(reply@, task_status_text(reply_body(reply@)), Some(ApiFault::TaskNotFound(connector_name@, task_id as nat)))
                == Err::<TaskStatusV, ApiFault>(e@),
        },
{
    let body = check_reply(reply, Some(ApiError::TaskNotFound { connector: connector_name.to_owned(), task: task_id }))?;
    match decode_task_status(body.as_str()) {
        Ok(t) => Ok(t),
        Err(e) => Err(ApiError::MalformedResponse { error: e, body: body.clone() }),
    }
}

/// Reads the reply of a task restart: 404 means the task does not exist.
pub fn restart_task(connector_name: &str, task_id: usize, reply: &HttpReply) -> (r: Result<(), ApiError>)
    ensures
        match r {
            Ok(_) => reply_failure(reply@, Some(ApiFault::TaskNotFound(connector_name@, task_id as nat))) is None,
            Err(e) => reply_failure(reply@, Some(ApiFault::TaskNotFound(connector_name@, task_id as nat))) == Some(e@),
        },
{
    check_reply(reply, Some(ApiError::TaskNotFound { connector: connector_name.to_owned(), task: task_id }))?;
    Ok(())
}

/// The index of the first listed task with this connector name and index.
pub fn find_task(tasks: &Vec<TaskResponse>, connector_name: &str, task_id: usize) -> (r: Option<usize>)
    ensures
        match r {
            Some(i) => i < tasks@.len() && tasks@[i as int]@.connector == connector_name@
                && tasks@[i as int]@.task == task_id as nat
                && forall|j: int| 0 <= j < i ==> !((#[trigger] tasks@[j])@.connector == connector_name@
                    && tasks@[j]@.task == task_id as nat),
            None => forall|j: int| 0 <= j < tasks@.len() ==> !((#[trigger] tasks@[j])@.connector == connector_name@
                && tasks@[j]@.task == task_id as nat),
        },
{
    let mut i: usize = 0;
    while i < tasks.len()
        invariant
            i <= tasks.len(),
            forall|j: int| 0 <= j < i ==> !((#[trigger] tasks@[j])@.connector == connector_name@
                && tasks@[j]@.task == task_id as nat),
        decreases tasks.len() - i,
    {
        if tasks[i].id.task == task_id && str_eq(tasks[i].id.connector.as_str(), connector_name) {
            return Some(i);
        }
        i = i + 1;
    }
    None
}

/// The text shown for an optional value: the value, or `-` where there is none.
pub fn display_option(o: &Option<String>) -> (r: String)
    ensures
        r@ == (match *o {
            Some(s) => s@,
            None => "-"@,
        }),
{
    match o {
        Some(s) => s.clone(),
        None => "-".to_owned(),
    }
}

} // verus!
