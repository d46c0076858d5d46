//! The dispatcher: from an authorized, routed request to the one action that
//! runs. The HTTP method and the optional fields of the matched command pick
//! the action by fixed precedence: POST and PUT write the file when
//! `write_file` is set (a `shell` beside it is ignored) and otherwise run the
//! shell; GET tries `read_bin_file`, then `read_file`, then `shell`; DELETE
//! and every other method are unsupported. The chosen template is expanded
//! against the request's query parameters before it is handed out.

use vstd::prelude::*;
use crate::auth::{spec_authorized, headers_view, check_auth};
use crate::bytes::bytes_eq;
use crate::config::{Command, Config, opt_bytes_view, clone_opt_bytes};
use crate::router::{spec_route, lemma_route_from, find_command};
use crate::template::{spec_expand, expand_vars};
use crate::writefile::{WritePlan, SpecWritePlan};

verus! {

/// The request methods the dispatcher distinguishes.
#[derive(PartialEq, Eq, Structural, Clone, Copy, Debug)]
pub enum Method {
    /// `GET`
    Get,
    /// `POST`
    Post,
    /// `PUT`
    Put,
    /// `DELETE`
    Delete,
    /// Anything else.
    Other,
}

/// The bytes of `GET`.
pub open spec fn method_get_name() -> Seq<u8> {
    seq![0x47u8, 0x45, 0x54]
}

/// The bytes of `POST`.
pub open spec fn method_post_name() -> Seq<u8> {
    seq![0x50u8, 0x4f, 0x53, 0x54]
}

/// The bytes of `PUT`.
pub open spec fn method_put_name() -> Seq<u8> {
    seq![0x50u8, 0x55, 0x54]
}

/// The bytes of `DELETE`.
pub open spec fn method_delete_name() -> Seq<u8> {
    seq![0x44u8, 0x45, 0x4c, 0x45, 0x54, 0x45]
}

/// The method a raw method string denotes; unknown strings are `Other`.
pub open spec fn spec_method(m: Seq<u8>) -> Method {
    if m == method_get_name() {
        Method::Get
    } else if m == method_post_name() {
        Method::Post
    } else if m == method_put_name() {
        Method::Put
    } else if m == method_delete_name() {
        Method::Delete
    } else {
        Method::Other
    }
}

/// Parse a raw method string; anything but the four known methods is `Other`.
pub fn parse_method(m: &Vec<u8>) -> (r: Method)
    ensures
        r == spec_method(m@),
{
    let mut get: Vec<u8> = Vec::new();
    get.push(0x47);
    get.push(0x45);
    get.push(0x54);
    let mut post: Vec<u8> = Vec::new();
    post.push(0x50);
    post.push(0x4f);
    post.push(0x53);
    post.push(0x54);
    let mut put: Vec<u8> = Vec::new();
    put.push(0x50);
    put.push(0x55);
    put.push(0x54);
    let mut delete: Vec<u8> = Vec::new();
    delete.push(0x44);
    delete.push(0x45);
    delete.push(0x4c);
    delete.push(0x45);
    delete.push(0x54);
    delete.push(0x45);
    proof {
        assert(get@ =~= method_get_name());
        assert(post@ =~= method_post_name());
        assert(put@ =~= method_put_name());
        assert(delete@ =~= method_delete_name());
    }
    if bytes_eq(m, &get) {
        Method::Get
    } else if bytes_eq(m, &post) {
        Method::Post
    } else if bytes_eq(m, &put) {
        Method::Put
    } else if bytes_eq(m, &delete) {
        Method::Delete
    } else {
        Method::Other
    }
}

/// What the gateway decided to do for a request.
pub enum RequestPlan {
    /// The credential check failed: answer 401, run nothing.
    Unauthorized,
    /// No configured endpoint equals the path: answer 404.
    NotFound,
    /// The matched command supports no action for this method: answer 500.
    Unsupported,
    /// Run the expanded command string in a shell.
    Shell {
        /// The expanded command string.
        command: Vec<u8>,
    },
    /// Serve the file at the expanded path as an octet stream.
    ReadBinFile {
        /// The expanded path.
        path: Vec<u8>,
    },
    /// Serve the file at the expanded path as plain text.
    ReadFile {
        /// The expanded path.
        path: Vec<u8>,
    },
    /// Write the request body to the expanded path and apply the configured
    /// mode, owner and group.
    WriteFile {
        /// The write action's parameters.
        write: WritePlan,
    },
}

/// Mathematical image of a `RequestPlan`.
pub enum SpecPlan {
    /// The credential check failed.
    Unauthorized,
    /// No configured endpoint equals the path.
    NotFound,
    /// The matched command supports no action for this method.
    Unsupported,
    /// Run the expanded command string in a shell.
    Shell(Seq<u8>),
    /// Serve the file at the expanded path as an octet stream.
    ReadBinFile(Seq<u8>),
    /// Serve the file at the expanded path as plain text.
    ReadFile(Seq<u8>),
    /// Write the request body and apply mode, owner and group.
    WriteFile(SpecWritePlan),
}

impl View for RequestPlan {
    type V = SpecPlan;

    open spec fn view(&self) -> SpecPlan {
        match self {
            RequestPlan::Unauthorized => SpecPlan::Unauthorized,
            RequestPlan::NotFound => SpecPlan::NotFound,
            RequestPlan::Unsupported => SpecPlan::Unsupported,
            RequestPlan::Shell { command } => SpecPlan::Shell(command@),
            RequestPlan::ReadBinFile { path } => SpecPlan::ReadBinFile(path@),
            RequestPlan::ReadFile { path } => SpecPlan::ReadFile(path@),
            RequestPlan::WriteFile { write } => SpecPlan::WriteFile(write@),
        }
    }
}

/// The action a method picks on a command, by the fixed precedence, with the
/// chosen template already expanded against the raw query string `q`.
pub open spec fn spec_select_action(m: Method, cmd: Command, q: Seq<u8>) -> SpecPlan {
    match m {
        Method::Post | Method::Put => if cmd.write_file is Some {
            SpecPlan::WriteFile(
                SpecWritePlan {
                    path: spec_expand(cmd.write_file->0@, q),
                    mode: cmd.mode,
                    user: opt_bytes_view(cmd.user),
                    group: opt_bytes_view(cmd.group),
                },
            )
        } else if cmd.shell is Some {
            SpecPlan::Shell(spec_expand(cmd.shell->0@, q))
        } else {
            SpecPlan::Unsupported
        },
        Method::Get => if cmd.read_bin_file is Some {
            SpecPlan::ReadBinFile(spec_expand(cmd.read_bin_file->0@, q))
        } else if cmd.read_file is Some {
            SpecPlan::ReadFile(spec_expand(cmd.read_file->0@, q))
        } else if cmd.shell is Some {
            SpecPlan::Shell(spec_expand(cmd.shell->0@, q))
        } else {
            SpecPlan::Unsupported
        },
        Method::Delete => SpecPlan::Unsupported,
        Method::Other => SpecPlan::Unsupported,
    }
}

/// Pick the action the method and the command's fields prescribe, expanding
/// the chosen template against the raw query string.
pub fn select_action(method: Method, cmd: &Command, rawquery: &Vec<u8>) -> (r: RequestPlan)
    ensures
        r@ == spec_select_action(method, *cmd, rawquery@),
{
    match method {
        Method::Post | Method::Put => {
            if let Some(wf) = &cmd.write_file {
                RequestPlan::WriteFile {
                    write: WritePlan {
                        path: expand_vars(wf, rawquery),
                        mode: cmd.mode,
                        user: clone_opt_bytes(&cmd.user),
                        group: clone_opt_bytes(&cmd.group),
                    },
                }
            } else if let Some(sh) = &cmd.shell {
                RequestPlan::Shell { command: expand_vars(sh, rawquery) }
            } else {
                RequestPlan::Unsupported
            }
        },
        Method::Get => {
            if let Some(bf) = &cmd.read_bin_file {
                RequestPlan::ReadBinFile { path: expand_vars(bf, rawquery) }
            } else if let Some(tf) = &cmd.read_file {
                RequestPlan::ReadFile { path: expand_vars(tf, rawquery) }
            } else if let Some(sh) = &cmd.shell {
                RequestPlan::Shell { command: expand_vars(sh, rawquery) }
            } else {
                RequestPlan::Unsupported
            }
        },
        Method::Delete => RequestPlan::Unsupported,
        Method::Other => RequestPlan::Unsupported,
    }
}

/// The gateway's whole decision for a request: the credential gate first,
/// then the first-match route, then the method's action.
pub open spec fn spec_plan(
    conf: Config,
    method: Seq<u8>,
    path: Seq<u8>,
    headers: Seq<(Seq<u8>, Seq<u8>)>,
    q: Seq<u8>,
) -> SpecPlan {
    if !spec_authorized(headers, conf.apikey@) {
        SpecPlan::Unauthorized
    } else {
        match spec_route(conf.commands@, path) {
            None => SpecPlan::NotFound,
            Some(i) => spec_select_action(spec_method(method), conf.commands@[i], q),
        }
    }
}

/// Decide a request: authentication, first-match routing, action selection
/// and template expansion, from plain values alone.
pub fn plan_request(
    conf: &Config,
    method: &Vec<u8>,
    path: &Vec<u8>,
    headers: &Vec<(Vec<u8>, Vec<u8>)>,
    rawquery: &Vec<u8>,
) -> (r: RequestPlan)
    ensures
        r@ == spec_plan(*conf, method@, path@, headers_view(headers@), rawquery@),
{
    if !check_auth(headers, &conf.apikey) {
        return RequestPlan::Unauthorized;
    }
    match find_command(&conf.commands, path) {
        None => RequestPlan::NotFound,
        Some(i) => select_action(parse_method(method), &conf.commands[i], rawquery),
    }
}

/// Status code owed to a plan that ends the request without running an
/// action; plans that carry an action take their status from the action's
/// outcome instead.
pub open spec fn spec_plan_status(p: SpecPlan) -> Option<u16> {
    match p {
        SpecPlan::Unauthorized => Some(401u16),
        SpecPlan::NotFound => Some(404u16),
        SpecPlan::Unsupported => Some(500u16),
        _ => None,
    }
}

/// Status code owed to a plan that ends the request without an action.
pub fn plan_status(p: &RequestPlan) -> (r: Option<u16>)
    ensures
        r == spec_plan_status(p@),
{
    match p {
        RequestPlan::Unauthorized => Some(401),
        RequestPlan::NotFound => Some(404),
        RequestPlan::Unsupported => Some(500),
        _ => None,
    }
}

/// A request whose Authorization header is absent or differs from the
/// configured secret is answered 401, and no route or action logic runs:
/// the plan carries no action and names no command.
pub proof fn lemma_unauthorized_short_circuits(
    conf: Config,
    method: Seq<u8>,
    path: Seq<u8>,
    headers: Seq<(Seq<u8>, Seq<u8>)>,
    q: Seq<u8>,
)
    requires
        !spec_authorized(headers, conf.apikey@),
    ensures
        spec_plan(conf, method, path, headers, q) == SpecPlan::Unauthorized,
        spec_plan_status(spec_plan(conf, method, path, headers, q)) == Some(401u16),
{
}

/// A request to a configured endpoint is dispatched on exactly the command at
/// the endpoint's first occurrence in configuration order, even when
/// duplicate endpoints exist later in the list.
pub proof fn lemma_first_occurrence_wins(
    conf: Config,
    method: Seq<u8>,
    path: Seq<u8>,
    headers: Seq<(Seq<u8>, Seq<u8>)>,
    q: Seq<u8>,
    i: int,
)
    requires
        spec_authorized(headers, conf.apikey@),
        0 <= i < conf.commands@.len(),
        conf.commands@[i].endpoint@ == path,
        forall|j: int| 0 <= j < i ==> conf.commands@[j].endpoint@ != path,
    ensures
        spec_route(conf.commands@, path) == Some(i),
        spec_plan(conf, method, path, headers, q) == spec_select_action(
            spec_method(method),
            conf.commands@[i],
            q,
        ),
{
    lemma_route_from(conf.commands@, path, 0);
    match spec_route(conf.commands@, path) {
        Some(j) => {
            if j < i {
                assert(conf.commands@[j].endpoint@ != path);
            }
            if j > i {
                assert(conf.commands@[i].endpoint@ != path);
            }
        },
        None => {
            assert(conf.commands@[i].endpoint@ != path);
        },
    }
}

/// A GET on a command with both `read_bin_file` and `shell` set always serves
/// the binary file and never runs the shell command.
pub proof fn lemma_get_prefers_binary(cmd: Command, q: Seq<u8>)
    requires
        cmd.read_bin_file is Some,
    ensures
        spec_select_action(Method::Get, cmd, q) == SpecPlan::ReadBinFile(
            spec_expand(cmd.read_bin_file->0@, q),
        ),
        !(spec_select_action(Method::Get, cmd, q) is Shell),
{
}

/// A DELETE to any configured endpoint is unsupported — answered 500 —
/// whatever action fields the command carries.
pub proof fn lemma_delete_unsupported(cmd: Command, q: Seq<u8>)
    ensures
        spec_select_action(Method::Delete, cmd, q) == SpecPlan::Unsupported,
        spec_plan_status(spec_select_action(Method::Delete, cmd, q)) == Some(500u16),
{
}

} // verus!

