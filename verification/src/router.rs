//! The request router: from a method and a path to a response, through the
//! decoder and the actuator model.
//!
//! A request either succeeds as a whole, with one state change and one
//! snapshot for the hardware, or changes nothing.

use crate::actuator::{applied, ActuatorModel, ActuatorState};
use crate::connection::ConnectionState;
use crate::decoder::{decode, decoded, DecodeError};
use crate::page::CONTROL_PAGE;
use crate::text::chars_of;
use vstd::prelude::*;

verus! {

/// Status of a request that succeeded.
pub const STATUS_OK: u16 = 200;

/// Status of a request whose parameter was refused.
pub const STATUS_BAD_REQUEST: u16 = 400;

/// Status of a request that no route matches.
pub const STATUS_NOT_FOUND: u16 = 404;

/// Status of a request whose state change the hardware refused.
pub const STATUS_SINK_FAILED: u16 = 500;

/// Body of a response to a request that no route matches.
pub const REASON_NOT_FOUND: &'static str = "NotFound";

/// Body of a response to a request whose state change the hardware refused.
pub const REASON_SINK_FAILED: &'static str = "SinkFailed";

/// Body of a response to a parameter that is no integer.
pub const REASON_NOT_A_NUMBER: &'static str = "NotANumber";

/// Body of a response to a parameter that is no boolean literal.
pub const REASON_NOT_A_BOOLEAN: &'static str = "NotABoolean";

/// Body of a response to a value outside its field's bounds.
pub const REASON_OUT_OF_RANGE: &'static str = "OutOfRange";

/// Body of a response to a route name that does not exist.
pub const REASON_UNKNOWN_ROUTE: &'static str = "UnknownRoute";

/// An HTTP request method.
#[derive(Clone, Copy, Debug, PartialEq, Eq, Structural)]
pub enum Method {
    Get,
    Head,
    Post,
    Put,
    Delete,
    Options,
    Patch,
    /// Any method that has no name here.
    Other,
}

/// The media type of a response body.
#[derive(Clone, Copy, Debug, PartialEq, Eq, Structural)]
pub enum ContentType {
    /// `text/html`
    Html,
    /// `text/plain`
    Plain,
}

/// A response, ready to be written out.
#[derive(Clone, Debug, PartialEq, Eq)]
pub struct HttpResponse {
    pub status: u16,
    pub content_type: ContentType,
    pub body: String,
}

/// A response as contracts see it: the body is a sequence of characters.
pub struct Reply {
    pub status: u16,
    pub content_type: ContentType,
    pub body: Seq<char>,
}

impl View for HttpResponse {
    type V = Reply;

    open spec fn view(&self) -> Reply {
        Reply { status: self.status, content_type: self.content_type, body: self.body@ }
    }
}

/// The machine-readable name of a decoding error.
pub open spec fn decode_reason(e: DecodeError) -> Seq<char> {
    match e {
        DecodeError::NotANumber => REASON_NOT_A_NUMBER@,
        DecodeError::NotABoolean => REASON_NOT_A_BOOLEAN@,
        DecodeError::OutOfRange => REASON_OUT_OF_RANGE@,
        DecodeError::UnknownRoute => REASON_UNKNOWN_ROUTE@,
    }
}

/// The reply to a request that succeeded: it echoes the parameter.
pub open spec fn ok_reply(param: Seq<char>) -> Reply {
    Reply { status: STATUS_OK, content_type: ContentType::Plain, body: param }
}

/// The reply that serves the control page.
pub open spec fn page_reply() -> Reply {
    Reply { status: STATUS_OK, content_type: ContentType::Html, body: CONTROL_PAGE@ }
}

/// The reply to a parameter that was refused for the reason named.
pub open spec fn refusal(reason: Seq<char>) -> Reply {
    Reply { status: STATUS_BAD_REQUEST, content_type: ContentType::Plain, body: reason }
}

/// The reply to a request that no route matches.
pub open spec fn not_found() -> Reply {
    Reply { status: STATUS_NOT_FOUND, content_type: ContentType::Plain, body: REASON_NOT_FOUND@ }
}

/// The reply to a request whose state change the hardware refused.
pub open spec fn sink_failed() -> Reply {
    Reply {
        status: STATUS_SINK_FAILED,
        content_type: ContentType::Plain,
        body: REASON_SINK_FAILED@,
    }
}

/// Whether `path` has the shape `/<action>/<param>` with its second slash at
/// `i`: it starts with a slash, and the next slash stands at `i`.
pub open spec fn splits_at(path: Seq<char>, i: int) -> bool {
    &&& 1 <= i < path.len()
    &&& path[0] == '/'
    &&& path[i] == '/'
    &&& forall|j: int| 1 <= j < i ==> #[trigger] path[j] != '/'
}

/// The action and the parameter of a path of the shape `/<action>/<param>`:
/// the action lies between the first two slashes, the parameter is all that
/// follows the second. Either may be empty.
pub open spec fn route_parts(path: Seq<char>) -> Option<(Seq<char>, Seq<char>)> {
    if exists|i: int| splits_at(path, i) {
        let i = choose|i: int| splits_at(path, i);
        Some((path.subrange(1, i), path.subrange(i + 1, path.len() as int)))
    } else {
        None
    }
}

/// What a request does: the reply, the state it leaves, and the snapshot to
/// hand to the hardware where the state has changed.
pub struct Outcome {
    pub reply: Reply,
    pub state: ActuatorState,
    pub update: Option<ActuatorState>,
}

/// The outcome of a request that changes nothing.
pub open spec fn untouched(reply: Reply, state: ActuatorState) -> Outcome {
    Outcome { reply, state, update: None }
}

/// The outcome of the request `method path` on the state `state`.
pub open spec fn outcome(state: ActuatorState, method: Method, path: Seq<char>) -> Outcome {
    if method != Method::Get {
        untouched(not_found(), state)
    } else if path == seq!['/'] {
        untouched(page_reply(), state)
    } else {
        match route_parts(path) {
            None => untouched(not_found(), state),
            Some((action, param)) => match decoded(action, param) {
                Err(DecodeError::UnknownRoute) => untouched(not_found(), state),
                Err(e) => untouched(refusal(decode_reason(e)), state),
                Ok(cmd) => match applied(state, cmd) {
                    Err(_) => untouched(refusal(REASON_OUT_OF_RANGE@), state),
                    Ok(next) => Outcome {
                        reply: ok_reply(param),
                        state: next,
                        update: Some(next),
                    },
                },
            },
        }
    }
}

/// A path splits at one place at most.
pub proof fn lemma_split_unique(path: Seq<char>, i: int, j: int)
    requires
        splits_at(path, i),
        splits_at(path, j),
    ensures
        i == j,
{
    if i < j {
        assert(path[i] != '/');
    } else if j < i {
        assert(path[j] != '/');
    }
}

/// Finds the second slash of a path of the shape `/<action>/<param>`.
pub fn find_split(path: &Vec<char>) -> (r: Option<usize>)
    ensures
        r matches Some(i) ==> splits_at(path@, i as int),
        r is None ==> forall|i: int| !splits_at(path@, i),
{
    let n: usize = path.len();
    if n == 0 || path[0] != '/' {
        return None;
    }
    let mut i: usize = 1;
    while i < n && path[i] != '/'
        invariant
            n == path.len(),
            1 <= i <= n,
            forall|j: int| 1 <= j < i ==> #[trigger] path@[j] != '/',
        decreases n - i,
    {
        i += 1;
    }
    if i == n {
        assert forall|k: int| !splits_at(path@, k) by {
            if splits_at(path@, k) {
                assert(path@[k] != '/');
            }
        }
        None
    } else {
        Some(i)
    }
}

/// The name under which a decoding error is reported.
pub fn reason_of(e: DecodeError) -> (r: &'static str)
    ensures
        r@ == decode_reason(e),
{
    match e {
        DecodeError::NotANumber => REASON_NOT_A_NUMBER,
        DecodeError::NotABoolean => REASON_NOT_A_BOOLEAN,
        DecodeError::OutOfRange => REASON_OUT_OF_RANGE,
        DecodeError::UnknownRoute => REASON_UNKNOWN_ROUTE,
    }
}

impl HttpResponse {
    /// A plain-text response.
    pub fn plain(status: u16, body: &str) -> (r: HttpResponse)
        ensures
            r@ == (Reply { status, content_type: ContentType::Plain, body: body@ }),
    {
        HttpResponse { status, content_type: ContentType::Plain, body: body.to_owned() }
    }

    /// The response that serves the control page.
    pub fn page() -> (r: HttpResponse)
        ensures
            r@ == page_reply(),
    {
        HttpResponse {
            status: STATUS_OK,
            content_type: ContentType::Html,
            body: CONTROL_PAGE.to_owned(),
        }
    }

    /// Whether the request succeeded.
    pub fn is_success(&self) -> (r: bool)
        ensures
            r == (self@.status == STATUS_OK),
    {
        self.status == STATUS_OK
    }
}

/// What the router hands back for one request.
pub struct Handled {
    /// The response to send, once the hardware has taken the update.
    pub response: HttpResponse,
    /// The snapshot to apply to the hardware, where the state has changed.
    pub update: Option<ActuatorState>,
}

impl Handled {
    /// The response to send once the hardware has been told: the router's
    /// own, unless there was an update and the hardware refused it.
    pub fn settle(self, sink_accepted: bool) -> (r: HttpResponse)
        ensures
            r@ == if self.update is Some && !sink_accepted {
                sink_failed()
            } else {
                self.response@
            },
    {
        if self.update.is_some() && !sink_accepted {
            HttpResponse::plain(STATUS_SINK_FAILED, REASON_SINK_FAILED)
        } else {
            self.response
        }
    }
}

/// The router, owner of the actuator model.
pub struct Router {
    model: ActuatorModel,
}

impl View for Router {
    type V = ActuatorState;

    closed spec fn view(&self) -> ActuatorState {
        self.model@
    }
}

impl Router {
    /// A router over a model in the boot state.
    pub fn new() -> (r: Router)
        ensures
            r@ == ActuatorState::initial(),
    {
        Router { model: ActuatorModel::new() }
    }

    /// A router for a network in the state `connection`: serving starts
    /// only once the network is up.
    pub fn start(connection: &ConnectionState) -> (r: Option<Router>)
        ensures
            r is Some == (*connection is Connected),
            r matches Some(router) ==> router@ == ActuatorState::initial(),
    {
        match connection {
            ConnectionState::Connected { .. } => Some(Router::new()),
            _ => None,
        }
    }

    /// A copy of the current actuator state. It is always within bounds.
    pub fn snapshot(&self) -> (s: ActuatorState)
        ensures
            s == self@,
            s.in_bounds(),
    {
        self.model.snapshot()
    }

    /// Whether the sequence counter can still count one more command.
    pub fn has_room(&self) -> (r: bool)
        ensures
            r == self@.has_room(),
    {
        self.model.has_room()
    }

    /// Handles one request.
    ///
    /// `GET /` serves the control page. `GET /<action>/<param>` decodes the
    /// parameter and applies the command: on success the response echoes
    /// the parameter and carries the new snapshot; a refused parameter
    /// gives 400 with the reason and leaves the state alone. Anything else
    /// gives 404.
    pub fn handle(&mut self, method: Method, path: &str) -> (h: Handled)
        requires
            old(self)@.has_room(),
        ensures
            h.response@ == outcome(old(self)@, method, path@).reply,
            h.update == outcome(old(self)@, method, path@).update,
            final(self)@ == outcome(old(self)@, method, path@).state,
            final(self)@.in_bounds(),
    {
        proof {
            use_type_invariant(&self.model);
        }
        match method {
            Method::Get => {},
            _ => {
                return Handled {
                    response: HttpResponse::plain(STATUS_NOT_FOUND, REASON_NOT_FOUND),
                    update: None,
                };
            },
        }
        let chars = chars_of(path);
        if chars.len() == 1 && chars[0] == '/' {
            assert(path@ =~= seq!['/']);
            return Handled { response: HttpResponse::page(), update: None };
        }
        assert(path@ != seq!['/']) by {
            if path@ == seq!['/'] {
                assert(path@.len() == 1 && path@[0] == '/');
            }
        }
        let i: usize = match find_split(&chars) {
            None => {
                return Handled {
                    response: HttpResponse::plain(STATUS_NOT_FOUND, REASON_NOT_FOUND),
                    update: None,
                };
            },
            Some(i) => i,
        };
        proof {
            let k = choose|k: int| splits_at(path@, k);
            lemma_split_unique(path@, i as int, k);
        }
        let action = path.substring_char(1, i);
        let param = path.substring_char(i + 1, chars.len());
        match decode(action, param) {
            Err(DecodeError::UnknownRoute) => Handled {
                response: HttpResponse::plain(STATUS_NOT_FOUND, REASON_NOT_FOUND),
                update: None,
            },
            Err(e) => Handled {
                response: HttpResponse::plain(STATUS_BAD_REQUEST, reason_of(e)),
                update: None,
            },
            Ok(cmd) => match self.model.apply(cmd) {
                Err(_) => Handled {
                    response: HttpResponse::plain(STATUS_BAD_REQUEST, REASON_OUT_OF_RANGE),
                    update: None,
                },
                Ok(next) => Handled {
                    response: HttpResponse::plain(STATUS_OK, param),
                    update: Some(next),
                },
            },
        }
    }
}

} // verus!
