use vstd::prelude::*;

verus! {

/// HTTP request method, as the codec hands it over after parsing the
/// request head. The core never interprets it; it is carried through to the
/// application handler.
#[derive(Clone, Copy, PartialEq, Eq, Structural, Debug)]
pub enum Method {
    Options,
    Get,
    Head,
    Post,
    Put,
    Delete,
    Trace,
    Connect,
    Patch,
}

/// The request target as parsed from the request line: an absolute path
/// (with optional query), an absolute URI, an authority form, or the
/// asterisk form.
#[derive(Debug)]
pub enum RequestTarget {
    AbsolutePath(String),
    AbsoluteUri(String),
    Authority(String),
    Star,
}

/// Spec-level image of a request target.
pub enum TargetModel {
    AbsolutePath(Seq<char>),
    AbsoluteUri(Seq<char>),
    Authority(Seq<char>),
    Star,
}

impl View for RequestTarget {
    type V = TargetModel;

    open spec fn view(&self) -> TargetModel {
        match self {
            RequestTarget::AbsolutePath(s) => TargetModel::AbsolutePath(s@),
            RequestTarget::AbsoluteUri(s) => TargetModel::AbsoluteUri(s@),
            RequestTarget::Authority(s) => TargetModel::Authority(s@),
            RequestTarget::Star => TargetModel::Star,
        }
    }
}

/// The semantic request value handed to the application handler: the parsed
/// method, the request path, and the fully buffered body.
pub struct Request {
    pub method: Method,
    pub path: String,
    pub body: Vec<u8>,
}

/// What `decode_target` yields for a given target: the path of an
/// absolute-path target, and a decode failure for every other form.
pub open spec fn target_path(t: TargetModel) -> Option<Seq<char>> {
    match t {
        TargetModel::AbsolutePath(p) => Some(p),
        _ => None,
    }
}

/// Turns the opaque request target into the path handed to the application
/// handler. Only the absolute-path form carries a usable path; every other
/// form is a contract violation of the inbound request and is reported as a
/// decode failure for that one request, never as a crash.
pub fn decode_target(target: &RequestTarget) -> (r: Option<String>)
    ensures
        match r {
            Some(p) => target_path(target@) == Some(p@),
            None => target_path(target@) is None,
        },
{
    match target {
        RequestTarget::AbsolutePath(p) => Some(p.clone()),
        _ => None,
    }
}

} // verus!
