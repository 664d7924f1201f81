use vstd::prelude::*;

verus! {

/// Response headers, kept as an ordered list of name/value pairs. The core
/// treats them as opaque mapping data; the codec serializes them.
pub type Headers = Vec<(String, String)>;

/// Spec-level image of a header list.
pub open spec fn headers_model(h: Headers) -> Seq<(Seq<char>, Seq<char>)> {
    h@.map_values(|p: (String, String)| (p.0@, p.1@))
}

/// One message of the response channel, sent by the worker that owns a
/// request and drained by the connection that issued it. A well-formed
/// response is exactly one `Header`, then any number of `Data` chunks, then
/// exactly one `Finish`.
#[derive(Debug)]
pub enum WorkerResponse {
    Header(u16, Headers),
    Data(Vec<u8>),
    Finish,
}

/// Spec-level image of a response event.
pub enum EventModel {
    Header(u16, Seq<(Seq<char>, Seq<char>)>),
    Data(Seq<u8>),
    Finish,
}

impl View for WorkerResponse {
    type V = EventModel;

    open spec fn view(&self) -> EventModel {
        match self {
            WorkerResponse::Header(status, headers) => EventModel::Header(
                *status,
                headers_model(*headers),
            ),
            WorkerResponse::Data(bytes) => EventModel::Data(bytes@),
            WorkerResponse::Finish => EventModel::Finish,
        }
    }
}

/// A started, unfinished response: one `Header` followed only by `Data`.
pub open spec fn started_events(s: Seq<EventModel>) -> bool {
    &&& s.len() >= 1
    &&& s[0] is Header
    &&& forall|i: int| 1 <= i < s.len() ==> s[i] is Data
}

/// A complete response: exactly one `Header` first, then any number of
/// `Data` chunks, closed by exactly one `Finish` after which nothing
/// follows.
pub open spec fn complete_events(s: Seq<EventModel>) -> bool {
    &&& s.len() >= 2
    &&& s[0] is Header
    &&& s.last() is Finish
    &&& forall|i: int| 1 <= i < s.len() - 1 ==> s[i] is Data
}

/// Spec-level image of a list of response events, in the same order.
pub open spec fn events_of(s: Seq<WorkerResponse>) -> Seq<EventModel> {
    s.map_values(|e: WorkerResponse| e@)
}

} // verus!
