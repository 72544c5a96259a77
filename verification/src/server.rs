//! The mock network server's serving logic: a shared cursor over the
//! suite's scripted request/response sequence.  Each incoming request must
//! match the method and the path of the item under the cursor, in strict
//! declared order; a match answers with the scripted body and advances the
//! cursor; anything else is a fixture defect, which the embedding process
//! treats as fatal rather than as a test failure.  A script tail that is
//! never requested is not an error.

use vstd::prelude::*;

use crate::suite::NetworkItem;
use crate::suite::Request;
use crate::text::str_eq;

verus! {

/// The protocol a mock server speaks.
#[derive(Debug, Clone, Copy)]
pub enum Protocol {
    Http,
    Https,
}

/// The scheme prefix handed to the running program for this protocol.
pub fn protocol_scheme(p: Protocol) -> (r: &'static str)
    ensures
        p is Http ==> r@ == "http://"@,
        p is Https ==> r@ == "https://"@,
{
    match p {
        Protocol::Http => "http://",
        Protocol::Https => "https://",
    }
}

/// A cursor over a suite's network script: the next expected item and
/// everything after it are still to be served.
#[derive(Debug)]
pub struct ScriptCursor {
    pub script: Vec<NetworkItem>,
    pub position: usize,
}

impl ScriptCursor {
    /// The cursor never points past the end of the script.
    pub open spec fn wf(self) -> bool {
        self.position <= self.script@.len()
    }

    /// Whether an incoming request with this method and path is exactly
    /// the one the script expects next.
    pub open spec fn spec_expects(self, method: Seq<char>, path: Seq<char>) -> bool {
        &&& self.position < self.script@.len()
        &&& (match self.script@[self.position as int].request {
            Request::Get { url } => method == "GET"@ && path == url@,
        })
    }

    /// A cursor at the start of the given script.
    pub fn new(script: Vec<NetworkItem>) -> (r: ScriptCursor)
        ensures
            r.script == script,
            r.position == 0,
            r.wf(),
    {
        ScriptCursor { script, position: 0 }
    }

    /// Serves one incoming request: the scripted body when the request is
    /// the expected one, and nothing — the fixture-defect signal — when it
    /// is out of order, differs in method or path, or arrives after the
    /// script is exhausted.
    pub fn serve(&mut self, method: &str, path: &str) -> (r: Option<String>)
        requires
            old(self).wf(),
        ensures
            final(self).wf(),
            *final(self) == spec_serve(*old(self), method@, path@).0,
            (match spec_serve(*old(self), method@, path@).1 {
                Some(body) => r matches Some(b) && b@ == body,
                None => r is None,
            }),
    {
        if self.position >= self.script.len() {
            return None;
        }
        let matches_script: bool = match &self.script[self.position].request {
            Request::Get { url } => str_eq(method, "GET") && str_eq(path, url.as_str()),
        };
        if matches_script {
            let body = self.script[self.position].response.0.clone();
            self.position = self.position + 1;
            Some(body)
        } else {
            None
        }
    }
}

/// What serving one request does to the cursor and what it answers: the
/// expected request advances the cursor by one and is answered with the
/// scripted body; any other request leaves the cursor unchanged and is
/// answered with nothing.
pub open spec fn spec_serve(c: ScriptCursor, method: Seq<char>, path: Seq<char>) -> (
    ScriptCursor,
    Option<Seq<char>>,
) {
    if c.spec_expects(method, path) {
        (
            ScriptCursor { script: c.script, position: (c.position + 1) as usize },
            Some(c.script@[c.position as int].response.0@),
        )
    } else {
        (c, None)
    }
}

/// The method and path of a scripted request.
pub open spec fn spec_request_line(item: NetworkItem) -> (Seq<char>, Seq<char>) {
    match item.request {
        Request::Get { url } => ("GET"@, url@),
    }
}

/// The cursor after serving each of these requests in turn.
pub open spec fn spec_replay(c: ScriptCursor, reqs: Seq<(Seq<char>, Seq<char>)>) -> ScriptCursor
    decreases reqs.len(),
{
    if reqs.len() == 0 {
        c
    } else {
        spec_replay(spec_serve(c, reqs[0].0, reqs[0].1).0, reqs.drop_first())
    }
}

/// Whether every one of these requests, served in turn, was answered with
/// a scripted body.
pub open spec fn spec_replay_answered(c: ScriptCursor, reqs: Seq<(Seq<char>, Seq<char>)>) -> bool
    decreases reqs.len(),
{
    reqs.len() == 0 || (spec_serve(c, reqs[0].0, reqs[0].1).1 is Some && spec_replay_answered(
        spec_serve(c, reqs[0].0, reqs[0].1).0,
        reqs.drop_first(),
    ))
}

/// Law: requests that follow the script from the cursor's position are
/// served strictly in order — every one is answered, and the cursor ends
/// up exactly past them.  Nothing requires the whole script to be
/// consumed.
pub proof fn lemma_script_served_in_order(c: ScriptCursor, reqs: Seq<(Seq<char>, Seq<char>)>)
    requires
        c.wf(),
        c.position + reqs.len() <= c.script@.len(),
        forall|j: int| 0 <= j < reqs.len() ==> reqs[j] == spec_request_line(
            #[trigger] c.script@[c.position + j],
        ),
    ensures
        spec_replay_answered(c, reqs),
        spec_replay(c, reqs).position == c.position + reqs.len(),
        spec_replay(c, reqs).script == c.script,
    decreases reqs.len(),
{
    if reqs.len() > 0 {
        assert(reqs[0] == spec_request_line(c.script@[c.position + 0]));
        assert(c.spec_expects(reqs[0].0, reqs[0].1));
        let c2 = spec_serve(c, reqs[0].0, reqs[0].1).0;
        assert(c.script.len() == c.script@.len());
        assert(c2.position == c.position + 1 && c2.script == c.script);
        assert forall|j: int| 0 <= j < reqs.drop_first().len() implies reqs.drop_first()[j]
            == spec_request_line(#[trigger] c2.script@[c2.position + j]) by {
            assert(reqs.drop_first()[j] == reqs[j + 1]);
            assert(reqs[j + 1] == spec_request_line(c.script@[c.position + (j + 1)]));
            assert(c2.script@[c2.position + j] == c.script@[c.position + (j + 1)]);
        }
        lemma_script_served_in_order(c2, reqs.drop_first());
    }
}

/// Law: a request that is not exactly the next scripted one — wrong
/// order, wrong method or path, or past the script's end — is answered
/// with the fixture-defect signal and does not move the cursor.
pub proof fn lemma_unexpected_request_rejected(c: ScriptCursor, method: Seq<char>, path: Seq<char>)
    requires
        !c.spec_expects(method, path),
    ensures
        spec_serve(c, method, path).1 is None,
        spec_serve(c, method, path).0 == c,
{
}

} // verus!
