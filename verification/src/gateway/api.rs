//! The logic of the JSON test handler.

use vstd::prelude::*;

use crate::text::owned;

verus! {

/// The body of the JSON test request.
#[derive(Debug)]
pub struct TestJsonRequest {
    pub name: String,
    pub age: Option<u32>,
}

/// What the JSON test handler answers: the fields it received and a note.
#[derive(Debug)]
pub struct TestJsonReply {
    pub received_name: String,
    pub received_age: Option<u32>,
    pub message: String,
}

/// Echoes the request's fields with the note "AppJson extractor works!".
pub fn test_json_reply(req: TestJsonRequest) -> (r: TestJsonReply)
    ensures
        r.received_name == req.name,
        r.received_age == req.age,
        r.message@ == "AppJson extractor works!"@,
{
    TestJsonReply {
        received_name: req.name,
        received_age: req.age,
        message: owned("AppJson extractor works!"),
    }
}

} // verus!
