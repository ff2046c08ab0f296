//! Responses over HTTP.

use crate::response::{responses_text, JsonText, ResponseObjects, ResponsesView};
use vstd::prelude::*;

verus! {

/// What is sent back over HTTP
pub struct HttpReply {
    pub status: u16,
    pub content_type: Option<&'static str>,
    pub body: String,
}

/// What is sent back over HTTP.
pub struct HttpReplyView {
    pub status: int,
    pub content_type: Option<Seq<char>>,
    pub body: Seq<char>,
}

impl View for HttpReply {
    type V = HttpReplyView;

    open spec fn view(&self) -> HttpReplyView {
        HttpReplyView {
            status: self.status as int,
            content_type: match self.content_type {
                Some(name) => Some(name@),
                None => None,
            },
            body: self.body@,
        }
    }
}

/// What is sent back for a whole response: it is "No Content" if there is nothing to answer, and
/// otherwise the JSON text of the response.
pub open spec fn reply_for(responses: ResponsesView<JsonText>) -> HttpReplyView {
    if responses is Empty {
        HttpReplyView { status: 204, content_type: None, body: Seq::empty() }
    } else {
        HttpReplyView {
            status: 200,
            content_type: Some("application/json"@),
            body: responses_text(responses),
        }
    }
}

impl HttpReply {
    pub fn new(responses: &ResponseObjects<JsonText>) -> (res: HttpReply)
        ensures
            res@ == reply_for(responses@),
    {
        match responses {
            ResponseObjects::Empty => HttpReply {
                status: 204,
                content_type: None,
                body: String::new(),
            },
            json => HttpReply {
                status: 200,
                content_type: Some("application/json"),
                body: json.serialize(),
            },
        }
    }
}

} // verus!
