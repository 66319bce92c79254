use vstd::prelude::*;

use crate::config::pairs_view;
use crate::json::{Json, JsonV};

verus! {

/// A frame of the speech protocol: named headers and an optional body, either JSON text or
/// raw bytes.
#[allow(inconsistent_fields)]
pub enum Message {
    Text { headers: Vec<(String, String)>, data: Option<Json> },
    Binary { headers: Vec<(String, String)>, data: Option<Vec<u8>> },
}

/// The model of a frame.
#[allow(inconsistent_fields)]
pub enum MessageV {
    Text { headers: Seq<(Seq<char>, Seq<char>)>, data: Option<JsonV> },
    Binary { headers: Seq<(Seq<char>, Seq<char>)>, data: Option<Seq<u8>> },
}

impl MessageV {
    pub open spec fn headers(self) -> Seq<(Seq<char>, Seq<char>)> {
        match self {
            MessageV::Text { headers, .. } => headers,
            MessageV::Binary { headers, .. } => headers,
        }
    }
}

impl Message {
    pub open spec fn model(self) -> MessageV {
        match self {
            Message::Text { headers, data } => MessageV::Text {
                headers: pairs_view(headers@),
                data: match data {
                    Some(j) => Some(j.model()),
                    None => None,
                },
            },
            Message::Binary { headers, data } => MessageV::Binary {
                headers: pairs_view(headers@),
                data: match data {
                    Some(b) => Some(b@),
                    None => None,
                },
            },
        }
    }
}

} // verus!
