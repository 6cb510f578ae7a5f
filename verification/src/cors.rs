//! Cross-origin resource sharing: the headers added to every response.
use vstd::prelude::*;

use crate::text::{ascii_words, is_ascii_ws, join, join_ascii_words, lemma_join_single_word};

verus! {

/// The fairing that adds the CORS headers to each response.
pub struct CORS;

/// When a fairing runs.
pub enum FairingKind {
    Ignite,
    Liftoff,
    Request,
    Response,
    Shutdown,
}

/// The name and kind under which a fairing is attached.
pub struct FairingInfo {
    pub name: &'static str,
    pub kind: FairingKind,
}

/// The allowed origins sent for the configured value `configured`: its whitespace
/// separated entries joined by commas; nothing when no value is configured.
pub open spec fn allowed_origins_spec(configured: Option<Seq<char>>) -> Seq<char> {
    match configured {
        Some(v) => join(ascii_words(v), seq![',']),
        None => seq![],
    }
}

/// A single configured origin (no whitespace) is sent as it is.
pub proof fn lemma_single_origin(origin: Seq<char>)
    requires
        origin.len() > 0,
        forall|i: int| 0 <= i < origin.len() ==> !is_ascii_ws(#[trigger] origin[i]),
    ensures
        allowed_origins_spec(Some(origin)) == origin,
{
    lemma_join_single_word(origin, seq![',']);
}

impl CORS {
    /// The fairing's name and kind: it acts on responses.
    pub fn info(&self) -> (i: FairingInfo)
        ensures
            i.name@ == "Add CORS headers to responses"@,
            i.kind is Response,
    {
        FairingInfo { name: "Add CORS headers to responses", kind: FairingKind::Response }
    }

    /// The value of `Access-Control-Allow-Origin` for the configured list of origins
    /// (`CORS_ALLOWED`, `None` when it is not set).
    pub fn allowed_origins(configured: Option<&str>) -> (r: String)
        ensures
            r@ == allowed_origins_spec(
                match configured {
                    Some(v) => Some(v@),
                    None => None,
                },
            ),
    {
        match configured {
            Some(v) => join_ascii_words(v, ','),
            None => String::new(),
        }
    }

    /// The headers set on each response, as (name, value) pairs in the order they are set.
    pub fn response_headers(configured: Option<&str>) -> (h: Vec<(String, String)>)
        ensures
            h.len() == 4,
            h[0].0@ == "Access-Control-Allow-Origin"@,
            h[0].1@ == allowed_origins_spec(
                match configured {
                    Some(v) => Some(v@),
                    None => None,
                },
            ),
            h[1].0@ == "Access-Control-Allow-Methods"@,
            h[1].1@ == "POST, GET, PUT, DELETE, PATCH, OPTIONS"@,
            h[2].0@ == "Access-Control-Allow-Headers"@,
            h[2].1@ == "Content-Type, Authorization, X-Requested-With, Accept, Origin"@,
            h[3].0@ == "Access-Control-Allow-Credentials"@,
            h[3].1@ == "true"@,
    {
        let mut h: Vec<(String, String)> = Vec::new();
        h.push(("Access-Control-Allow-Origin".to_owned(), Self::allowed_origins(configured)));
        h.push(
            (
                "Access-Control-Allow-Methods".to_owned(),
                "POST, GET, PUT, DELETE, PATCH, OPTIONS".to_owned(),
            ),
        );
        h.push(
            (
                "Access-Control-Allow-Headers".to_owned(),
                "Content-Type, Authorization, X-Requested-With, Accept, Origin".to_owned(),
            ),
        );
        h.push(("Access-Control-Allow-Credentials".to_owned(), "true".to_owned()));
        h
    }
}

} // verus!
