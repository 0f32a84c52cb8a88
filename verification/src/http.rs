//! The reply model the relay hands back to its hosting runtime: a status
//! code, headers in the order they are set, and a body text.
use vstd::prelude::*;

verus! {

/// Mathematical view of `HttpResponse`.
pub struct ResponseV {
    pub status: int,
    pub headers: Seq<(Seq<char>, Seq<char>)>,
    pub body: Seq<char>,
}

#[derive(Debug, PartialEq, Eq)]
pub struct HttpResponse {
    pub status: u16,
    pub headers: Vec<(String, String)>,
    pub body: String,
}

pub open spec fn headers_view(h: Seq<(String, String)>) -> Seq<(Seq<char>, Seq<char>)> {
    Seq::new(
        h.len(),
        |i: int|
            if 0 <= i < h.len() {
                (h[i].0@, h[i].1@)
            } else {
                (Seq::<char>::empty(), Seq::<char>::empty())
            },
    )
}

pub open spec fn resp_view(r: HttpResponse) -> ResponseV {
    ResponseV { status: r.status as int, headers: headers_view(r.headers@), body: r.body@ }
}

} // verus!
