//! The CORS gate: a preflight request's `Origin` header is held against a
//! comma-separated allow-list, and the grant names the origin verbatim.
//! Real replies to POST requests are open to any origin (see `handler`);
//! only the preflight is gated. That asymmetry is part of the surface's
//! documented behaviour.
use vstd::prelude::*;
use crate::http::{HttpResponse, ResponseV, headers_view, resp_view};
use crate::json::str_eq;
use crate::outside::chars_to_string;

verus! {

/// The segments of `s` between commas, in order: splitting the empty text
/// gives one empty segment, and every comma opens a new segment.
pub open spec fn spec_split(s: Seq<char>) -> Seq<Seq<char>>
    decreases s.len(),
{
    if s.len() == 0 {
        seq![Seq::<char>::empty()]
    } else if s[0] == ',' {
        seq![Seq::<char>::empty()] + spec_split(s.drop_first())
    } else {
        let rest = spec_split(s.drop_first());
        seq![seq![s[0]] + rest[0]] + rest.skip(1)
    }
}

proof fn lemma_split_nonempty(s: Seq<char>)
    ensures
        spec_split(s).len() >= 1,
    decreases s.len(),
{
    if s.len() != 0 {
        lemma_split_nonempty(s.drop_first());
    }
}

/// `segs` with `p` glued onto the front of its first segment.
pub open spec fn prepend_first(p: Seq<char>, segs: Seq<Seq<char>>) -> Seq<Seq<char>> {
    if segs.len() == 0 {
        seq![p]
    } else {
        seq![p + segs[0]] + segs.skip(1)
    }
}

pub open spec fn strs_view(v: Seq<String>) -> Seq<Seq<char>> {
    Seq::new(
        v.len(),
        |i: int| if 0 <= i < v.len() { v[i]@ } else { Seq::<char>::empty() },
    )
}

/// Splits `s` on commas.
pub fn split_commas(s: &str) -> (r: Vec<String>)
    ensures
        strs_view(r@) == spec_split(s@),
{
    let n = s.unicode_len();
    let mut done: Vec<String> = Vec::new();
    let mut cur: Vec<char> = Vec::new();
    let mut i: usize = 0;
    proof {
        assert(s@.skip(0) =~= s@);
    }
    while i < n
        invariant
            i <= n,
            n == s@.len(),
            spec_split(s@) == strs_view(done@) + prepend_first(cur@, spec_split(s@.skip(i as int))),
        decreases n - i,
    {
        let ghost tail = s@.skip(i as int);
        let ghost tail1 = s@.skip(i + 1 as int);
        proof {
            assert(tail.len() > 0);
            assert(tail[0] == s@[i as int]);
            assert(tail.drop_first() =~= tail1);
            lemma_split_nonempty(tail1);
        }
        let c = s.get_char(i);
        if c == ',' {
            let ghost old_done = done@;
            let ghost old_cur = cur@;
            let seg = chars_to_string(&cur);
            done.push(seg);
            cur = Vec::new();
            proof {
                // A comma closes the current segment.
                assert(spec_split(tail) == seq![Seq::<char>::empty()] + spec_split(tail1));
                let rest = spec_split(tail1);
                assert(prepend_first(old_cur, seq![Seq::<char>::empty()] + rest) =~= seq![old_cur]
                    + prepend_first(Seq::<char>::empty(), rest)) by {
                    assert((seq![Seq::<char>::empty()] + rest)[0] =~= Seq::<char>::empty());
                    assert(old_cur + Seq::<char>::empty() =~= old_cur);
                    assert((seq![Seq::<char>::empty()] + rest).skip(1) =~= rest);
                    assert(prepend_first(Seq::<char>::empty(), rest) =~= seq![rest[0]] + rest.skip(1));
                    assert(seq![rest[0]] + rest.skip(1) =~= rest);
                };
                assert(strs_view(done@) =~= strs_view(old_done).push(old_cur));
                assert(strs_view(old_done).push(old_cur) + prepend_first(Seq::<char>::empty(), spec_split(tail1))
                    =~= strs_view(old_done) + (seq![old_cur] + prepend_first(Seq::<char>::empty(), spec_split(tail1))));
                assert(cur@ =~= Seq::<char>::empty());
                assert(spec_split(s@) == strs_view(done@) + prepend_first(cur@, spec_split(tail1)));
            }
        } else {
            let ghost old_cur = cur@;
            cur.push(c);
            proof {
                // A plain character extends the current segment.
                let rest = spec_split(tail1);
                assert(spec_split(tail) == seq![seq![tail[0]] + rest[0]] + rest.skip(1));
                if rest.len() == 0 {
                    lemma_split_nonempty(tail1);
                }
                assert(prepend_first(old_cur, spec_split(tail)) =~= prepend_first(old_cur.push(c), rest)) by {
                    assert((seq![seq![c] + rest[0]] + rest.skip(1))[0] =~= seq![c] + rest[0]);
                    assert(old_cur + (seq![c] + rest[0]) =~= old_cur.push(c) + rest[0]);
                    assert((seq![seq![c] + rest[0]] + rest.skip(1)).skip(1) =~= rest.skip(1));
                };
                assert(cur@ =~= old_cur.push(c));
                assert(spec_split(s@) == strs_view(done@) + prepend_first(cur@, spec_split(tail1)));
            }
        }
        i = i + 1;
    }
    let seg = chars_to_string(&cur);
    let ghost old_done = done@;
    done.push(seg);
    proof {
        assert(s@.skip(n as int) =~= Seq::<char>::empty());
        assert(spec_split(Seq::<char>::empty()) == seq![Seq::<char>::empty()]);
        assert(prepend_first(cur@, seq![Seq::<char>::empty()]) =~= seq![cur@]) by {
            assert(seq![Seq::<char>::empty()][0] =~= Seq::<char>::empty());
            assert(cur@ + Seq::<char>::empty() =~= cur@);
            assert(seq![Seq::<char>::empty()].skip(1) =~= Seq::<Seq<char>>::empty());
            assert(seq![cur@ + Seq::<char>::empty()] + Seq::<Seq<char>>::empty() =~= seq![cur@]);
        };
        assert(strs_view(done@) =~= strs_view(old_done).push(cur@));
        assert(strs_view(old_done).push(cur@) =~= strs_view(old_done) + seq![cur@]);
        assert(strs_view(done@) =~= spec_split(s@));
    }
    done
}

/// Whether `origin` stands, verbatim, among the allow-list's segments.
pub fn origin_allowed(origin: &str, allow: &str) -> (r: bool)
    ensures
        r == spec_split(allow@).contains(origin@),
{
    let parts = split_commas(allow);
    let ghost segs = spec_split(allow@);
    let mut i: usize = 0;
    while i < parts.len()
        invariant
            i <= parts.len(),
            segs == spec_split(allow@),
            strs_view(parts@) == segs,
            forall|k: int| 0 <= k < i ==> segs[k] != origin@,
        decreases parts.len() - i,
    {
        if str_eq(parts[i].as_str(), origin) {
            proof {
                assert(segs[i as int] == origin@);
            }
            return true;
        }
        proof {
            assert(segs[i as int] == parts@[i as int]@);
        }
        i = i + 1;
    }
    proof {
        assert(segs.len() == parts@.len());
        assert(forall|k: int| 0 <= k < segs.len() ==> segs[k] != origin@);
    }
    false
}

/// The headers a preflight reply carries: the three constant ones always,
/// and `Access-Control-Allow-Origin` naming the origin only on a grant.
pub open spec fn preflight_headers(granted: bool, o: Seq<char>) -> Seq<(Seq<char>, Seq<char>)> {
    if granted {
        seq![
            ("Access-Control-Allow-Headers"@, "Content-Type"@),
            ("Access-Control-Allow-Methods"@, "POST"@),
            ("Access-Control-Allow-Origin"@, o),
            ("Access-Control-Max-Age"@, "86400"@),
        ]
    } else {
        seq![
            ("Access-Control-Allow-Headers"@, "Content-Type"@),
            ("Access-Control-Allow-Methods"@, "POST"@),
            ("Access-Control-Max-Age"@, "86400"@),
        ]
    }
}

pub open spec fn opt_str_view(o: Option<&str>) -> Option<Seq<char>> {
    match o {
        Some(s) => Some(s@),
        None => None,
    }
}

/// What an `OPTIONS` request is answered with: a bare success when no
/// origin is declared, else a 204 whose headers grant exactly a listed
/// origin.
pub open spec fn preflight_spec(origin: Option<Seq<char>>, allow: Seq<char>) -> ResponseV {
    match origin {
        None => ResponseV { status: 200, headers: Seq::empty(), body: Seq::empty() },
        Some(o) => ResponseV {
            status: 204,
            headers: preflight_headers(spec_split(allow).contains(o), o),
            body: Seq::empty(),
        },
    }
}

/// Answers a CORS preflight request.
pub fn preflight(origin: Option<&str>, allow: &str) -> (r: HttpResponse)
    ensures
        resp_view(r) == preflight_spec(opt_str_view(origin), allow@),
{
    match origin {
        None => {
            let r = HttpResponse { status: 200, headers: Vec::new(), body: String::new() };
            proof {
                assert(headers_view(r.headers@) =~= Seq::<(Seq<char>, Seq<char>)>::empty());
            }
            r
        },
        Some(o) => {
            let granted = origin_allowed(o, allow);
            let mut headers: Vec<(String, String)> = Vec::new();
            headers.push((String::from_str("Access-Control-Allow-Headers"), String::from_str("Content-Type")));
            headers.push((String::from_str("Access-Control-Allow-Methods"), String::from_str("POST")));
            if granted {
                headers.push((String::from_str("Access-Control-Allow-Origin"), String::from_str(o)));
            }
            headers.push((String::from_str("Access-Control-Max-Age"), String::from_str("86400")));
            let r = HttpResponse { status: 204, headers, body: String::new() };
            proof {
                assert(headers_view(r.headers@) =~= preflight_headers(
                    spec_split(allow@).contains(o@),
                    o@,
                ));
            }
            r
        },
    }
}

} // verus!
