use vstd::prelude::*;

verus! {

/// Request method of the HTTP probe.
#[allow(non_camel_case_types)]
#[derive(Clone, Copy, Debug, PartialEq, Eq, Structural)]
pub enum HttpMethod {
    GET,
    POST,
    PUT,
    DELETE,
}

impl Default for HttpMethod {
    /// The probe defaults to a plain GET.
    fn default() -> (r: Self)
        ensures
            r == HttpMethod::GET,
    {
        HttpMethod::GET
    }
}

impl HttpMethod {
    /// Whether a request of this method carries `body`: only non-GET
    /// requests do, and only when the body text is non-empty.
    pub fn sends_body(&self, body: &str) -> (r: bool)
        ensures
            r == (*self != HttpMethod::GET && body@.len() != 0),
    {
        *self != HttpMethod::GET && body.unicode_len() != 0
    }
}

/// The header list as character sequences: what the contracts speak of.
pub open spec fn header_views(s: Seq<(String, String)>) -> Seq<(Seq<char>, Seq<char>)> {
    s.map_values(|p: (String, String)| (p.0@, p.1@))
}

/// A header pair is sent only when both its name and its value are
/// non-empty.
pub open spec fn sendable(q: (Seq<char>, Seq<char>)) -> bool {
    q.0.len() > 0 && q.1.len() > 0
}

/// The sendable pairs of a header list, in their given order.
pub open spec fn sendable_headers(s: Seq<(Seq<char>, Seq<char>)>) -> Seq<(Seq<char>, Seq<char>)>
    decreases s.len(),
{
    if s.len() == 0 {
        Seq::<(Seq<char>, Seq<char>)>::empty()
    } else {
        let rest = sendable_headers(s.drop_last());
        if sendable(s.last()) {
            rest.push(s.last())
        } else {
            rest
        }
    }
}

/// The header pairs that actually go onto a request: those with a non-empty
/// name and a non-empty value, in their given order.
pub fn usable_headers(headers: &Vec<(String, String)>) -> (r: Vec<(String, String)>)
    ensures
        header_views(r@) == sendable_headers(header_views(headers@)),
{
    let mut r: Vec<(String, String)> = Vec::new();
    let n = headers.len();
    let mut i: usize = 0;
    proof {
        assert(headers@.take(0) =~= Seq::<(String, String)>::empty());
        assert(header_views(r@) =~= sendable_headers(header_views(headers@.take(0))));
    }
    while i < n
        invariant
            n == headers@.len(),
            i <= n,
            header_views(r@) == sendable_headers(header_views(headers@.take(i as int))),
        decreases n - i,
    {
        let name = headers[i].0.clone();
        let value = headers[i].1.clone();
        let keep = name.as_str().unicode_len() > 0 && value.as_str().unicode_len() > 0;
        proof {
            let prefix = header_views(headers@.take(i as int));
            let longer = header_views(headers@.take(i + 1));
            assert(headers@.take(i + 1).drop_last() =~= headers@.take(i as int));
            assert(longer.drop_last() =~= prefix);
            assert(longer.len() != 0);
            assert(longer.last() == (headers@[i as int].0@, headers@[i as int].1@));
            assert(keep == sendable(longer.last()));
        }
        if keep {
            r.push((name, value));
            proof {
                assert(header_views(r@)
                    =~= sendable_headers(header_views(headers@.take(i + 1))));
            }
        } else {
            proof {
                assert(header_views(r@)
                    =~= sendable_headers(header_views(headers@.take(i + 1))));
            }
        }
        i = i + 1;
    }
    proof {
        assert(headers@.take(n as int) =~= headers@);
    }
    r
}

} // verus!
