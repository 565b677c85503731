use vstd::prelude::*;

verus! {

/// True when `p` is a prefix of `s`.
pub open spec fn is_prefix(p: Seq<char>, s: Seq<char>) -> bool {
    p.len() <= s.len() && s.subrange(0, p.len() as int) == p
}

/// Whether an image reference already names its scheme.
pub open spec fn has_scheme(s: Seq<char>) -> bool {
    is_prefix("http://"@, s) || is_prefix("https://"@, s)
}

/// An image reference with the default scheme supplied where none stands.
pub open spec fn normalized_url(s: Seq<char>) -> Seq<char> {
    if has_scheme(s) {
        s
    } else {
        "http://"@ + s
    }
}

/// Character-by-character prefix test.
fn str_has_prefix(s: &str, p: &str) -> (r: bool)
    ensures
        r == is_prefix(p@, s@),
{
    let sl = s.unicode_len();
    let pl = p.unicode_len();
    if pl > sl {
        return false;
    }
    let mut i: usize = 0;
    while i < pl
        invariant
            i <= pl,
            pl == p@.len(),
            sl == s@.len(),
            pl <= sl,
            forall|j: int| 0 <= j < i ==> s@[j] == p@[j],
        decreases pl - i,
    {
        if s.get_char(i) != p.get_char(i) {
            proof {
                assert(s@.subrange(0, p@.len() as int)[i as int] != p@[i as int]);
            }
            return false;
        }
        i = i + 1;
    }
    proof {
        assert(s@.subrange(0, p@.len() as int) =~= p@);
    }
    true
}

/// Normalizes a user-supplied image reference: kept as it stands when it
/// already begins with `http://` or `https://`, else prefixed with the
/// default `http://` scheme.
pub fn fix_url(url: &str) -> (r: String)
    ensures
        r@ == normalized_url(url@),
{
    if str_has_prefix(url, "http://") || str_has_prefix(url, "https://") {
        url.to_owned()
    } else {
        let mut s = String::from_str("http://");
        s.append(url);
        s
    }
}

/// What an HTTP status means for the fetch.
#[derive(Clone, Copy, PartialEq, Eq, Structural, Debug)]
pub enum StatusClass {
    Success,
    NotFound,
    Transport,
}

/// Classifies the origin's HTTP status: a 2xx response carries the image
/// bytes, a 404 is the not-found failure, and every other status counts as
/// a transport failure.
pub fn classify_fetch_status(status: u16) -> (r: StatusClass)
    ensures
        (r == StatusClass::Success) <==> (200 <= status < 300),
        (r == StatusClass::NotFound) <==> (status == 404),
        (r == StatusClass::Transport) <==> (!(200 <= status < 300) && status != 404),
{
    if 200 <= status && status < 300 {
        StatusClass::Success
    } else if status == 404 {
        StatusClass::NotFound
    } else {
        StatusClass::Transport
    }
}

} // verus!
