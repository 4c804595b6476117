use vstd::prelude::*;
use vstd::string::*;

use crate::error::SyncError;

verus! {

/// Endpoint whose plain-text body reports the caller's address.
pub const TRACE_URL: &'static str = "https://cloudflare.com/cdn-cgi/trace";

/// No character in `s[from..to]` equals `c`.
pub open spec fn lacks(s: Seq<char>, c: char, from: int, to: int) -> bool {
    forall|k: int| from <= k < to ==> s[k] != c
}

/// `body[start..end]` is a whole line of the form `ip=<value>`, where the
/// value holds no `=`.
pub open spec fn ip_line(body: Seq<char>, start: int, end: int) -> bool {
    &&& 0 <= start
    &&& start + 3 <= end <= body.len()
    &&& (start == 0 || body[start - 1] == '\n')
    &&& (end == body.len() || body[end] == '\n')
    &&& lacks(body, '\n', start, end)
    &&& body[start] == 'i'
    &&& body[start + 1] == 'p'
    &&& body[start + 2] == '='
    &&& lacks(body, '=', start + 3, end)
}

/// Reads the detected address from a trace body: the value of its first
/// line `ip=<value>`, or `NotFound` when no line has that form.
pub fn parse_trace_ip(body: &str) -> (r: Result<String, SyncError>)
    ensures
        match r {
            Ok(v) => exists|s: int, e: int|
                #![trigger ip_line(body@, s, e)]
                ip_line(body@, s, e) && v@ == body@.subrange(s + 3, e) && forall|s2: int, e2: int|
                    #![trigger ip_line(body@, s2, e2)]
                    ip_line(body@, s2, e2) ==> s <= s2,
            Err(err) => err == SyncError::NotFound && forall|s: int, e: int|
                #![trigger ip_line(body@, s, e)]
                !ip_line(body@, s, e),
        },
{
    let n = body.unicode_len();
    let mut start: usize = 0;
    loop
        invariant
            n == body@.len(),
            start <= n,
            start == 0 || body@[start - 1] == '\n',
            forall|s: int, e: int| #![trigger ip_line(body@, s, e)] ip_line(body@, s, e) ==> start <= s,
        decreases n + 1 - start,
    {
        let mut end: usize = start;
        while end < n && body.get_char(end) != '\n'
            invariant
                n == body@.len(),
                start <= end <= n,
                lacks(body@, '\n', start as int, end as int),
            decreases n - end,
        {
            end = end + 1;
        }
        let mut matched = end - start >= 3 && body.get_char(start) == 'i' && body.get_char(start + 1)
            == 'p' && body.get_char(start + 2) == '=';
        if matched {
            let mut k: usize = start + 3;
            while k < end
                invariant
                    n == body@.len(),
                    start + 3 <= k <= end <= n,
                    matched ==> lacks(body@, '=', start + 3, k as int),
                    !matched ==> !lacks(body@, '=', start + 3, end as int),
                decreases end - k,
            {
                if body.get_char(k) == '=' {
                    matched = false;
                    k = end;
                } else {
                    k = k + 1;
                }
            }
        }
        proof {
            assert forall|s: int, e: int| #![trigger ip_line(body@, s, e)]
                ip_line(body@, s, e) && s <= end implies s == start && e == end by {
                if s > start {
                    assert(body@[s - 1] == '\n');
                }
                if e < end {
                    assert(body@[e] == '\n');
                }
                if e > end {
                    assert(body@[end as int] == '\n');
                }
            }
        }
        if matched {
            let v = String::from_str(body.substring_char(start + 3, end));
            assert(ip_line(body@, start as int, end as int));
            return Ok(v);
        }
        if end == n {
            return Err(SyncError::NotFound);
        }
        start = end + 1;
    }
}

} // verus!
