use vstd::prelude::*;

use vstd::string::StrSliceExecFns;
use vstd::string::StringExecFns;

use crate::errors::AuthError;
use crate::errors::ProtocolViolation;
use crate::textenc::url_decode;
use crate::textenc::urldec_of;

verus! {

/// The fixed page written back to the browser after the one redirect, so
/// the user-facing tab always shows a terminal page.
pub fn confirmation_response() -> (r: &'static str)
    ensures
        r@ == "HTTP/1.1 200 OK\r\nContent-Type: text/html\r\nConnection: close\r\n\r\n<!doctype html><html><body><h3>You can return to Taura.</h3></body></html>"@,
{
    "HTTP/1.1 200 OK\r\nContent-Type: text/html\r\nConnection: close\r\n\r\n<!doctype html><html><body><h3>You can return to Taura.</h3></body></html>"
}

/// The first position at or after `i` where `c` occurs in `s`, or the
/// length of `s` when it does not occur there.
pub open spec fn find_char_from(s: Seq<char>, i: int, c: char) -> int
    recommends
        0 <= i <= s.len(),
    decreases s.len() - i
        when 0 <= i <= s.len()
{
    if i >= s.len() {
        s.len() as int
    } else if s[i] == c {
        i
    } else {
        find_char_from(s, i + 1, c)
    }
}

pub proof fn lemma_find_char_from(s: Seq<char>, i: int, c: char)
    requires
        0 <= i <= s.len(),
    ensures
        i <= find_char_from(s, i, c) <= s.len(),
        find_char_from(s, i, c) < s.len() ==> s[find_char_from(s, i, c)] == c,
    decreases s.len() - i,
{
    if i < s.len() && s[i] != c {
        lemma_find_char_from(s, i + 1, c);
    }
}

/// First occurrence of `c` in `s` at or after `from`, or the length of `s`.
fn find_char(s: &str, from: usize, c: char) -> (r: usize)
    requires
        from <= s@.len(),
    ensures
        r == find_char_from(s@, from as int, c),
        from <= r <= s@.len(),
        r < s@.len() ==> s@[r as int] == c,
{
    let n = s.unicode_len();
    let mut i = from;
    while i < n
        invariant
            from <= i <= n,
            n == s@.len(),
            find_char_from(s@, from as int, c) == find_char_from(s@, i as int, c),
        decreases n - i,
    {
        if s.get_char(i) == c {
            return i;
        }
        i = i + 1;
    }
    i
}

/// ASCII whitespace, as it occurs in an HTTP request line.
pub open spec fn is_ws(c: char) -> bool {
    c == ' ' || c == '\t' || c == '\r' || c == '\n' || c == '\u{b}' || c == '\u{c}'
}

/// The first position at or after `i` whose character's whitespace-ness
/// equals `want_ws`, or the length of `s`.
pub open spec fn scan_from(s: Seq<char>, i: int, want_ws: bool) -> int
    recommends
        0 <= i <= s.len(),
    decreases s.len() - i
        when 0 <= i <= s.len()
{
    if i >= s.len() {
        s.len() as int
    } else if is_ws(s[i]) == want_ws {
        i
    } else {
        scan_from(s, i + 1, want_ws)
    }
}

pub proof fn lemma_scan_from(s: Seq<char>, i: int, want_ws: bool)
    requires
        0 <= i <= s.len(),
    ensures
        i <= scan_from(s, i, want_ws) <= s.len(),
    decreases s.len() - i,
{
    if i < s.len() && is_ws(s[i]) != want_ws {
        lemma_scan_from(s, i + 1, want_ws);
    }
}

fn is_ws_exec(c: char) -> (r: bool)
    ensures
        r == is_ws(c),
{
    c == ' ' || c == '\t' || c == '\r' || c == '\n' || c == '\u{b}' || c == '\u{c}'
}

fn scan(s: &str, from: usize, want_ws: bool) -> (r: usize)
    requires
        from <= s@.len(),
    ensures
        r == scan_from(s@, from as int, want_ws),
        from <= r <= s@.len(),
    decreases s@.len() - from,
{
    let n = s.unicode_len();
    let mut i = from;
    while i < n
        invariant
            from <= i <= n,
            n == s@.len(),
            scan_from(s@, from as int, want_ws) == scan_from(s@, i as int, want_ws),
        decreases n - i,
    {
        if is_ws_exec(s.get_char(i)) == want_ws {
            return i;
        }
        i = i + 1;
    }
    i
}

/// The bounds of the second whitespace-separated token of `line`, or `None`
/// when `line` holds fewer than two tokens.
pub open spec fn second_token_range(line: Seq<char>) -> Option<(int, int)> {
    let a = scan_from(line, 0, false);
    if a >= line.len() {
        None
    } else {
        let b = scan_from(line, a, true);
        let c = scan_from(line, b, false);
        if c >= line.len() {
            None
        } else {
            Some((c, scan_from(line, c, true)))
        }
    }
}

/// The second whitespace-separated token of `line`, when there is one.
pub open spec fn second_token(line: Seq<char>) -> Option<Seq<char>> {
    match second_token_range(line) {
        None => None,
        Some((c, d)) => Some(line.subrange(c, d)),
    }
}

/// Extracts the second whitespace-separated token, the request path of an
/// HTTP request line.
fn second_token_exec(line: &str) -> (r: Option<String>)
    ensures
        match r {
            None => second_token(line@) is None,
            Some(t) => second_token(line@) == Some(t@),
        },
{
    let n = line.unicode_len();
    let a = scan(line, 0, false);
    if a >= n {
        return None;
    }
    let b = scan(line, a, true);
    proof {
        lemma_scan_from(line@, a as int, true);
    }
    let c = scan(line, b, false);
    if c >= n {
        return None;
    }
    let d = scan(line, c, true);
    proof {
        lemma_scan_from(line@, c as int, true);
    }
    Some(String::from_str(line.substring_char(c, d)))
}

/// A query segment split at its first `=`: the raw key and raw value, with
/// an empty value when there is no `=`.
pub open spec fn pair_of(seg: Seq<char>) -> (Seq<char>, Seq<char>) {
    let k = find_char_from(seg, 0, '=');
    if k >= seg.len() {
        (seg, Seq::empty())
    } else {
        (seg.subrange(0, k), seg.subrange(k + 1, seg.len() as int))
    }
}

/// The raw key/value pairs of the query string `qs` from position `i` on:
/// segments split on `&`, each segment split at its first `=`.
pub open spec fn pairs_from(qs: Seq<char>, i: int) -> Seq<(Seq<char>, Seq<char>)>
    recommends
        0 <= i <= qs.len(),
    decreases qs.len() - i
        when 0 <= i <= qs.len()
        via pairs_from_decreases
{
    let j = find_char_from(qs, i, '&');
    let pr = pair_of(qs.subrange(i, j));
    if j >= qs.len() {
        seq![pr]
    } else {
        seq![pr] + pairs_from(qs, j + 1)
    }
}

#[via_fn]
proof fn pairs_from_decreases(qs: Seq<char>, i: int) {
    lemma_find_char_from(qs, i, '&');
}

/// All raw key/value pairs of a query string, in order.
pub open spec fn query_pairs(qs: Seq<char>) -> Seq<(Seq<char>, Seq<char>)> {
    pairs_from(qs, 0)
}

/// The views of a vector of owned pairs.
pub open spec fn pair_views(ps: Seq<(String, String)>) -> Seq<(Seq<char>, Seq<char>)> {
    ps.map_values(|p: (String, String)| (p.0@, p.1@))
}

fn split_pair(seg: &str) -> (r: (String, String))
    ensures
        (r.0@, r.1@) == pair_of(seg@),
{
    let n = seg.unicode_len();
    let k = find_char(seg, 0, '=');
    if k >= n {
        (String::from_str(seg), String::new())
    } else {
        (
            String::from_str(seg.substring_char(0, k)),
            String::from_str(seg.substring_char(k + 1, n)),
        )
    }
}

/// Splits a query string on `&`, and each segment at its first `=`.
pub fn parse_query_pairs(qs: &str) -> (pairs: Vec<(String, String)>)
    ensures
        pair_views(pairs@) == query_pairs(qs@),
{
    let n = qs.unicode_len();
    let mut pairs: Vec<(String, String)> = Vec::new();
    let mut i: usize = 0;
    loop
        invariant
            i <= n,
            n == qs@.len(),
            query_pairs(qs@) == pair_views(pairs@) + pairs_from(qs@, i as int),
        ensures
            pair_views(pairs@) == query_pairs(qs@),
        decreases n - i,
    {
        proof {
            lemma_find_char_from(qs@, i as int, '&');
        }
        let j = find_char(qs, i, '&');
        let pr = split_pair(qs.substring_char(i, j));
        let ghost prev = pair_views(pairs@);
        pairs.push(pr);
        proof {
            assert(pair_views(pairs@) =~= prev.push((pr.0@, pr.1@)));
        }
        if j >= n {
            proof {
                assert(pairs_from(qs@, i as int) =~= seq![(pr.0@, pr.1@)]);
                assert(pair_views(pairs@) =~= query_pairs(qs@));
            }
            return pairs;
        }
        proof {
            assert(pairs_from(qs@, i as int) =~= seq![(pr.0@, pr.1@)] + pairs_from(
                qs@,
                j + 1,
            ));
            assert(pair_views(pairs@) + pairs_from(qs@, j + 1 as int) =~= query_pairs(qs@));
        }
        i = j + 1;
    }
}

/// Whether some `state` pair of the query decodes to something other than
/// the expected state: grounds for rejecting the redirect outright.
pub open spec fn has_bad_state(pairs: Seq<(Seq<char>, Seq<char>)>, expected: Seq<char>) -> bool {
    exists|i|
        0 <= i < pairs.len() && (#[trigger] pairs[i]).0 == "state"@ && urldec_of(pairs[i].1)
            != expected
}

/// The raw value of the last `code` pair, when any.
pub open spec fn last_code_value(pairs: Seq<(Seq<char>, Seq<char>)>) -> Option<Seq<char>>
    decreases pairs.len(),
{
    if pairs.len() == 0 {
        None
    } else if pairs.last().0 == "code"@ {
        Some(pairs.last().1)
    } else {
        last_code_value(pairs.drop_last())
    }
}

/// What a redirect whose query decomposes into `pairs` yields against the
/// expected state: a mismatched `state` always rejects, then the decoded
/// last `code` value is required.
pub open spec fn redirect_outcome(pairs: Seq<(Seq<char>, Seq<char>)>, expected: Seq<char>) -> Result<
    Seq<char>,
    ProtocolViolation,
> {
    if has_bad_state(pairs, expected) {
        Err(ProtocolViolation::StateMismatch)
    } else {
        match last_code_value(pairs) {
            Some(raw) => Ok(urldec_of(raw)),
            None => Err(ProtocolViolation::MissingCode),
        }
    }
}

/// A redirect carrying any `state` that decodes to something other than
/// the attempt's state is rejected, whether or not a `code` is present.
pub proof fn lemma_state_mismatch_rejected(
    pairs: Seq<(Seq<char>, Seq<char>)>,
    expected: Seq<char>,
    i: int,
)
    requires
        0 <= i < pairs.len(),
        pairs[i].0 == "state"@,
        urldec_of(pairs[i].1) != expected,
    ensures
        redirect_outcome(pairs, expected) == Err::<Seq<char>, ProtocolViolation>(
            ProtocolViolation::StateMismatch,
        ),
{
    assert(has_bad_state(pairs, expected));
}

/// A redirect without any `code` pair is rejected even when every `state`
/// pair matches the attempt's state.
pub proof fn lemma_missing_code_rejected(pairs: Seq<(Seq<char>, Seq<char>)>, expected: Seq<char>)
    requires
        forall|i| 0 <= i < pairs.len() ==> (#[trigger] pairs[i]).0 != "code"@,
    ensures
        redirect_outcome(pairs, expected) is Err,
        !has_bad_state(pairs, expected) ==> redirect_outcome(pairs, expected) == Err::<
            Seq<char>,
            ProtocolViolation,
        >(ProtocolViolation::MissingCode),
{
    lemma_no_code_key_no_value(pairs);
}

proof fn lemma_no_code_key_no_value(pairs: Seq<(Seq<char>, Seq<char>)>)
    requires
        forall|i| 0 <= i < pairs.len() ==> (#[trigger] pairs[i]).0 != "code"@,
    ensures
        last_code_value(pairs) is None,
    decreases pairs.len(),
{
    if pairs.len() > 0 {
        assert(pairs.last() == pairs[pairs.len() - 1]);
        lemma_no_code_key_no_value(pairs.drop_last());
    }
}

/// Walks the decoded pairs as the redirect handler does: rejects on the
/// first mismatched `state`, remembers the last `code`.
pub fn evaluate_redirect_pairs(pairs: &Vec<(String, String)>, expected_state: &str) -> (r: Result<
    String,
    AuthError,
>)
    ensures
        ({
            let o = redirect_outcome(pair_views(pairs@), expected_state@);
            match r {
                Ok(c) => o == Ok::<Seq<char>, ProtocolViolation>(c@),
                Err(AuthError::Protocol(v)) => o == Err::<Seq<char>, ProtocolViolation>(v),
                Err(_) => false,
            }
        }),
{
    let state_key = String::from_str("state");
    let code_key = String::from_str("code");
    let expected = String::from_str(expected_state);
    let ghost views = pair_views(pairs@);
    let mut code_opt: Option<String> = None;
    let mut idx: usize = 0;
    while idx < pairs.len()
        invariant
            idx <= pairs@.len(),
            views == pair_views(pairs@),
            state_key@ == "state"@,
            code_key@ == "code"@,
            expected@ == expected_state@,
            forall|i|
                0 <= i < idx ==> !((#[trigger] views[i]).0 == "state"@ && urldec_of(views[i].1)
                    != expected_state@),
            match (code_opt, last_code_value(views.take(idx as int))) {
                (Option::None, Option::None) => true,
                (Option::Some(c), Option::Some(raw)) => c@ == urldec_of(raw),
                _ => false,
            },
        decreases pairs@.len() - idx,
    {
        let v = url_decode(pairs[idx].1.as_str());
        proof {
            assert(views[idx as int] == (pairs@[idx as int].0@, pairs@[idx as int].1@));
        }
        if pairs[idx].0 == state_key && v != expected {
            proof {
                assert(has_bad_state(views, expected_state@));
            }
            return Err(AuthError::Protocol(ProtocolViolation::StateMismatch));
        }
        let ghost old_take = views.take(idx as int);
        if pairs[idx].0 == code_key {
            code_opt = Some(v);
        }
        idx = idx + 1;
        proof {
            assert(views.take(idx as int).drop_last() =~= old_take);
            assert(views.take(idx as int).last() == views[idx - 1]);
        }
    }
    proof {
        assert(views.take(idx as int) =~= views);
    }
    match code_opt {
        Option::Some(c) => Ok(c),
        Option::None => Err(AuthError::Protocol(ProtocolViolation::MissingCode)),
    }
}

/// What handling a raw redirect request against an expected state yields:
/// the first request line's second token must carry a query, whose pairs
/// are then judged by [`redirect_outcome`].
pub open spec fn redirect_spec(req: Seq<char>, expected: Seq<char>) -> Result<
    Seq<char>,
    ProtocolViolation,
> {
    let line = req.subrange(0, find_char_from(req, 0, '\n'));
    match second_token(line) {
        None => Err(ProtocolViolation::MalformedRedirect),
        Some(tok) => {
            let q = find_char_from(tok, 0, '?');
            if q >= tok.len() {
                Err(ProtocolViolation::MissingQuery)
            } else {
                redirect_outcome(query_pairs(tok.subrange(q + 1, tok.len() as int)), expected)
            }
        },
    }
}

/// Parses one redirect request and hands back the decoded authorization
/// code, rejecting a malformed request line, a missing query, a state that
/// does not match the attempt, or a missing code.
pub fn parse_redirect(request: &str, expected_state: &str) -> (r: Result<String, AuthError>)
    ensures
        ({
            let o = redirect_spec(request@, expected_state@);
            match r {
                Ok(c) => o == Ok::<Seq<char>, ProtocolViolation>(c@),
                Err(AuthError::Protocol(v)) => o == Err::<Seq<char>, ProtocolViolation>(v),
                Err(_) => false,
            }
        }),
{
    let eol = find_char(request, 0, '\n');
    let line = request.substring_char(0, eol);
    let tok_opt = second_token_exec(line);
    match tok_opt {
        Option::None => Err(AuthError::Protocol(ProtocolViolation::MalformedRedirect)),
        Option::Some(tok) => {
            let n = tok.as_str().unicode_len();
            let q = find_char(tok.as_str(), 0, '?');
            if q >= n {
                Err(AuthError::Protocol(ProtocolViolation::MissingQuery))
            } else {
                let qs = tok.as_str().substring_char(q + 1, n);
                let pairs = parse_query_pairs(qs);
                evaluate_redirect_pairs(&pairs, expected_state)
            }
        },
    }
}

} // verus!
