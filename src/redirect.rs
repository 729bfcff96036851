//! Reading the provider's redirect: the request line of the one accepted
//! loopback connection, its query string and the `code` and `state` in it.
use vstd::prelude::*;
use vstd::string::StrSliceExecFns;

use crate::encoding::{form_pairs, form_pairs_of, pairs_view};
use crate::error::FlowError;

verus! {

pub open spec fn is_space(c: char) -> bool {
    c == ' ' || c == '\t' || c == '\r' || c == '\n'
}

/// The line without its trailing white space (the line break).
pub open spec fn trim_end(l: Seq<char>) -> Seq<char>
    decreases l.len(),
{
    if l.len() > 0 && is_space(l.last()) {
        trim_end(l.drop_last())
    } else {
        l
    }
}

pub open spec fn method_prefix() -> Seq<char> {
    seq!['G', 'E', 'T', ' ']
}

pub open spec fn version_prefix() -> Seq<char> {
    seq![' ', 'H', 'T', 'T', 'P', '/', '1', '.']
}

/// The target of a request line `GET <target> HTTP/1.<digit>`, where the
/// target is not empty and holds no white space; `None` for any other line.
pub open spec fn request_target_of(line: Seq<char>) -> Option<Seq<char>> {
    let t = trim_end(line);
    if t.len() >= 14 && t.subrange(0, 4) == method_prefix() && t.subrange(
        t.len() - 9,
        t.len() - 1,
    ) == version_prefix() && '0' <= t.last() <= '9' && forall|i: int|
        4 <= i < t.len() - 9 ==> !is_space(#[trigger] t[i]) {
        Some(t.subrange(4, t.len() - 9))
    } else {
        None
    }
}

/// The index of the first `c` in `s`, or `s.len()` where there is none.
pub open spec fn index_of(s: Seq<char>, c: char) -> int
    decreases s.len(),
{
    if s.len() == 0 {
        0
    } else if s[0] == c {
        0
    } else {
        1 + index_of(s.drop_first(), c)
    }
}

/// The query string of a request target: what follows the first `?`, up to
/// a `#`; empty where the target has no `?`.
pub open spec fn query_of(target: Seq<char>) -> Seq<char> {
    let q = index_of(target, '?');
    if q < target.len() {
        let rest = target.subrange(q + 1, target.len() as int);
        rest.subrange(0, index_of(rest, '#'))
    } else {
        Seq::empty()
    }
}

/// The value of the first pair named `key`.
pub open spec fn param_of(pairs: Seq<(Seq<char>, Seq<char>)>, key: Seq<char>) -> Option<
    Seq<char>,
>
    decreases pairs.len(),
{
    if pairs.len() == 0 {
        None
    } else if pairs[0].0 == key {
        Some(pairs[0].1)
    } else {
        param_of(pairs.drop_first(), key)
    }
}

pub open spec fn code_key() -> Seq<char> {
    seq!['c', 'o', 'd', 'e']
}

pub open spec fn state_key() -> Seq<char> {
    seq!['s', 't', 'a', 't', 'e']
}

/// What the decoded query pairs of a redirect give, for the state issued:
/// the authorization code, or why there is none.
pub open spec fn pairs_outcome(pairs: Seq<(Seq<char>, Seq<char>)>, issued: Seq<char>) -> Result<
    Seq<char>,
    FlowError,
> {
    match (param_of(pairs, code_key()), param_of(pairs, state_key())) {
        (Some(code), Some(state)) => if state == issued {
            Ok(code)
        } else {
            Err(FlowError::CsrfMismatch)
        },
        _ => Err(FlowError::MissingParameter),
    }
}

/// What a captured request line gives, for the state issued.
pub open spec fn redirect_outcome(line: Seq<char>, issued: Seq<char>) -> Result<
    Seq<char>,
    FlowError,
> {
    match request_target_of(line) {
        Some(t) => pairs_outcome(form_pairs_of(query_of(t)), issued),
        None => Err(FlowError::MalformedRedirect),
    }
}

pub open spec fn result_view(r: Result<String, FlowError>) -> Result<Seq<char>, FlowError> {
    match r {
        Ok(s) => Ok(s@),
        Err(e) => Err(e),
    }
}

proof fn lemma_index_of(s: Seq<char>, c: char, i: int)
    requires
        0 <= i <= s.len(),
        forall|j: int| 0 <= j < i ==> s[j] != c,
        i == s.len() || s[i] == c,
    ensures
        index_of(s, c) == i,
    decreases i,
{
    if i > 0 {
        assert(s[0] != c);
        lemma_index_of(s.drop_first(), c, i - 1);
    }
}

/// The index of the first `c` in `s`, or its length.
fn find_char(s: &str, len: usize, from: usize, c: char) -> (r: usize)
    requires
        len == s@.len(),
        from <= len,
    ensures
        from + r == from + index_of(s@.subrange(from as int, len as int), c),
        r <= len - from,
{
    let mut i: usize = from;
    while i < len && s.get_char(i) != c
        invariant
            len == s@.len(),
            from <= i <= len,
            forall|j: int| from <= j < i ==> s@[j] != c,
        decreases len - i,
    {
        i = i + 1;
    }
    proof {
        lemma_index_of(s@.subrange(from as int, len as int), c, i - from);
    }
    i - from
}

fn space_char(c: char) -> (r: bool)
    ensures
        r == is_space(c),
{
    c == ' ' || c == '\t' || c == '\r' || c == '\n'
}

/// The length of the line without its trailing white space.
fn trimmed_len(line: &str, len: usize) -> (n: usize)
    requires
        len == line@.len(),
    ensures
        n <= len,
        trim_end(line@) == line@.subrange(0, n as int),
{
    let mut n: usize = len;
    assert(line@.subrange(0, len as int) =~= line@);
    while n > 0 && space_char(line.get_char(n - 1))
        invariant
            n <= len == line@.len(),
            trim_end(line@) == trim_end(line@.subrange(0, n as int)),
        decreases n,
    {
        proof {
            assert(line@.subrange(0, n as int).drop_last() =~= line@.subrange(0, n - 1));
        }
        n = n - 1;
    }
    n
}

/// Whether the first `n` characters open with `GET ` and close with
/// ` HTTP/1.` and a digit.
fn framed(line: &str, n: usize) -> (r: bool)
    requires
        14 <= n <= line@.len(),
    ensures
        r == ({
            let t = line@.subrange(0, n as int);
            t.subrange(0, 4) == method_prefix() && t.subrange(t.len() - 9, t.len() - 1)
                == version_prefix() && '0' <= t.last() <= '9'
        }),
{
    let ghost t = line@.subrange(0, n as int);
    let ok_method = line.get_char(0) == 'G' && line.get_char(1) == 'E' && line.get_char(2) == 'T'
        && line.get_char(3) == ' ';
    let v = n - 9;
    let ok_version = line.get_char(v) == ' ' && line.get_char(v + 1) == 'H' && line.get_char(v + 2)
        == 'T' && line.get_char(v + 3) == 'T' && line.get_char(v + 4) == 'P' && line.get_char(v + 5)
        == '/' && line.get_char(v + 6) == '1' && line.get_char(v + 7) == '.';
    let d = line.get_char(n - 1);
    let ok_digit = '0' <= d && d <= '9';
    let ghost m = t.subrange(0, 4);
    let ghost w = t.subrange(t.len() - 9, t.len() - 1);
    assert(ok_method == (m =~= method_prefix()));
    assert(ok_version == (w =~= version_prefix()));
    ok_method && ok_version && ok_digit
}

/// Whether no white space stands in `line@[from..to]`.
fn no_space_between(line: &str, from: usize, to: usize) -> (r: bool)
    requires
        from <= to <= line@.len(),
    ensures
        r == forall|j: int| from <= j < to ==> !is_space(#[trigger] line@[j]),
{
    let mut i: usize = from;
    while i < to
        invariant
            from <= i <= to <= line@.len(),
            forall|j: int| from <= j < i ==> !is_space(#[trigger] line@[j]),
        decreases to - i,
    {
        if space_char(line.get_char(i)) {
            return false;
        }
        i = i + 1;
    }
    true
}

/// The target of a request line `GET <target> HTTP/1.x`.
pub fn request_target(line: &str) -> (r: Option<String>)
    ensures
        match r {
            Some(t) => request_target_of(line@) == Some(t@),
            None => request_target_of(line@) is None,
        },
{
    let len = line.unicode_len();
    let n = trimmed_len(line, len);
    let ghost t = line@.subrange(0, n as int);
    if n < 14 {
        return None;
    }
    if !framed(line, n) {
        return None;
    }
    let v = n - 9;
    let clear = no_space_between(line, 4, v);
    if !clear {
        proof {
            let j = choose|j: int| 4 <= j < v && is_space(#[trigger] line@[j]);
            assert(t[j] == line@[j]);
        }
        return None;
    }
    assert forall|j: int| 4 <= j < t.len() - 9 implies !is_space(#[trigger] t[j]) by {
        assert(t[j] == line@[j]);
    }
    let target = line.substring_char(4, v);
    assert(target@ =~= t.subrange(4, t.len() - 9));
    Some(target.to_owned())
}

/// The query string of a request target.
pub fn query(target: &str) -> (r: String)
    ensures
        r@ == query_of(target@),
{
    let len = target.unicode_len();
    let q = find_char(target, len, 0, '?');
    assert(target@.subrange(0, len as int) =~= target@);
    if q == len {
        return String::new();
    }
    let h = find_char(target, len, q + 1, '#');
    let ghost rest = target@.subrange(q + 1, len as int);
    let s = target.substring_char(q + 1, q + 1 + h);
    assert(s@ =~= rest.subrange(0, h as int));
    s.to_owned()
}

/// The value of the first pair named `key`.
pub fn find_param(pairs: &Vec<(String, String)>, key: &String) -> (r: Option<String>)
    ensures
        match r {
            Some(v) => param_of(pairs_view(pairs@), key@) == Some(v@),
            None => param_of(pairs_view(pairs@), key@) is None,
        },
{
    let ghost all = pairs_view(pairs@);
    let mut i: usize = 0;
    assert(all.subrange(0, all.len() as int) =~= all);
    while i < pairs.len()
        invariant
            i <= pairs@.len(),
            all == pairs_view(pairs@),
            param_of(all, key@) == param_of(all.subrange(i as int, all.len() as int), key@),
        decreases pairs.len() - i,
    {
        let ghost rest = all.subrange(i as int, all.len() as int);
        assert(rest.drop_first() =~= all.subrange(i + 1, all.len() as int));
        assert(rest[0] == (pairs@[i as int].0@, pairs@[i as int].1@));
        if pairs[i].0.eq(key) {
            return Some(pairs[i].1.clone());
        }
        i = i + 1;
    }
    None
}

/// The authorization code that decoded query pairs carry, provided that
/// their `state` is the one issued.
pub fn validate_redirect_pairs(pairs: &Vec<(String, String)>, issued_state: &String) -> (r: Result<
    String,
    FlowError,
>)
    ensures
        result_view(r) == pairs_outcome(pairs_view(pairs@), issued_state@),
{
    let code_name = String::from_str("code");
    let state_name = String::from_str("state");
    proof {
        reveal_strlit("code");
        reveal_strlit("state");
        assert(code_name@ =~= code_key());
        assert(state_name@ =~= state_key());
    }
    let code = find_param(pairs, &code_name);
    let state = find_param(pairs, &state_name);
    match (code, state) {
        (Some(code), Some(state)) => {
            if state.eq(issued_state) {
                Ok(code)
            } else {
                Err(FlowError::CsrfMismatch)
            }
        },
        _ => Err(FlowError::MissingParameter),
    }
}

/// The authorization code that a captured request line carries, provided
/// that the line is well formed and its `state` is the one issued.
pub fn capture_redirect(line: &str, issued_state: &String) -> (r: Result<String, FlowError>)
    ensures
        result_view(r) == redirect_outcome(line@, issued_state@),
{
    match request_target(line) {
        None => Err(FlowError::MalformedRedirect),
        Some(target) => {
            let q = query(target.as_str());
            let pairs = form_pairs(q.as_str());
            validate_redirect_pairs(&pairs, issued_state)
        },
    }
}

} // verus!

verus! {

/// The value of parameter `key` on the redirect that a request line carries;
/// `None` where the line is malformed or the parameter absent.
pub open spec fn redirect_param(line: Seq<char>, key: Seq<char>) -> Option<Seq<char>> {
    match request_target_of(line) {
        Some(t) => param_of(form_pairs_of(query_of(t)), key),
        None => None,
    }
}

/// A redirect yields a code only where its `state` is the one issued; where
/// it carries a code and some other state, the flow fails with
/// `CsrfMismatch`, so no code reaches the token exchange.
pub proof fn lemma_forged_state_rejected(line: Seq<char>, issued: Seq<char>)
    ensures
        redirect_outcome(line, issued) is Ok ==> redirect_param(line, state_key()) == Some(issued),
        redirect_param(line, code_key()) is Some && redirect_param(line, state_key()) is Some
            && redirect_param(line, state_key()) != Some(issued) ==> redirect_outcome(line, issued)
            == Err::<Seq<char>, FlowError>(FlowError::CsrfMismatch),
{
}

/// A well-formed redirect that lacks `code` or `state` fails with
/// `MissingParameter`, whatever state was issued; a malformed request line
/// fails with `MalformedRedirect`. Neither yields a code to exchange.
pub proof fn lemma_missing_parameter_rejected(line: Seq<char>, issued: Seq<char>)
    ensures
        request_target_of(line) is Some && (redirect_param(line, code_key()) is None
            || redirect_param(line, state_key()) is None) ==> redirect_outcome(line, issued)
            == Err::<Seq<char>, FlowError>(FlowError::MissingParameter),
        request_target_of(line) is None ==> redirect_outcome(line, issued) == Err::<
            Seq<char>,
            FlowError,
        >(FlowError::MalformedRedirect),
{
}

} // verus!
