//! Matching a request against route patterns and reading its path parameters.
//!
//! A path is cut into segments at each slash, after slashes at its two ends
//! are taken off. A segment of a route pattern that opens with `{` and closes
//! with `}` is a variable: it matches any segment and names a parameter.

use vstd::prelude::*;
use vstd::string::StringExecFns;
use vstd::string::StrSliceExecFns;
use crate::server::http::http_routes::Handleable;
use crate::text::{equal, is_i32, is_i32_text, texts};

verus! {

/// Number of characters at the front of `s` that are `a` or `b`.
pub open spec fn leading(s: Seq<char>, a: char, b: char) -> nat
    decreases s.len(),
{
    if s.len() > 0 && (s[0] == a || s[0] == b) {
        1 + leading(s.drop_first(), a, b)
    } else {
        0
    }
}

/// Number of characters at the back of `s` that are `a` or `b`.
pub open spec fn trailing(s: Seq<char>, a: char, b: char) -> nat
    decreases s.len(),
{
    if s.len() > 0 && (s.last() == a || s.last() == b) {
        1 + trailing(s.drop_last(), a, b)
    } else {
        0
    }
}

/// `s` without the characters `a` and `b` at its two ends.
pub open spec fn trimmed(s: Seq<char>, a: char, b: char) -> Seq<char> {
    if leading(s, a, b) >= s.len() {
        Seq::empty()
    } else {
        s.subrange(leading(s, a, b) as int, s.len() - trailing(s, a, b))
    }
}

/// Position of the first `c` in `s`; the length of `s` when there is none.
pub open spec fn first_index(s: Seq<char>, c: char) -> nat
    decreases s.len(),
{
    if s.len() == 0 || s[0] == c {
        0
    } else {
        1 + first_index(s.drop_first(), c)
    }
}

/// The pieces of `s` between occurrences of `c`. There is always at least one
/// piece; pieces may be empty.
pub open spec fn split(s: Seq<char>, c: char) -> Seq<Seq<char>>
    decreases s.len(),
{
    let i = first_index(s, c);
    if i >= s.len() {
        seq![s]
    } else {
        seq![s.take(i as int)] + split(s.skip(i as int + 1), c)
    }
}

/// The segments of a path.
pub open spec fn segments(path: Seq<char>) -> Seq<Seq<char>> {
    split(trimmed(path, '/', '/'), '/')
}

/// Whether a segment of a route pattern is a variable.
pub open spec fn is_variable(segment: Seq<char>) -> bool {
    segment.len() > 0 && segment[0] == '{' && segment.last() == '}'
}

/// The parameter that a variable segment names: the segment without the
/// braces at its two ends.
pub open spec fn variable_name(segment: Seq<char>) -> Seq<char> {
    trimmed(segment, '{', '}')
}

/// Whether the segments of a request fit those of a route pattern: as many,
/// and each equal to its counterpart unless that is a variable.
pub open spec fn segments_match(pattern: Seq<Seq<char>>, request: Seq<Seq<char>>) -> bool {
    &&& pattern.len() == request.len()
    &&& forall|i: int|
        0 <= i < pattern.len() ==> is_variable(#[trigger] pattern[i]) || pattern[i] == request[i]
}

/// The kind of value a path parameter takes.
#[derive(Clone, Copy, Debug, PartialEq, Eq, Structural)]
pub enum ParamType {
    /// Any text.
    AnyString,
    /// A 32-bit signed integer in decimal.
    Integer,
}

/// Method and path pattern of a route, and the parameters it declares. Of two
/// declarations of one name the first counts.
#[derive(Debug)]
pub struct RouteData {
    pub method: String,
    pub path: String,
    pub params: Option<Vec<(String, ParamType)>>,
}

/// Whether a request with this method and path is for the route.
pub open spec fn route_matches(data: RouteData, method: Seq<char>, path: Seq<char>) -> bool {
    data.method@ == method && segments_match(segments(data.path@), segments(path))
}

/// The declared type of the parameter `name`.
pub open spec fn declared_type(params: Seq<(String, ParamType)>, name: Seq<char>) -> Option<
    ParamType,
>
    decreases params.len(),
{
    if params.len() == 0 {
        None
    } else if params[0].0@ == name {
        Some(params[0].1)
    } else {
        declared_type(params.drop_first(), name)
    }
}

/// The parameter that a request segment gives for a pattern segment: the
/// variable's name with the request segment as its value, when the name is
/// declared and the value is of the declared type.
pub open spec fn capture(
    pattern: Seq<char>,
    request: Seq<char>,
    params: Seq<(String, ParamType)>,
) -> Option<(Seq<char>, Seq<char>)> {
    if !is_variable(pattern) {
        None
    } else {
        match declared_type(params, variable_name(pattern)) {
            None => None,
            Some(ParamType::AnyString) => Some((variable_name(pattern), request)),
            Some(ParamType::Integer) => if is_i32_text(request) {
                Some((variable_name(pattern), request))
            } else {
                None
            },
        }
    }
}

/// The parameters given by the first `n` pairs of segments, in path order.
pub open spec fn captures(
    pattern: Seq<Seq<char>>,
    request: Seq<Seq<char>>,
    params: Seq<(String, ParamType)>,
    n: nat,
) -> Seq<(Seq<char>, Seq<char>)>
    decreases n,
{
    if n == 0 {
        Seq::empty()
    } else {
        let before = captures(pattern, request, params, (n - 1) as nat);
        match capture(pattern[n - 1], request[n - 1], params) {
            Some(pair) => before.push(pair),
            None => before,
        }
    }
}

/// The smaller of two lengths.
pub open spec fn shorter(a: nat, b: nat) -> nat {
    if a <= b {
        a
    } else {
        b
    }
}

/// The parameters that the path of a request gives for a route: none for a
/// route that declares none, else those of the segments that both paths have.
pub open spec fn request_params(data: RouteData, path: Seq<char>) -> Seq<(Seq<char>, Seq<char>)> {
    match data.params {
        None => Seq::empty(),
        Some(params) => captures(
            segments(data.path@),
            segments(path),
            params@,
            shorter(segments(data.path@).len(), segments(path).len()),
        ),
    }
}

/// The name and value of each pair.
pub open spec fn pairs(list: Seq<(String, String)>) -> Seq<(Seq<char>, Seq<char>)> {
    Seq::new(list.len(), |i: int| (list[i].0@, list[i].1@))
}

/// The value of the parameter `name`: that of the last pair with this name.
pub open spec fn param_value(params: Seq<(Seq<char>, Seq<char>)>, name: Seq<char>) -> Option<
    Seq<char>,
>
    decreases params.len(),
{
    if params.len() == 0 {
        None
    } else if params.last().0 == name {
        Some(params.last().1)
    } else {
        param_value(params.drop_last(), name)
    }
}

proof fn lemma_leading(s: Seq<char>, a: char, b: char, k: int)
    requires
        0 <= k <= s.len(),
        forall|j: int| 0 <= j < k ==> s[j] == a || s[j] == b,
        k == s.len() || !(s[k] == a || s[k] == b),
    ensures
        leading(s, a, b) == k,
    decreases k,
{
    if k > 0 {
        lemma_leading(s.drop_first(), a, b, k - 1);
    }
}

proof fn lemma_trailing(s: Seq<char>, a: char, b: char, k: int)
    requires
        0 <= k <= s.len(),
        forall|j: int| s.len() - k <= j < s.len() ==> s[j] == a || s[j] == b,
        k == s.len() || !(s[s.len() - k - 1] == a || s[s.len() - k - 1] == b),
    ensures
        trailing(s, a, b) == k,
    decreases k,
{
    if k > 0 {
        lemma_trailing(s.drop_last(), a, b, k - 1);
    }
}

proof fn lemma_first_index(s: Seq<char>, c: char, k: int)
    requires
        0 <= k <= s.len(),
        forall|j: int| 0 <= j < k ==> s[j] != c,
        k == s.len() || s[k] == c,
    ensures
        first_index(s, c) == k,
    decreases k,
{
    if k > 0 {
        lemma_first_index(s.drop_first(), c, k - 1);
    }
}

/// Whether the character of `text` at `at` is `a` or `b`.
fn is_either(text: &str, at: usize, a: char, b: char) -> (yes: bool)
    requires
        at < text@.len(),
    ensures
        yes == (text@[at as int] == a || text@[at as int] == b),
{
    let c = text.get_char(at);
    c == a || c == b
}

/// The bounds of `text` without the characters `a` and `b` at its two ends.
fn trim_bounds(text: &str, a: char, b: char) -> (bounds: (usize, usize))
    ensures
        bounds.0 <= bounds.1 <= text@.len(),
        text@.subrange(bounds.0 as int, bounds.1 as int) == trimmed(text@, a, b),
{
    let len = text.unicode_len();
    let mut start: usize = 0;
    while start < len && is_either(text, start, a, b)
        invariant
            start <= len,
            len == text@.len(),
            forall|j: int| 0 <= j < start ==> text@[j] == a || text@[j] == b,
        decreases len - start,
    {
        start += 1;
    }
    proof {
        lemma_leading(text@, a, b, start as int);
    }
    if start == len {
        assert(text@.subrange(start as int, start as int) =~= Seq::<char>::empty());
        return (start, start);
    }
    let mut end: usize = len;
    while end > start + 1 && is_either(text, end - 1, a, b)
        invariant
            start < end <= len,
            len == text@.len(),
            forall|j: int| end <= j < len ==> text@[j] == a || text@[j] == b,
        decreases end,
    {
        end -= 1;
    }
    proof {
        lemma_trailing(text@, a, b, len - end);
    }
    (start, end)
}

/// Cuts a path into its segments.
pub fn path_segments(path: &str) -> (list: Vec<String>)
    ensures
        texts(list@) == segments(path@),
{
    let (start, end) = trim_bounds(path, '/', '/');
    let ghost t = path@.subrange(start as int, end as int);
    let mut list: Vec<String> = Vec::new();
    let mut from: usize = start;
    let mut i: usize = start;
    assert(t.skip(0) =~= t);
    assert(texts(list@) + split(t, '/') =~= split(t, '/'));
    while i < end
        invariant
            start <= from <= i <= end <= path@.len(),
            t == path@.subrange(start as int, end as int),
            forall|j: int| from <= j < i ==> path@[j] != '/',
            texts(list@) + split(t.skip(from - start), '/') == split(t, '/'),
        decreases end - i,
    {
        if path.get_char(i) == '/' {
            let ghost rest = t.skip(from - start);
            let ghost before = texts(list@);
            proof {
                assert forall|j: int| 0 <= j < i - from implies rest[j] != '/' by {
                    assert(rest[j] == path@[from + j]);
                }
                assert(rest[i - from] == path@[i as int]);
                lemma_first_index(rest, '/', i - from);
                assert(rest.take(i - from) =~= path@.subrange(from as int, i as int));
                assert(rest.skip(i - from + 1) =~= t.skip(i + 1 - start));
            }
            list.push(String::from_str(path.substring_char(from, i)));
            proof {
                assert(texts(list@) =~= before.push(rest.take(i - from)));
                assert(texts(list@) + split(t.skip(i + 1 - start), '/') =~= before + split(
                    rest,
                    '/',
                ));
            }
            from = i + 1;
        }
        i += 1;
    }
    let ghost rest = t.skip(from - start);
    let ghost before = texts(list@);
    proof {
        assert forall|j: int| 0 <= j < rest.len() implies rest[j] != '/' by {
            assert(rest[j] == path@[from + j]);
        }
        lemma_first_index(rest, '/', rest.len() as int);
        assert(rest =~= path@.subrange(from as int, end as int));
    }
    list.push(String::from_str(path.substring_char(from, end)));
    proof {
        assert(texts(list@) =~= before.push(rest));
        assert(texts(list@) =~= before + split(rest, '/'));
    }
    list
}

/// Whether a segment of a route pattern is a variable.
fn segment_is_variable(segment: &str) -> (yes: bool)
    ensures
        yes == is_variable(segment@),
{
    let len = segment.unicode_len();
    len > 0 && segment.get_char(0) == '{' && segment.get_char(len - 1) == '}'
}

/// Whether the segments of a request fit those of a route pattern.
fn fits(pattern: &Vec<String>, request: &Vec<String>) -> (yes: bool)
    ensures
        yes == segments_match(texts(pattern@), texts(request@)),
{
    if pattern.len() != request.len() {
        return false;
    }
    let mut i: usize = 0;
    while i < pattern.len()
        invariant
            i <= pattern@.len(),
            pattern@.len() == request@.len(),
            forall|j: int|
                0 <= j < i ==> is_variable(#[trigger] texts(pattern@)[j]) || texts(pattern@)[j]
                    == texts(request@)[j],
        decreases pattern@.len() - i,
    {
        if !segment_is_variable(pattern[i].as_str()) && !(pattern[i] == request[i]) {
            assert(!is_variable(texts(pattern@)[i as int]));
            assert(texts(pattern@)[i as int] != texts(request@)[i as int]);
            return false;
        }
        i += 1;
    }
    true
}

/// Position of the first of `routes` that a request with this method and path
/// is for; the number of routes when it is for none.
pub open spec fn first_route(routes: Seq<Handleable>, method: Seq<char>, path: Seq<char>) -> nat
    decreases routes.len(),
{
    if routes.len() == 0 || route_matches(routes[0].route_data(), method, path) {
        0
    } else {
        1 + first_route(routes.drop_first(), method, path)
    }
}

/// `first_route` is the position before which no route matches and at which
/// one does, if any does.
pub proof fn lemma_first_route(routes: Seq<Handleable>, method: Seq<char>, path: Seq<char>, k: int)
    requires
        0 <= k <= routes.len(),
        forall|j: int| 0 <= j < k ==> !route_matches(#[trigger] routes[j].route_data(), method, path),
        k == routes.len() || route_matches(routes[k].route_data(), method, path),
    ensures
        first_route(routes, method, path) == k,
    decreases k,
{
    if k > 0 {
        assert(!route_matches(routes[0].route_data(), method, path));
        assert forall|j: int| 0 <= j < k - 1 implies !route_matches(
            #[trigger] routes.drop_first()[j].route_data(),
            method,
            path,
        ) by {
            assert(routes.drop_first()[j] == routes[j + 1]);
        }
        lemma_first_route(routes.drop_first(), method, path, k - 1);
    }
}

/// Finds the route that a request is for: the first of `routes` whose method
/// is that of the request and whose pattern its path fits.
pub fn route(req_method: &str, req_path: &str, routes: &Vec<Handleable>) -> (found: Option<usize>)
    ensures
        match found {
            Some(i) => i < routes@.len() && i == first_route(routes@, req_method@, req_path@),
            None => first_route(routes@, req_method@, req_path@) == routes@.len(),
        },
{
    let request = path_segments(req_path);
    let mut i: usize = 0;
    while i < routes.len()
        invariant
            i <= routes@.len(),
            texts(request@) == segments(req_path@),
            forall|j: int|
                0 <= j < i ==> !route_matches(
                    #[trigger] routes@[j].route_data(),
                    req_method@,
                    req_path@,
                ),
        decreases routes@.len() - i,
    {
        let data = routes[i].data();
        if equal(data.method.as_str(), req_method) {
            let pattern = path_segments(data.path.as_str());
            if fits(&pattern, &request) {
                proof {
                    lemma_first_route(routes@, req_method@, req_path@, i as int);
                }
                return Some(i);
            }
        }
        i += 1;
    }
    proof {
        lemma_first_route(routes@, req_method@, req_path@, routes@.len() as int);
    }
    None
}

fn type_of(params: &Vec<(String, ParamType)>, name: &str) -> (declared: Option<ParamType>)
    ensures
        declared == declared_type(params@, name@),
{
    let mut i: usize = 0;
    assert(params@.skip(0) =~= params@);
    while i < params.len()
        invariant
            i <= params@.len(),
            declared_type(params@, name@) == declared_type(params@.skip(i as int), name@),
        decreases params@.len() - i,
    {
        let ghost rest = params@.skip(i as int);
        assert(rest[0] == params@[i as int]);
        assert(rest.drop_first() =~= params@.skip(i + 1));
        if equal(params[i].0.as_str(), name) {
            return Some(params[i].1);
        }
        i += 1;
    }
    None
}

/// Reads the path parameters of a request for a route.
pub fn route_request_params(req_path: &str, route: &RouteData) -> (params: Vec<(String, String)>)
    ensures
        pairs(params@) == request_params(*route, req_path@),
{
    let mut found: Vec<(String, String)> = Vec::new();
    let declared = match &route.params {
        Some(declared) => declared,
        None => {
            assert(pairs(found@) =~= Seq::empty());
            return found;
        },
    };
    let request = path_segments(req_path);
    let pattern = path_segments(route.path.as_str());
    let n = if pattern.len() <= request.len() {
        pattern.len()
    } else {
        request.len()
    };
    let mut i: usize = 0;
    assert(pairs(found@) =~= Seq::empty());
    while i < n
        invariant
            i <= n,
            n <= pattern@.len(),
            n <= request@.len(),
            pairs(found@) == captures(texts(pattern@), texts(request@), declared@, i as nat),
        decreases n - i,
    {
        let ghost before = pairs(found@);
        let segment = pattern[i].as_str();
        if segment_is_variable(segment) {
            let (from, to) = trim_bounds(segment, '{', '}');
            let name = segment.substring_char(from, to);
            let admitted = match type_of(declared, name) {
                None => false,
                Some(ParamType::AnyString) => true,
                Some(ParamType::Integer) => is_i32(request[i].as_str()),
            };
            if admitted {
                found.push((String::from_str(name), request[i].clone()));
                assert(pairs(found@) =~= before.push((name@, request@[i as int]@)));
            }
        }
        i += 1;
    }
    found
}

/// The value of the parameter `name` among those read from a request: that
/// of the last pair with the name.
pub fn find_param<'a>(params: &'a Vec<(String, String)>, name: &str) -> (value: Option<&'a String>)
    ensures
        match value {
            Some(text) => param_value(pairs(params@), name@) == Some(text@),
            None => param_value(pairs(params@), name@).is_none(),
        },
{
    let mut i: usize = params.len();
    assert(pairs(params@).take(i as int) =~= pairs(params@));
    while i > 0
        invariant
            i <= params@.len(),
            param_value(pairs(params@), name@) == param_value(
                pairs(params@).take(i as int),
                name@,
            ),
        decreases i,
    {
        let ghost upto = pairs(params@).take(i as int);
        assert(upto.last() == pairs(params@)[i - 1]);
        assert(upto.drop_last() =~= pairs(params@).take(i - 1));
        if equal(params[i - 1].0.as_str(), name) {
            return Some(&params[i - 1].1);
        }
        i -= 1;
    }
    None
}

} // verus!
