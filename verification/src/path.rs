//! The path grammar: `{client_id}/{package}.{service}/{method}`.
//!
//! A client id is opaque and may hold `/`; a package may hold `.`. So a
//! request path is read from its end: the last `/` parts the method off, the
//! `/` before it parts the client id off, and the last `.` of what lies
//! between parts package from service.

use crate::error::{RpcPathError, RpcPathErrorView};
use vstd::prelude::*;

verus! {

/// A method selector: `{package}.{service}/{method}`.
#[derive(Debug, Clone, PartialEq, Eq, Hash)]
pub struct GrpcPath {
    pub package: String,
    pub service: String,
    pub method: String,
}

/// A request path: `{client_id}/{grpc_path}`.
#[derive(Debug, Clone, PartialEq, Eq)]
pub struct RpcRequestPath {
    pub client_id: String,
    pub grpc_path: GrpcPath,
}

/// [`GrpcPath`] as contracts see it.
pub struct GrpcPathView {
    pub package: Seq<char>,
    pub service: Seq<char>,
    pub method: Seq<char>,
}

/// [`RpcRequestPath`] as contracts see it.
pub struct RpcRequestPathView {
    pub client_id: Seq<char>,
    pub grpc_path: GrpcPathView,
}

impl View for GrpcPath {
    type V = GrpcPathView;

    open spec fn view(&self) -> GrpcPathView {
        GrpcPathView { package: self.package@, service: self.service@, method: self.method@ }
    }
}

impl View for RpcRequestPath {
    type V = RpcRequestPathView;

    open spec fn view(&self) -> RpcRequestPathView {
        RpcRequestPathView { client_id: self.client_id@, grpc_path: self.grpc_path@ }
    }
}

/// The index of the last `c` in `s`, or -1 where `s` holds none.
pub open spec fn last_index_of(s: Seq<char>, c: char) -> int
    decreases s.len(),
{
    if s.len() == 0 {
        -1
    } else if s.last() == c {
        s.len() - 1
    } else {
        last_index_of(s.drop_last(), c)
    }
}

/// `s` without one leading `/`, if it has one.
pub open spec fn without_leading_slash(s: Seq<char>) -> Seq<char> {
    if s.len() > 0 && s[0] == '/' {
        s.subrange(1, s.len() as int)
    } else {
        s
    }
}

/// `{package}.{service}`.
pub open spec fn spec_full_service(p: GrpcPathView) -> Seq<char> {
    p.package + seq!['.'] + p.service
}

/// `{package}.{service}/{method}`.
pub open spec fn spec_full_path(p: GrpcPathView) -> Seq<char> {
    p.package + seq!['.'] + p.service + seq!['/'] + p.method
}

/// `{client_id}/{package}.{service}/{method}`.
pub open spec fn spec_request_path(p: RpcRequestPathView) -> Seq<char> {
    p.client_id + seq!['/'] + spec_full_path(p.grpc_path)
}

/// What [`GrpcPath::parse`] returns for `s`: the parts, or the text of the error.
///
/// After one leading `/` is dropped, the last `/` parts the method off and the
/// last `.` before it parts package from service. A path without `/`, a
/// service path without `.` and an empty part are errors.
pub open spec fn spec_parse_grpc_path(s: Seq<char>) -> Result<GrpcPathView, Seq<char>> {
    let t = without_leading_slash(s);
    let i = last_index_of(t, '/');
    if i < 0 {
        Err("gRPC path must contain '/': '"@ + t + "'"@)
    } else {
        let service_path = t.subrange(0, i);
        let method = t.subrange(i + 1, t.len() as int);
        let j = last_index_of(service_path, '.');
        if j < 0 {
            Err("service path must contain package.service: '"@ + service_path + "'"@)
        } else {
            let package = service_path.subrange(0, j);
            let service = service_path.subrange(j + 1, i);
            if package.len() == 0 || service.len() == 0 || method.len() == 0 {
                Err("package, service, and method must all be non-empty: '"@ + t + "'"@)
            } else {
                Ok(GrpcPathView { package, service, method })
            }
        }
    }
}

/// What [`RpcRequestPath::parse`] returns for `s`: the parts, or the text of the error.
///
/// After one leading `/` is dropped, the last segment is the method, the one
/// before it the service part, which must hold a `.`, and all that precedes
/// them, at least one segment, is the client id. Service part and method are
/// then read as a gRPC path.
pub open spec fn spec_parse_request_path(s: Seq<char>) -> Result<RpcRequestPathView, Seq<char>> {
    let t = without_leading_slash(s);
    let i = last_index_of(t, '/');
    if i < 0 {
        Err("path must have at least client_id and grpc_path: '"@ + t + "'"@)
    } else {
        let head = t.subrange(0, i);
        let method = t.subrange(i + 1, t.len() as int);
        let h = last_index_of(head, '/');
        let service_part = head.subrange(h + 1, i);
        if last_index_of(service_part, '.') < 0 {
            Err("service part must contain package.service: '"@ + service_part + "'"@)
        } else if h < 0 {
            Err("path must include client_id before grpc path: '"@ + t + "'"@)
        } else {
            match spec_parse_grpc_path(service_part + seq!['/'] + method) {
                Ok(grpc_path) => Ok(
                    RpcRequestPathView { client_id: head.subrange(0, h), grpc_path },
                ),
                Err(text) => Err(text),
            }
        }
    }
}

/// What `last_index_of` finds: the place of a `c` after which no `c` follows.
pub proof fn lemma_last_index_of(s: Seq<char>, c: char)
    ensures
        -1 <= last_index_of(s, c) < s.len(),
        last_index_of(s, c) >= 0 ==> s[last_index_of(s, c)] == c,
        forall|k: int| last_index_of(s, c) < k < s.len() ==> s[k] != c,
    decreases s.len(),
{
    if s.len() > 0 && s.last() != c {
        lemma_last_index_of(s.drop_last(), c);
        let r = last_index_of(s.drop_last(), c);
        assert forall|k: int| r < k < s.len() implies s[k] != c by {
            if k < s.len() - 1 {
                assert(s.drop_last()[k] == s[k]);
            }
        }
    }
}

/// A `c` at `i` with none after it is the last one.
pub proof fn lemma_last_index_is(s: Seq<char>, c: char, i: int)
    requires
        0 <= i < s.len(),
        s[i] == c,
        forall|k: int| i < k < s.len() ==> s[k] != c,
    ensures
        last_index_of(s, c) == i,
{
    lemma_last_index_of(s, c);
}

/// A sequence without `c` has no last `c`.
pub proof fn lemma_last_index_none(s: Seq<char>, c: char)
    requires
        forall|k: int| 0 <= k < s.len() ==> s[k] != c,
    ensures
        last_index_of(s, c) == -1,
{
    lemma_last_index_of(s, c);
}

/// The index of the last `c` in `s`.
fn find_last(s: &str, c: char) -> (r: Option<usize>)
    ensures
        match r {
            Some(i) => i == last_index_of(s@, c),
            None => last_index_of(s@, c) == -1,
        },
{
    let n = s.unicode_len();
    let mut found: Option<usize> = None;
    let mut idx: usize = 0;
    for x in it: s.chars()
        invariant
            it.seq() == s@,
            idx == it.index(),
            n == s@.len(),
            match found {
                Some(i) => i == last_index_of(s@.take(idx as int), c),
                None => last_index_of(s@.take(idx as int), c) == -1,
            },
    {
        assert(s@.take(idx + 1).drop_last() == s@.take(idx as int));
        if x == c {
            found = Some(idx);
        }
        idx = idx + 1;
    }
    assert(s@.take(idx as int) == s@);
    found
}

/// `path` without one leading `/`, if it has one.
fn strip_leading_slash(path: &str) -> (r: &str)
    ensures
        r@ == without_leading_slash(path@),
{
    let n = path.unicode_len();
    if n > 0 && path.get_char(0) == '/' {
        path.substring_char(1, n)
    } else {
        path
    }
}

/// An error whose text is `head`, then `subject`, then a closing quote.
fn invalid(head: &str, subject: &str) -> (r: RpcPathError)
    ensures
        r@ == RpcPathErrorView::Invalid(head@ + subject@ + "'"@),
{
    RpcPathError::Invalid(String::from_str(head).concat(subject).concat("'"))
}

impl GrpcPath {
    /// Reads `{package}.{service}/{method}`, with or without a leading `/`.
    pub fn parse(path: &str) -> (r: Result<GrpcPath, RpcPathError>)
        ensures
            match r {
                Ok(p) => spec_parse_grpc_path(path@) == Ok::<GrpcPathView, Seq<char>>(p@),
                Err(e) => spec_parse_grpc_path(path@) is Err && e@ == RpcPathErrorView::Invalid(
                    spec_parse_grpc_path(path@)->Err_0,
                ),
            },
    {
        let t = strip_leading_slash(path);
        let i = match find_last(t, '/') {
            Some(i) => i,
            None => {
                return Err(invalid("gRPC path must contain '/': '", t));
            },
        };
        proof {
            lemma_last_index_of(t@, '/');
        }
        let len = t.unicode_len();
        let service_path = t.substring_char(0, i);
        let method = t.substring_char(i + 1, len);
        let j = match find_last(service_path, '.') {
            Some(j) => j,
            None => {
                return Err(invalid("service path must contain package.service: '", service_path));
            },
        };
        proof {
            lemma_last_index_of(service_path@, '.');
        }
        let package = service_path.substring_char(0, j);
        let service = service_path.substring_char(j + 1, i);
        if package.is_empty() || service.is_empty() || method.is_empty() {
            return Err(invalid("package, service, and method must all be non-empty: '", t));
        }
        Ok(
            GrpcPath {
                package: package.to_owned(),
                service: service.to_owned(),
                method: method.to_owned(),
            },
        )
    }

    /// `{package}.{service}`.
    pub fn full_service(&self) -> (r: String)
        ensures
            r@ == spec_full_service(self@),
    {
        proof {
            reveal_strlit(".");
        }
        self.package.clone().concat(".").concat(self.service.as_str())
    }

    /// `{package}.{service}/{method}`.
    pub fn full_path(&self) -> (r: String)
        ensures
            r@ == spec_full_path(self@),
    {
        proof {
            reveal_strlit("/");
            assert("/"@ == seq!['/']);
        }
        self.full_service().concat("/").concat(self.method.as_str())
    }
}

impl RpcRequestPath {
    /// Reads `{client_id}/{package}.{service}/{method}`, with or without a
    /// leading `/`. The client id may hold `/`.
    pub fn parse(path: &str) -> (r: Result<RpcRequestPath, RpcPathError>)
        ensures
            match r {
                Ok(p) => spec_parse_request_path(path@) == Ok::<RpcRequestPathView, Seq<char>>(
                    p@,
                ),
                Err(e) => spec_parse_request_path(path@) is Err && e@
                    == RpcPathErrorView::Invalid(spec_parse_request_path(path@)->Err_0),
            },
    {
        let t = strip_leading_slash(path);
        let i = match find_last(t, '/') {
            Some(i) => i,
            None => {
                return Err(invalid("path must have at least client_id and grpc_path: '", t));
            },
        };
        proof {
            lemma_last_index_of(t@, '/');
        }
        let len = t.unicode_len();
        let head = t.substring_char(0, i);
        let method = t.substring_char(i + 1, len);
        let h = find_last(head, '/');
        proof {
            lemma_last_index_of(head@, '/');
        }
        let service_part = match h {
            Some(h) => head.substring_char(h + 1, i),
            None => head,
        };
        assert(service_part@ == head@.subrange(last_index_of(head@, '/') + 1, i as int));
        if find_last(service_part, '.').is_none() {
            return Err(invalid("service part must contain package.service: '", service_part));
        }
        let h = match h {
            Some(h) => h,
            None => {
                return Err(invalid("path must include client_id before grpc path: '", t));
            },
        };
        let client_id = head.substring_char(0, h);
        proof {
            reveal_strlit("/");
            assert("/"@ == seq!['/']);
        }
        let joined = String::from_str(service_part).concat("/").concat(method);
        match GrpcPath::parse(joined.as_str()) {
            Ok(grpc_path) => Ok(RpcRequestPath { client_id: client_id.to_owned(), grpc_path }),
            Err(e) => Err(e),
        }
    }
}

/// True where `s` holds no `c`.
pub open spec fn lacks(s: Seq<char>, c: char) -> bool {
    forall|k: int| 0 <= k < s.len() ==> s[k] != c
}

/// In `a`, then `c`, then `b`, where `b` holds no `c`, the last `c` is the one between them.
pub proof fn lemma_last_index_of_joined(a: Seq<char>, c: char, b: Seq<char>)
    requires
        lacks(b, c),
    ensures
        last_index_of(a + seq![c] + b, c) == a.len(),
        (a + seq![c] + b).subrange(0, a.len() as int) == a,
        (a + seq![c] + b).subrange(a.len() as int + 1, (a + seq![c] + b).len() as int) == b,
{
    let s = a + seq![c] + b;
    lemma_last_index_is(s, c, a.len() as int);
}

/// True where the parts can be written as a gRPC path and read back: none is
/// empty, the package does not begin with `/`, the service holds neither `.`
/// nor `/`, the method holds no `/`.
pub open spec fn grpc_parts_readable(p: GrpcPathView) -> bool {
    &&& p.package.len() > 0
    &&& p.package[0] != '/'
    &&& p.service.len() > 0
    &&& lacks(p.service, '.')
    &&& lacks(p.service, '/')
    &&& p.method.len() > 0
    &&& lacks(p.method, '/')
}

/// True where the parts can be written as a request path and read back: none
/// is empty, the client id does not begin with `/`, package, service and
/// method hold no `/`, and the service holds no `.`.
pub open spec fn request_parts_readable(p: RpcRequestPathView) -> bool {
    &&& p.client_id.len() > 0
    &&& p.client_id[0] != '/'
    &&& p.grpc_path.package.len() > 0
    &&& lacks(p.grpc_path.package, '/')
    &&& p.grpc_path.service.len() > 0
    &&& lacks(p.grpc_path.service, '.')
    &&& lacks(p.grpc_path.service, '/')
    &&& p.grpc_path.method.len() > 0
    &&& lacks(p.grpc_path.method, '/')
}

/// A gRPC path that is written from readable parts reads back as those parts.
pub proof fn lemma_grpc_path_round_trip(p: GrpcPathView)
    requires
        grpc_parts_readable(p),
    ensures
        spec_parse_grpc_path(spec_full_path(p)) == Ok::<GrpcPathView, Seq<char>>(p),
{
    let s = spec_full_path(p);
    let service_path = spec_full_service(p);
    assert(without_leading_slash(s) == s);
    lemma_last_index_of_joined(service_path, '/', p.method);
    lemma_last_index_of_joined(p.package, '.', p.service);
    assert(service_path.subrange(p.package.len() as int + 1, service_path.len() as int)
        == p.service);
}

/// A request path that is written from readable parts reads back as those
/// parts: client id, package, service and method come out as they went in.
pub proof fn lemma_request_path_round_trip(p: RpcRequestPathView)
    requires
        request_parts_readable(p),
    ensures
        spec_parse_request_path(spec_request_path(p)) == Ok::<RpcRequestPathView, Seq<char>>(p),
{
    let g = p.grpc_path;
    let s = spec_request_path(p);
    let service_part = spec_full_service(g);
    let head = p.client_id + seq!['/'] + service_part;
    assert(s =~= head + seq!['/'] + g.method);
    assert(without_leading_slash(s) == s);
    lemma_last_index_of_joined(head, '/', g.method);
    lemma_last_index_of_joined(p.client_id, '/', service_part);
    lemma_last_index_of_joined(g.package, '.', g.service);
    lemma_grpc_path_round_trip(g);
}

/// What a gRPC path was read as writes back to the path that was read,
/// without its leading `/`. No part that was read is empty, the service holds
/// no `.` and the method no `/`.
pub proof fn lemma_grpc_path_formats_back(s: Seq<char>)
    requires
        spec_parse_grpc_path(s) is Ok,
    ensures
        ({
            let p = spec_parse_grpc_path(s)->Ok_0;
            &&& spec_full_path(p) == without_leading_slash(s)
            &&& p.package.len() > 0
            &&& p.service.len() > 0
            &&& p.method.len() > 0
            &&& lacks(p.service, '.')
            &&& lacks(p.method, '/')
        }),
{
    let t = without_leading_slash(s);
    let i = last_index_of(t, '/');
    lemma_last_index_of(t, '/');
    let service_path = t.subrange(0, i);
    lemma_last_index_of(service_path, '.');
}

/// What a request path was read as writes back to the path that was read,
/// without its leading `/`. Package, service and method that were read are not
/// empty and hold no `/`, and the service holds no `.`.
pub proof fn lemma_request_path_formats_back(s: Seq<char>)
    requires
        spec_parse_request_path(s) is Ok,
    ensures
        ({
            let p = spec_parse_request_path(s)->Ok_0;
            &&& spec_request_path(p) == without_leading_slash(s)
            &&& p.grpc_path.package.len() > 0
            &&& p.grpc_path.service.len() > 0
            &&& p.grpc_path.method.len() > 0
            &&& lacks(p.grpc_path.package, '/')
            &&& lacks(p.grpc_path.service, '/')
            &&& lacks(p.grpc_path.service, '.')
            &&& lacks(p.grpc_path.method, '/')
        }),
{
    let t = without_leading_slash(s);
    let i = last_index_of(t, '/');
    lemma_last_index_of(t, '/');
    let head = t.subrange(0, i);
    let method = t.subrange(i + 1, t.len() as int);
    let h = last_index_of(head, '/');
    lemma_last_index_of(head, '/');
    let service_part = head.subrange(h + 1, i);
    lemma_last_index_of(service_part, '.');
    let joined = service_part + seq!['/'] + method;
    lemma_last_index_of_joined(service_part, '/', method);
    lemma_grpc_path_formats_back(joined);
}

/// A gRPC path without `/` is rejected.
pub proof fn lemma_grpc_path_needs_slash(s: Seq<char>)
    requires
        lacks(without_leading_slash(s), '/'),
    ensures
        spec_parse_grpc_path(s) is Err,
{
    lemma_last_index_none(without_leading_slash(s), '/');
}

/// A gRPC path without `.` is rejected.
pub proof fn lemma_grpc_path_needs_dot(s: Seq<char>)
    requires
        lacks(s, '.'),
    ensures
        spec_parse_grpc_path(s) is Err,
{
    let t = without_leading_slash(s);
    let i = last_index_of(t, '/');
    lemma_last_index_of(t, '/');
    if i >= 0 {
        let service_path = t.subrange(0, i);
        lemma_last_index_none(service_path, '.');
    }
}

/// A gRPC path with an empty package, an empty service or an empty method is
/// rejected: of parts that would read back if none were empty, one is.
pub proof fn lemma_grpc_path_rejects_empty_part(p: GrpcPathView)
    requires
        p.package.len() > 0 ==> p.package[0] != '/',
        lacks(p.service, '.'),
        lacks(p.service, '/'),
        lacks(p.method, '/'),
        p.package.len() == 0 || p.service.len() == 0 || p.method.len() == 0,
    ensures
        spec_parse_grpc_path(spec_full_path(p)) is Err,
{
    let service_path = spec_full_service(p);
    lemma_last_index_of_joined(service_path, '/', p.method);
    lemma_last_index_of_joined(p.package, '.', p.service);
}

/// A request path of fewer than three segments is rejected: one that holds,
/// after its leading `/`, at most one `/`.
pub proof fn lemma_request_path_needs_three_segments(s: Seq<char>)
    requires
        forall|a: int, b: int|
            0 <= a < b < without_leading_slash(s).len() ==> !(without_leading_slash(s)[a] == '/'
                && without_leading_slash(s)[b] == '/'),
    ensures
        spec_parse_request_path(s) is Err,
{
    let t = without_leading_slash(s);
    let i = last_index_of(t, '/');
    lemma_last_index_of(t, '/');
    if i >= 0 {
        lemma_last_index_of(t.subrange(0, i), '/');
    }
}

/// A request path whose service segment holds no `.` is rejected.
pub proof fn lemma_request_path_needs_dot(
    client_id: Seq<char>,
    segment: Seq<char>,
    method: Seq<char>,
)
    requires
        client_id.len() > 0 ==> client_id[0] != '/',
        lacks(segment, '.'),
        lacks(segment, '/'),
        lacks(method, '/'),
    ensures
        spec_parse_request_path(client_id + seq!['/'] + segment + seq!['/'] + method) is Err,
{
    let head = client_id + seq!['/'] + segment;
    let s = head + seq!['/'] + method;
    lemma_last_index_of_joined(head, '/', method);
    lemma_last_index_of_joined(client_id, '/', segment);
    let t = without_leading_slash(s);
    if t == s {
        lemma_last_index_none(segment, '.');
    } else {
        let short = segment + seq!['/'] + method;
        assert(t =~= Seq::<char>::empty() + short);
        lemma_last_index_of_joined(segment, '/', method);
        lemma_last_index_none(segment, '/');
        lemma_last_index_none(segment, '.');
    }
}

} // verus!
