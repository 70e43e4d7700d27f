use base64::Engine;
use vstd::prelude::*;
use vstd::utf8::encode_utf8;

verus! {

/// One header line of an outgoing request.
#[derive(Clone, Debug)]
pub struct Header {
    pub name: String,
    pub value: String,
}

/// What decoration reads and changes of an outgoing request: the path and
/// query of its target, if it has one, and its header lines in order.
#[derive(Clone, Debug)]
pub struct RequestHead {
    pub path_and_query: Option<String>,
    pub headers: Vec<Header>,
}

/// A request head as plain text.
pub struct RequestHeadView {
    pub path_and_query: Option<Seq<char>>,
    pub headers: Seq<(Seq<char>, Seq<char>)>,
}

impl View for RequestHead {
    type V = RequestHeadView;

    open spec fn view(&self) -> RequestHeadView {
        RequestHeadView {
            path_and_query: match self.path_and_query {
                Some(pq) => Some(pq@),
                None => None,
            },
            headers: Seq::new(
                self.headers@.len(),
                |i: int| (self.headers@[i].name@, self.headers@[i].value@),
            ),
        }
    }
}

/// A decorator of outgoing requests.
#[derive(Clone, Debug)]
pub enum HttpRequestDecorator {
    /// Adds an `authorization` header with the given value.
    HeaderAuth(String),
    /// Puts the given string in front of the request's path.
    PathPrefix(&'static str),
}

/// A decorator as plain text.
pub enum DecoratorView {
    HeaderAuth(Seq<char>),
    PathPrefix(Seq<char>),
}

impl View for HttpRequestDecorator {
    type V = DecoratorView;

    open spec fn view(&self) -> DecoratorView {
        match self {
            HttpRequestDecorator::HeaderAuth(auth) => DecoratorView::HeaderAuth(auth@),
            HttpRequestDecorator::PathPrefix(prefix) => DecoratorView::PathPrefix(prefix@),
        }
    }
}

/// Name of the header that carries credentials.
pub open spec fn authorization_header() -> Seq<char> {
    "authorization"@
}

/// The path and query after `prefix` was put in front of it.
pub open spec fn prefixed(prefix: Seq<char>, path_and_query: Option<Seq<char>>) -> Seq<char> {
    match path_and_query {
        Some(pq) => prefix + pq,
        None => prefix,
    }
}

/// The request head after one decorator was applied.
pub open spec fn decorated(dec: DecoratorView, head: RequestHeadView) -> RequestHeadView {
    match dec {
        DecoratorView::HeaderAuth(auth) => RequestHeadView {
            path_and_query: head.path_and_query,
            headers: head.headers.push((authorization_header(), auth)),
        },
        DecoratorView::PathPrefix(prefix) => RequestHeadView {
            path_and_query: Some(prefixed(prefix, head.path_and_query)),
            headers: head.headers,
        },
    }
}

/// The request head after the decorators were applied from first to last.
pub open spec fn decorated_by_all(decs: Seq<DecoratorView>, head: RequestHeadView) -> RequestHeadView
    decreases decs.len(),
{
    if decs.len() == 0 {
        head
    } else {
        decorated(decs.last(), decorated_by_all(decs.drop_last(), head))
    }
}

impl HttpRequestDecorator {
    /// Applies this decorator to `request`.
    pub fn decorate_request(&self, request: RequestHead) -> (r: RequestHead)
        ensures
            r@ == decorated(self@, request@),
    {
        let mut request = request;
        match self {
            HttpRequestDecorator::HeaderAuth(auth) => {
                let ghost before = request@;
                request.headers.push(
                    Header { name: "authorization".to_owned(), value: auth.clone() },
                );
                assert(request@.headers =~= before.headers.push((authorization_header(), auth@)));
                request
            },
            HttpRequestDecorator::PathPrefix(prefix) => {
                let mut path: String = (*prefix).to_owned();
                match &request.path_and_query {
                    Some(pq) => path.append(pq.as_str()),
                    None => {},
                }
                let r = RequestHead { path_and_query: Some(path), headers: request.headers };
                assert(r@.headers =~= request@.headers);
                r
            },
        }
    }
}

/// Decorators in the order in which they are applied.
#[derive(Clone, Debug)]
pub struct HttpRequestDecoratorSeq(Vec<HttpRequestDecorator>);

impl View for HttpRequestDecoratorSeq {
    type V = Seq<DecoratorView>;

    closed spec fn view(&self) -> Seq<DecoratorView> {
        Seq::new(self.0@.len(), |i: int| self.0@[i]@)
    }
}

impl Default for HttpRequestDecoratorSeq {
    fn default() -> (s: Self)
        ensures
            s@ == Seq::<DecoratorView>::empty(),
    {
        let s = HttpRequestDecoratorSeq(Vec::new());
        assert(s@ =~= Seq::<DecoratorView>::empty());
        s
    }
}

impl HttpRequestDecoratorSeq {
    /// The sequence that holds `value` alone.
    pub fn from(value: HttpRequestDecorator) -> (s: Self)
        ensures
            s@ == seq![value@],
    {
        let mut decorators: Vec<HttpRequestDecorator> = Vec::new();
        decorators.push(value);
        let s = HttpRequestDecoratorSeq(decorators);
        assert(s@ =~= seq![value@]);
        s
    }

    /// Number of decorators.
    pub fn len(&self) -> (n: usize)
        ensures
            n == self@.len(),
    {
        self.0.len()
    }

    /// Adds `decorator` behind those that are there. Nothing is merged or
    /// dropped: a decorator added twice is applied twice.
    pub fn push(&mut self, decorator: HttpRequestDecorator)
        ensures
            final(self)@ == old(self)@.push(decorator@),
    {
        self.0.push(decorator);
        assert(self@ =~= old(self)@.push(decorator@));
    }

    /// Applies the decorators to `request`, from first to last.
    pub fn decorate_request(&self, request: RequestHead) -> (r: RequestHead)
        ensures
            r@ == decorated_by_all(self@, request@),
    {
        let ghost start = request@;
        let mut request = request;
        let mut i: usize = 0;
        while i < self.0.len()
            invariant
                i <= self.0@.len(),
                self@.len() == self.0@.len(),
                request@ == decorated_by_all(self@.take(i as int), start),
            decreases self.0.len() - i,
        {
            proof {
                assert(self@.take(i + 1).drop_last() =~= self@.take(i as int));
                assert(self@.take(i + 1).last() == self.0@[i as int]@);
            }
            request = self.0[i].decorate_request(request);
            i += 1;
        }
        assert(self@.take(i as int) =~= self@);
        request
    }
}

/// A path prefix applied twice stands twice in front of the path: the two
/// applications are not folded into one. The headers stay as they were.
pub proof fn lemma_path_prefix_repeats(prefix: Seq<char>, head: RequestHeadView)
    ensures
        ({
            let dec = DecoratorView::PathPrefix(prefix);
            let twice = decorated(dec, decorated(dec, head));
            &&& twice.path_and_query == Some(prefix + prefixed(prefix, head.path_and_query))
            &&& twice.path_and_query == Some(prefixed(prefix + prefix, head.path_and_query))
            &&& twice.headers == head.headers
            &&& twice == decorated_by_all(seq![dec, dec], head)
        }),
{
    let dec = DecoratorView::PathPrefix(prefix);
    match head.path_and_query {
        Some(pq) => assert(prefix + (prefix + pq) =~= (prefix + prefix) + pq),
        None => {},
    }
    let both = seq![dec, dec];
    assert(both.drop_last() =~= seq![dec]);
    assert(seq![dec].drop_last() =~= Seq::<DecoratorView>::empty());
    reveal_with_fuel(decorated_by_all, 3);
}

/// Decorators are applied one after the other: applying a sequence and then
/// one more decorator is applying the longer sequence.
pub proof fn lemma_decoration_is_sequential(
    decs: Seq<DecoratorView>,
    dec: DecoratorView,
    head: RequestHeadView,
)
    ensures
        decorated_by_all(decs.push(dec), head) == decorated(dec, decorated_by_all(decs, head)),
{
    assert(decs.push(dec).drop_last() =~= decs);
}

/// The standard base64 text (alphabet `A-Za-z0-9+/`, padded with `=`) of a
/// byte string.
pub uninterp spec fn base64_standard(bytes: Seq<u8>) -> Seq<char>;

/// Calls `base64::Engine::encode` on the engine
/// `base64::engine::general_purpose::STANDARD`. Believed, not proved: the
/// text returned is the standard padded base64 encoding of `bytes`, which
/// depends on the bytes alone. The call panics only where the encoded
/// length does not fit in `usize`, which no slice is long enough to cause.
#[verifier::external_body]
fn base64_encode(bytes: &[u8]) -> (text: String)
    ensures
        text@ == base64_standard(bytes@),
{
    base64::engine::general_purpose::STANDARD.encode(bytes)
}

/// The credentials that basic authorization encodes: name, colon, password.
pub open spec fn credentials(username: Seq<char>, password: Seq<char>) -> Seq<char> {
    username + ":"@ + password
}

/// The value of a basic `authorization` header around encoded credentials.
pub fn basic_authorization_value(encoded: &str) -> (value: String)
    ensures
        value@ == "Basic "@ + encoded@,
{
    let mut value: String = "Basic ".to_owned();
    value.append(encoded);
    value
}

/// The value of the `authorization` header that presents `username` and
/// `password` by the basic scheme.
pub fn basic_authorization(username: &str, password: &str) -> (value: String)
    ensures
        value@ == "Basic "@ + base64_standard(encode_utf8(credentials(username@, password@))),
{
    let mut plain: String = username.to_owned();
    plain.append(":");
    plain.append(password);
    let encoded: String = base64_encode(plain.as_str().as_bytes());
    basic_authorization_value(encoded.as_str())
}

} // verus!
