use vstd::prelude::*;
use vstd::string::*;

verus! {

/// The transport of a remote connection URL.
#[derive(Clone, Copy, Debug, PartialEq, Eq, Structural)]
pub enum RemoteUrlScheme {
    Listen,
    Accept,
    UnixAccept,
    Connect,
    TcpConnect,
    Udp,
    UnixConnect,
    UnixAbstractConnect,
    Fd,
    File,
}

/// The lowercase token that names `s` in a URL.
pub open spec fn url_scheme_token(s: RemoteUrlScheme) -> Seq<char> {
    match s {
        RemoteUrlScheme::Listen => "listen"@,
        RemoteUrlScheme::Accept => "accept"@,
        RemoteUrlScheme::UnixAccept => "unix-accept"@,
        RemoteUrlScheme::Connect => "connect"@,
        RemoteUrlScheme::TcpConnect => "tcp-connect"@,
        RemoteUrlScheme::Udp => "udp"@,
        RemoteUrlScheme::UnixConnect => "unix-connect"@,
        RemoteUrlScheme::UnixAbstractConnect => "unix-abstract-connect"@,
        RemoteUrlScheme::Fd => "fd"@,
        RemoteUrlScheme::File => "file"@,
    }
}

impl RemoteUrlScheme {
    pub fn as_str(&self) -> (r: &'static str)
        ensures
            r@ == url_scheme_token(*self),
    {
        match self {
            Self::Listen => "listen",
            Self::Accept => "accept",
            Self::UnixAccept => "unix-accept",
            Self::Connect => "connect",
            Self::TcpConnect => "tcp-connect",
            Self::Udp => "udp",
            Self::UnixConnect => "unix-connect",
            Self::UnixAbstractConnect => "unix-abstract-connect",
            Self::Fd => "fd",
            Self::File => "file",
        }
    }
}

/// No scheme token holds a NUL character.
pub proof fn lemma_url_scheme_token_no_nul(s: RemoteUrlScheme)
    ensures
        !has_nul(url_scheme_token(s)),
{
    reveal_strlit("listen");
    reveal_strlit("accept");
    reveal_strlit("unix-accept");
    reveal_strlit("connect");
    reveal_strlit("tcp-connect");
    reveal_strlit("udp");
    reveal_strlit("unix-connect");
    reveal_strlit("unix-abstract-connect");
    reveal_strlit("fd");
    reveal_strlit("file");
}

/// The character of a decimal digit `d < 10`.
pub open spec fn digit_char(d: nat) -> char {
    if d == 0 {
        '0'
    } else if d == 1 {
        '1'
    } else if d == 2 {
        '2'
    } else if d == 3 {
        '3'
    } else if d == 4 {
        '4'
    } else if d == 5 {
        '5'
    } else if d == 6 {
        '6'
    } else if d == 7 {
        '7'
    } else if d == 8 {
        '8'
    } else {
        '9'
    }
}

/// The decimal notation of `n`, without leading zeros.
pub open spec fn decimal(n: nat) -> Seq<char>
    decreases n,
{
    if n < 10 {
        seq![digit_char(n)]
    } else {
        decimal(n / 10).push(digit_char(n % 10))
    }
}

/// Whether `s` holds a NUL character.
pub open spec fn has_nul(s: Seq<char>) -> bool {
    exists|i: int| 0 <= i < s.len() && s[i] == '\0'
}

/// `i` is the position of the first NUL character of `s`.
pub open spec fn first_nul_at(s: Seq<char>, i: int) -> bool {
    &&& 0 <= i < s.len()
    &&& s[i] == '\0'
    &&& forall|j: int| 0 <= j < i ==> s[j] != '\0'
}

/// `":" <port>`, or nothing.
pub open spec fn port_part(port: Option<u16>) -> Seq<char> {
    match port {
        Some(p) => seq![':'] + decimal(p as nat),
        None => Seq::empty(),
    }
}

/// `"/" <path>`, or nothing.
pub open spec fn path_part(path: Option<Seq<char>>) -> Seq<char> {
    match path {
        Some(p) => seq!['/'] + p,
        None => Seq::empty(),
    }
}

/// `<scheme> "://" <host> [ ":" <port> ] [ "/" <path> ]`.
pub open spec fn url_text(
    scheme: Seq<char>,
    host: Seq<char>,
    port: Option<u16>,
    path: Option<Seq<char>>,
) -> Seq<char> {
    scheme + seq![':', '/', '/'] + host + port_part(port) + path_part(path)
}

/// A URL text would need an embedded NUL, which the NUL-terminated wire
/// format cannot carry.
#[derive(Clone, Copy, Debug, PartialEq, Eq, Structural)]
pub struct EncodingError {
    /// Character position of the first NUL in the assembled URL.
    pub position: usize,
}

/// The digit `d < 10` as a one-character string.
fn digit_str(d: u16) -> (r: &'static str)
    requires
        d < 10,
    ensures
        r@ == seq![digit_char(d as nat)],
{
    proof {
        reveal_strlit("0");
        reveal_strlit("1");
        reveal_strlit("2");
        reveal_strlit("3");
        reveal_strlit("4");
        reveal_strlit("5");
        reveal_strlit("6");
        reveal_strlit("7");
        reveal_strlit("8");
        reveal_strlit("9");
    }
    if d == 0 {
        "0"
    } else if d == 1 {
        "1"
    } else if d == 2 {
        "2"
    } else if d == 3 {
        "3"
    } else if d == 4 {
        "4"
    } else if d == 5 {
        "5"
    } else if d == 6 {
        "6"
    } else if d == 7 {
        "7"
    } else if d == 8 {
        "8"
    } else {
        "9"
    }
}

/// Appends the decimal notation of `n` to `out`.
fn append_decimal(out: &mut String, n: u16)
    ensures
        final(out)@ == old(out)@ + decimal(n as nat),
    decreases n,
{
    if n >= 10 {
        append_decimal(out, n / 10);
    }
    out.append(digit_str(n % 10));
    assert(final(out)@ =~= old(out)@ + decimal(n as nat));
}

/// The position of the first NUL character of `s`, if any.
fn find_nul(s: &str) -> (r: Option<usize>)
    ensures
        r is None <==> !has_nul(s@),
        r matches Some(i) ==> first_nul_at(s@, i as int),
{
    let n = s.unicode_len();
    let mut i: usize = 0;
    while i < n
        invariant
            n == s@.len(),
            i <= n,
            forall|j: int| 0 <= j < i ==> s@[j] != '\0',
        decreases n - i,
    {
        if s.get_char(i) == '\0' {
            return Some(i);
        }
        i = i + 1;
    }
    None
}

/// Assembles `url_text` and rejects it where it holds a NUL.
pub(crate) fn compose_url(scheme: &str, host: &str, port: Option<u16>, path: Option<&str>) -> (r:
    Result<String, EncodingError>)
    ensures
        ({
            let text = url_text(
                scheme@,
                host@,
                port,
                match path {
                    Some(p) => Some(p@),
                    None => None,
                },
            );
            &&& r is Ok <==> !has_nul(text)
            &&& r matches Ok(s) ==> s@ == text
            &&& r matches Err(e) ==> first_nul_at(text, e.position as int)
        }),
{
    let mut url = scheme.to_owned();
    proof {
        reveal_strlit("://");
        reveal_strlit(":");
        reveal_strlit("/");
    }
    url.append("://");
    url.append(host);
    if let Some(p) = port {
        url.append(":");
        append_decimal(&mut url, p);
    }
    if let Some(p) = path {
        url.append("/");
        url.append(p);
    }
    assert(url@ =~= url_text(
        scheme@,
        host@,
        port,
        match path {
            Some(p) => Some(p@),
            None => None,
        },
    ));
    match find_nul(url.as_str()) {
        Some(i) => Err(EncodingError { position: i }),
        None => Ok(url),
    }
}

/// The abstract content of a `RemoteUrl`.
pub struct RemoteUrlView {
    pub scheme: RemoteUrlScheme,
    pub host: Seq<char>,
    pub port: Option<u16>,
    pub path: Option<Seq<char>>,
}

impl RemoteUrlView {
    /// The same target with its port set to `port`.
    pub open spec fn with_port(self, port: u16) -> RemoteUrlView {
        RemoteUrlView { port: Some(port), ..self }
    }

    /// The same target with its path set to `path`.
    pub open spec fn with_path(self, path: Seq<char>) -> RemoteUrlView {
        RemoteUrlView { path: Some(path), ..self }
    }

    /// The URL text of this target.
    pub open spec fn text(self) -> Seq<char> {
        url_text(url_scheme_token(self.scheme), self.host, self.port, self.path)
    }

    /// A target that can be serialized: its URL text holds no NUL.
    pub open spec fn encodable(self) -> bool {
        !has_nul(self.text())
    }
}

/// A connection destination: scheme, host, and an optional port and path.
#[derive(Debug)]
pub struct RemoteUrl {
    scheme: RemoteUrlScheme,
    host: String,
    port: Option<u16>,
    path: Option<String>,
}

impl View for RemoteUrl {
    type V = RemoteUrlView;

    closed spec fn view(&self) -> RemoteUrlView {
        RemoteUrlView {
            scheme: self.scheme,
            host: self.host@,
            port: self.port,
            path: match self.path {
                Some(p) => Some(p@),
                None => None,
            },
        }
    }
}

impl RemoteUrl {
    /// A target with no port and no path.
    pub fn new(scheme: RemoteUrlScheme, host: &str) -> (r: Self)
        requires
            host@.len() > 0,
        ensures
            r@ == (RemoteUrlView { scheme, host: host@, port: None, path: None }),
    {
        RemoteUrl { scheme, host: host.to_owned(), port: None, path: None }
    }

    /// Sets the path; the last one set wins.
    pub fn path(&mut self, path: &str) -> (r: &mut Self)
        ensures
            *final(self) == *final(r),
            r@ == old(self)@.with_path(path@),
    {
        self.path = Some(path.to_owned());
        self
    }

    /// Sets the port; the last one set wins.
    pub fn port(&mut self, port: u16) -> (r: &mut Self)
        ensures
            *final(self) == *final(r),
            r@ == old(self)@.with_port(port),
    {
        self.port = Some(port);
        self
    }

    /// The URL text `<scheme>://<host>[:<port>][/<path>]`, or the position
    /// of the first NUL where it would hold one.
    pub fn serialize(&self) -> (r: Result<String, EncodingError>)
        ensures
            r is Ok <==> self@.encodable(),
            r matches Ok(s) ==> s@ == self@.text(),
            r matches Err(e) ==> first_nul_at(self@.text(), e.position as int),
    {
        let path = match &self.path {
            Some(p) => Some(p.as_str()),
            None => None,
        };
        compose_url(self.scheme.as_str(), self.host.as_str(), self.port, path)
    }
}

impl Clone for RemoteUrl {
    fn clone(&self) -> (r: Self)
        ensures
            r@ == self@,
    {
        RemoteUrl {
            scheme: self.scheme,
            host: self.host.clone(),
            port: self.port,
            path: match &self.path {
                Some(p) => Some(p.clone()),
                None => None,
            },
        }
    }
}

/// The decimal notation of a number holds digits only.
proof fn lemma_decimal_no_nul(n: nat)
    ensures
        !has_nul(decimal(n)),
    decreases n,
{
    if n >= 10 {
        lemma_decimal_no_nul(n / 10);
        assert(forall|i: int| 0 <= i < decimal(n / 10).len() ==> decimal(n)[i] == decimal(n / 10)[i]);
    }
}

/// Whether the characters of `a + b` hold a NUL is whether either part does.
proof fn lemma_has_nul_concat(a: Seq<char>, b: Seq<char>)
    ensures
        has_nul(a + b) <==> has_nul(a) || has_nul(b),
{
    if has_nul(a) {
        let i = choose|i: int| 0 <= i < a.len() && a[i] == '\0';
        assert((a + b)[i] == '\0');
    }
    if has_nul(b) {
        let i = choose|i: int| 0 <= i < b.len() && b[i] == '\0';
        assert((a + b)[a.len() + i] == '\0');
    }
    if has_nul(a + b) {
        let i = choose|i: int| 0 <= i < (a + b).len() && (a + b)[i] == '\0';
        if i < a.len() {
            assert(a[i] == '\0');
        } else {
            assert(b[i - a.len()] == '\0');
        }
    }
}

/// A target serializes exactly when neither its host nor its path holds a
/// NUL: scheme tokens, separators and port digits never do.
pub proof fn lemma_encodable(v: RemoteUrlView)
    ensures
        v.encodable() <==> !has_nul(v.host) && match v.path {
            Some(p) => !has_nul(p),
            None => true,
        },
{
    let t = url_scheme_token(v.scheme);
    let sep = seq![':', '/', '/'];
    lemma_url_scheme_token_no_nul(v.scheme);
    assert(!has_nul(sep));
    assert(!has_nul(port_part(v.port))) by {
        if let Some(p) = v.port {
            lemma_decimal_no_nul(p as nat);
            lemma_has_nul_concat(seq![':'], decimal(p as nat));
        }
    }
    match v.path {
        Some(p) => {
            lemma_has_nul_concat(seq!['/'], p);
        },
        None => {},
    }
    lemma_has_nul_concat(t, sep);
    lemma_has_nul_concat(t + sep, v.host);
    lemma_has_nul_concat(t + sep + v.host, port_part(v.port));
    lemma_has_nul_concat(t + sep + v.host + port_part(v.port), path_part(v.path));
}

/// A target without port and path serializes to exactly
/// `<scheme>://<host>`, and does so whenever the host holds no NUL.
pub proof fn lemma_bare_target(scheme: RemoteUrlScheme, host: Seq<char>)
    requires
        host.len() > 0,
    ensures
        (RemoteUrlView { scheme, host, port: None, path: None }).text() == url_scheme_token(scheme)
            + seq![':', '/', '/'] + host,
        (RemoteUrlView { scheme, host, port: None, path: None }).encodable() <==> !has_nul(host),
{
    let v = RemoteUrlView { scheme, host, port: None, path: None };
    assert(v.text() =~= url_scheme_token(scheme) + seq![':', '/', '/'] + host);
    lemma_encodable(v);
}

/// Setting a port puts exactly `":" <port>` between the host and the path
/// part, whatever port the target had; on a target without a port, that
/// is the only change to its text.
pub proof fn lemma_port_inserted(v: RemoteUrlView, port: u16)
    ensures
        v.with_port(port).text() == url_scheme_token(v.scheme) + seq![':', '/', '/'] + v.host
            + seq![':'] + decimal(port as nat) + path_part(v.path),
        v.port is None ==> v.text() == url_scheme_token(v.scheme) + seq![':', '/', '/'] + v.host
            + path_part(v.path),
{
    assert(v.with_port(port).text() =~= url_scheme_token(v.scheme) + seq![':', '/', '/'] + v.host
        + seq![':'] + decimal(port as nat) + path_part(v.path));
    if v.port is None {
        assert(v.text() =~= url_scheme_token(v.scheme) + seq![':', '/', '/'] + v.host + path_part(
            v.path,
        ));
    }
}

/// Setting a path puts exactly `"/" <path>` at the end, after the host or
/// the port, whatever path the target had; on a target without a path, it
/// is appended to the text.
pub proof fn lemma_path_appended(v: RemoteUrlView, path: Seq<char>)
    ensures
        v.with_path(path).text() == url_scheme_token(v.scheme) + seq![':', '/', '/'] + v.host
            + port_part(v.port) + seq!['/'] + path,
        v.path is None ==> v.with_path(path).text() == v.text() + seq!['/'] + path,
{
    assert(v.with_path(path).text() =~= url_scheme_token(v.scheme) + seq![':', '/', '/'] + v.host
        + port_part(v.port) + seq!['/'] + path);
    if v.path is None {
        assert(v.with_path(path).text() =~= v.text() + seq!['/'] + path);
    }
}

/// Setting the port and then the path gives the same target, and so the
/// same serialization, as setting the path and then the port.
pub proof fn lemma_builder_order(v: RemoteUrlView, port: u16, path: Seq<char>)
    ensures
        v.with_port(port).with_path(path) == v.with_path(path).with_port(port),
        v.with_port(port).with_path(path).text() == v.with_path(path).with_port(port).text(),
{
}

} // verus!
