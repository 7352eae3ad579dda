use vstd::prelude::*;

use crate::error::SBError;
use crate::remote_url::{
    compose_url, first_nul_at, has_nul, lemma_encodable, url_scheme_token, url_text, EncodingError,
    RemoteUrl, RemoteUrlScheme, RemoteUrlView,
};

verus! {

/// The transport of a remote platform connection.
#[derive(Clone, Copy, Debug, PartialEq, Eq, Structural)]
pub enum RemoteScheme {
    Listen,
    Accept,
    UnixAccept,
    Connect,
    TcpConnect,
    Udp,
    UnixConnect,
    UnixAbstractConnect,
    Fd,
    File,
}

impl RemoteScheme {
    /// The URL scheme of the same name.
    pub open spec fn url_scheme(self) -> RemoteUrlScheme {
        match self {
            RemoteScheme::Listen => RemoteUrlScheme::Listen,
            RemoteScheme::Accept => RemoteUrlScheme::Accept,
            RemoteScheme::UnixAccept => RemoteUrlScheme::UnixAccept,
            RemoteScheme::Connect => RemoteUrlScheme::Connect,
            RemoteScheme::TcpConnect => RemoteUrlScheme::TcpConnect,
            RemoteScheme::Udp => RemoteUrlScheme::Udp,
            RemoteScheme::UnixConnect => RemoteUrlScheme::UnixConnect,
            RemoteScheme::UnixAbstractConnect => RemoteUrlScheme::UnixAbstractConnect,
            RemoteScheme::Fd => RemoteUrlScheme::Fd,
            RemoteScheme::File => RemoteUrlScheme::File,
        }
    }

    pub fn as_str(&self) -> (r: &'static str)
        ensures
            r@ == url_scheme_token(self.url_scheme()),
    {
        match self {
            Self::Listen => "listen",
            Self::Accept => "accept",
            Self::UnixAccept => "unix-accept",
            Self::Connect => "connect",
            Self::TcpConnect => "tcp-connect",
            Self::Udp => "udp",
            Self::UnixConnect => "unix-connect",
            Self::UnixAbstractConnect => "unix-abstract-connect",
            Self::Fd => "fd",
            Self::File => "file",
        }
    }
}

/// The URL text for a connection to `host` with `scheme`, `port` and `path`.
pub open spec fn connect_url_text(
    scheme: RemoteScheme,
    host: Seq<char>,
    port: Option<u16>,
    path: Option<&str>,
) -> Seq<char> {
    url_text(
        url_scheme_token(scheme.url_scheme()),
        host,
        port,
        match path {
            Some(p) => Some(p@),
            None => None,
        },
    )
}

/// A host that holds a NUL makes the connection URL hold one, so such a
/// connection fails with an encoding error before the engine is called.
pub proof fn lemma_nul_host_rejected(
    scheme: RemoteScheme,
    host: Seq<char>,
    port: Option<u16>,
    path: Option<&str>,
)
    requires
        has_nul(host),
    ensures
        has_nul(connect_url_text(scheme, host, port, path)),
{
    let v = RemoteUrlView {
        scheme: scheme.url_scheme(),
        host,
        port,
        path: match path {
            Some(p) => Some(p@),
            None => None,
        },
    };
    lemma_encodable(v);
    assert(v.text() == connect_url_text(scheme, host, port, path));
}

/// The options of a remote platform connection: the serialized URL that
/// the engine's connect-options object is built from.
#[derive(Debug)]
pub struct RemoteConnectOptions {
    url: String,
}

impl View for RemoteConnectOptions {
    type V = Seq<char>;

    closed spec fn view(&self) -> Seq<char> {
        self.url@
    }
}

impl RemoteConnectOptions {
    /// Options for `<scheme>://<host>[:<port>][/<path>]`; an error where
    /// that text would hold a NUL.
    pub fn new(scheme: RemoteScheme, host: &str, port: Option<u16>, path: Option<&str>) -> (r:
        Result<Self, EncodingError>)
        requires
            host@.len() > 0,
        ensures
            r is Ok <==> !has_nul(connect_url_text(scheme, host@, port, path)),
            r matches Ok(o) ==> o@ == connect_url_text(scheme, host@, port, path),
            r matches Err(e) ==> first_nul_at(
                connect_url_text(scheme, host@, port, path),
                e.position as int,
            ),
    {
        match Self::serialize_url(scheme, host, port, path) {
            Ok(url) => Ok(RemoteConnectOptions { url }),
            Err(e) => Err(e),
        }
    }

    fn serialize_url(scheme: RemoteScheme, host: &str, port: Option<u16>, path: Option<&str>) -> (r:
        Result<String, EncodingError>)
        ensures
            r is Ok <==> !has_nul(connect_url_text(scheme, host@, port, path)),
            r matches Ok(s) ==> s@ == connect_url_text(scheme, host@, port, path),
            r matches Err(e) ==> first_nul_at(
                connect_url_text(scheme, host@, port, path),
                e.position as int,
            ),
    {
        compose_url(scheme.as_str(), host, port, path)
    }

    /// Options for the serialized form of `target`.
    pub fn from_url(target: &RemoteUrl) -> (r: Result<Self, EncodingError>)
        ensures
            r is Ok <==> target@.encodable(),
            r matches Ok(o) ==> o@ == target@.text(),
            r matches Err(e) ==> first_nul_at(target@.text(), e.position as int),
    {
        match target.serialize() {
            Ok(url) => Ok(RemoteConnectOptions { url }),
            Err(e) => Err(e),
        }
    }

    /// The serialized URL, without its terminating NUL.
    pub fn url(&self) -> (r: &str)
        ensures
            r@ == self@,
    {
        self.url.as_str()
    }
}

impl Clone for RemoteConnectOptions {
    /// An independent copy of the same options.
    fn clone(&self) -> (r: Self)
        ensures
            r@ == self@,
    {
        RemoteConnectOptions { url: self.url.clone() }
    }
}

/// What an `SBPlatform` reports.
pub struct SBPlatformView {
    pub valid: bool,
    pub working_directory: Seq<char>,
    pub name: Seq<char>,
    pub triple: Seq<char>,
    pub hostname: Seq<char>,
    pub os_build: Seq<char>,
    pub os_description: Seq<char>,
    pub os_version: (u32, u32, u32),
}

impl SBPlatformView {
    /// A descriptive text as queried: empty on an invalid platform.
    pub open spec fn shown(self, text: Seq<char>) -> Seq<char> {
        if self.valid {
            text
        } else {
            Seq::empty()
        }
    }
}

/// A debug platform, the current host or a remote one, as the engine
/// describes it.
#[derive(Debug)]
pub struct SBPlatform {
    valid: bool,
    working_directory: String,
    name: String,
    triple: String,
    hostname: String,
    os_build: String,
    os_description: String,
    os_version: (u32, u32, u32),
}

impl View for SBPlatform {
    type V = SBPlatformView;

    closed spec fn view(&self) -> SBPlatformView {
        SBPlatformView {
            valid: self.valid,
            working_directory: self.working_directory@,
            name: self.name@,
            triple: self.triple@,
            hostname: self.hostname@,
            os_build: self.os_build@,
            os_description: self.os_description@,
            os_version: self.os_version,
        }
    }
}

impl SBPlatform {
    /// The platform that the engine described with these values; the OS
    /// version is (major, minor, update).
    pub fn wrap(
        valid: bool,
        working_directory: String,
        name: String,
        triple: String,
        hostname: String,
        os_build: String,
        os_description: String,
        os_version: (u32, u32, u32),
    ) -> (r: SBPlatform)
        ensures
            r@ == (SBPlatformView {
                valid,
                working_directory: working_directory@,
                name: name@,
                triple: triple@,
                hostname: hostname@,
                os_build: os_build@,
                os_description: os_description@,
                os_version,
            }),
    {
        SBPlatform {
            valid,
            working_directory,
            name,
            triple,
            hostname,
            os_build,
            os_description,
            os_version,
        }
    }

    /// The platform described by these values, where it is valid.
    pub fn maybe_wrap(
        valid: bool,
        working_directory: String,
        name: String,
        triple: String,
        hostname: String,
        os_build: String,
        os_description: String,
        os_version: (u32, u32, u32),
    ) -> (r: Option<SBPlatform>)
        ensures
            r is Some <==> valid,
            r matches Some(p) ==> p@ == (SBPlatformView {
                valid,
                working_directory: working_directory@,
                name: name@,
                triple: triple@,
                hostname: hostname@,
                os_build: os_build@,
                os_description: os_description@,
                os_version,
            }),
    {
        if valid {
            Some(
                SBPlatform::wrap(
                    valid,
                    working_directory,
                    name,
                    triple,
                    hostname,
                    os_build,
                    os_description,
                    os_version,
                ),
            )
        } else {
            None
        }
    }

    pub fn is_valid(&self) -> (r: bool)
        ensures
            r == self@.valid,
    {
        self.valid
    }

    /// Gives `text` on a valid platform, the empty text on an invalid one.
    fn shown<'a>(&self, text: &'a String) -> (r: &'a str)
        ensures
            r@ == self@.shown(text@),
    {
        proof {
            reveal_strlit("");
        }
        if self.valid {
            text.as_str()
        } else {
            ""
        }
    }

    /// The working directory for this platform.
    pub fn working_directory(&self) -> (r: &str)
        ensures
            r@ == self@.shown(self@.working_directory),
    {
        self.shown(&self.working_directory)
    }

    /// The name of the platform, `"host"` for the current host.
    pub fn name(&self) -> (r: &str)
        ensures
            r@ == self@.shown(self@.name),
    {
        self.shown(&self.name)
    }

    /// The target triple of the platform, such as `"x86_64-apple-macosx"`.
    pub fn triple(&self) -> (r: &str)
        ensures
            r@ == self@.shown(self@.triple),
    {
        self.shown(&self.triple)
    }

    pub fn hostname(&self) -> (r: &str)
        ensures
            r@ == self@.shown(self@.hostname),
    {
        self.shown(&self.hostname)
    }

    /// The build ID of the platform's OS version.
    pub fn os_build(&self) -> (r: &str)
        ensures
            r@ == self@.shown(self@.os_build),
    {
        self.shown(&self.os_build)
    }

    /// The long form description of the platform's OS version.
    pub fn os_description(&self) -> (r: &str)
        ensures
            r@ == self@.shown(self@.os_description),
    {
        self.shown(&self.os_description)
    }

    /// The major component of the OS version: `10` on 10.11.4.
    pub fn os_major_version(&self) -> (r: u32)
        ensures
            r == self@.os_version.0,
    {
        self.os_version.0
    }

    /// The minor component of the OS version: `11` on 10.11.4.
    pub fn os_minor_version(&self) -> (r: u32)
        ensures
            r == self@.os_version.1,
    {
        self.os_version.1
    }

    /// The update component of the OS version: `4` on 10.11.4.
    pub fn os_update_version(&self) -> (r: u32)
        ensures
            r == self@.os_version.2,
    {
        self.os_version.2
    }
}

impl Clone for SBPlatform {
    /// An independent copy that reports the same as `self`.
    fn clone(&self) -> (r: SBPlatform)
        ensures
            r@ == self@,
    {
        SBPlatform {
            valid: self.valid,
            working_directory: self.working_directory.clone(),
            name: self.name.clone(),
            triple: self.triple.clone(),
            hostname: self.hostname.clone(),
            os_build: self.os_build.clone(),
            os_description: self.os_description.clone(),
            os_version: self.os_version,
        }
    }
}

/// Why a platform operation did not succeed.
#[derive(Debug)]
pub enum PlatformError {
    /// The operation was asked of a platform that is not valid.
    InvalidHandle,
    /// The connection URL would hold a NUL.
    Encoding(EncodingError),
    /// The engine reported this error.
    Native(SBError),
}

/// Operations that change a platform are refused on an invalid one, before
/// the engine is asked anything.
pub fn require_valid(platform_valid: bool) -> (r: Result<(), PlatformError>)
    ensures
        r is Ok <==> platform_valid,
        r is Err ==> r matches Err(PlatformError::InvalidHandle),
{
    if platform_valid {
        Ok(())
    } else {
        Err(PlatformError::InvalidHandle)
    }
}

/// The first step of a connection: on a valid platform, the options to
/// hand to the engine; an invalid platform or a URL that would hold a NUL
/// fails before the engine is asked anything.
pub fn prepare_connect(
    platform_valid: bool,
    scheme: RemoteScheme,
    host: &str,
    port: Option<u16>,
    path: Option<&str>,
) -> (r: Result<RemoteConnectOptions, PlatformError>)
    requires
        host@.len() > 0,
    ensures
        !platform_valid <==> r matches Err(PlatformError::InvalidHandle),
        platform_valid ==> (r is Ok <==> !has_nul(connect_url_text(scheme, host@, port, path))),
        r matches Ok(o) ==> o@ == connect_url_text(scheme, host@, port, path),
        r matches Err(PlatformError::Encoding(e)) ==> first_nul_at(
            connect_url_text(scheme, host@, port, path),
            e.position as int,
        ),
        !(r matches Err(PlatformError::Native(_))),
{
    match require_valid(platform_valid) {
        Ok(()) => {},
        Err(e) => {
            return Err(e);
        },
    }
    match RemoteConnectOptions::new(scheme, host, port, path) {
        Ok(o) => Ok(o),
        Err(e) => Err(PlatformError::Encoding(e)),
    }
}

/// The outcome of an engine operation from the error record it reported.
pub fn native_outcome(status: SBError) -> (r: Result<(), PlatformError>)
    ensures
        r is Ok <==> status@.is_success(),
        r is Err ==> (r matches Err(PlatformError::Native(e)) && e@ == status@),
{
    match status.into_result() {
        Ok(()) => Ok(()),
        Err(e) => Err(PlatformError::Native(e)),
    }
}

} // verus!
