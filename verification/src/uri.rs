//! The address of an API endpoint: scheme, host, version prefix, path and
//! query, in the normal form of a URL.

use crate::docker::{ClientType, ClientVersion};
use crate::errors::UriError;
use url::Url;
use std::borrow::Cow;
use vstd::prelude::*;
use vstd::string::StringExecFns;

verus! {

/// The address of an endpoint, as text.
#[derive(Debug)]
pub struct Uri<'a> {
    encoded: Cow<'a, str>,
}

/// The scheme that stands for a transport.
pub open spec fn scheme_text(client_type: ClientType) -> Seq<char> {
    match client_type {
        ClientType::Http => "http"@,
        ClientType::SSL => "https"@,
        ClientType::Unix => "unix"@,
        ClientType::NamedPipe => "net.pipe"@,
    }
}

/// The character for a hexadecimal digit, in lower case.
pub open spec fn hex_digit(digit: int) -> char {
    if digit == 0 {
        '0'
    } else if digit == 1 {
        '1'
    } else if digit == 2 {
        '2'
    } else if digit == 3 {
        '3'
    } else if digit == 4 {
        '4'
    } else if digit == 5 {
        '5'
    } else if digit == 6 {
        '6'
    } else if digit == 7 {
        '7'
    } else if digit == 8 {
        '8'
    } else if digit == 9 {
        '9'
    } else if digit == 10 {
        'a'
    } else if digit == 11 {
        'b'
    } else if digit == 12 {
        'c'
    } else if digit == 13 {
        'd'
    } else if digit == 14 {
        'e'
    } else {
        'f'
    }
}

/// The bytes of `bytes` in hexadecimal: two digits for each, the high one
/// first, in lower case.
pub open spec fn hex_text(bytes: Seq<u8>) -> Seq<char> {
    Seq::new(
        2 * bytes.len(),
        |i: int|
            if i % 2 == 0 {
                hex_digit(bytes[i / 2] as int / 16)
            } else {
                hex_digit(bytes[i / 2] as int % 16)
            },
    )
}

/// `hex::encode`: the bytes in hexadecimal, two lower-case digits for each,
/// the high one first.
#[verifier::external_body]
fn hex_encode(data: &[u8]) -> (text: String)
    ensures
        text@ == hex_text(data@),
{
    hex::encode(data)
}

/// `url::Url`, a parsed URL.
#[verifier::external_type_specification]
#[verifier::external_body]
pub struct ExUrl(url::Url);

/// `url::ParseError`, which parsing and joining fail with; nothing of it is
/// read.
#[verifier::external_type_specification]
#[verifier::external_body]
pub struct ExUrlParseError(url::ParseError);

/// `serde_urlencoded::ser::Error`, which encoding a query fails with.
#[verifier::external_type_specification]
#[verifier::external_body]
pub struct ExQueryEncodeError(serde_urlencoded::ser::Error);

/// The text that a URL holds: its serialization.
pub uninterp spec fn url_text(url: Url) -> Seq<char>;

/// The serialization of the absolute URL that `input` parses to, if it
/// parses to one.
pub uninterp spec fn parsed_url(input: Seq<char>) -> Option<Seq<char>>;

/// The serialization of the URL that `input` resolves to against the URL
/// with the serialization `base`, if it resolves.
pub uninterp spec fn joined_url(base: Seq<char>, input: Seq<char>) -> Option<Seq<char>>;

/// The serialization of the URL with the serialization `url` after its query
/// was set to `query`, or removed where `query` is `None`.
pub uninterp spec fn url_with_query(url: Seq<char>, query: Option<Seq<char>>) -> Seq<char>;

/// `Url::parse`: the URL that the text parses to, or an error where it
/// parses to none.
pub assume_specification[ url::Url::parse ](input: &str) -> (parsed: Result<Url, url::ParseError>)
    ensures
        match parsed {
            Ok(url) => parsed_url(input@) == Some(url_text(url)),
            Err(_) => parsed_url(input@) is None,
        },
;

/// `Url::join`: the URL that the text resolves to with this URL as its base,
/// or an error where it resolves to none.
pub assume_specification[ url::Url::join ](base: &Url, input: &str) -> (joined: Result<
    Url,
    url::ParseError,
>)
    ensures
        match joined {
            Ok(url) => joined_url(url_text(*base), input@) == Some(url_text(url)),
            Err(_) => joined_url(url_text(*base), input@) is None,
        },
;

/// The greatest length in bytes that the text of a URL can have: the URL
/// keeps the places of its parts as 32-bit numbers.
pub const MAX_URL_LEN: usize = 0xFFFF_FFFF;

/// Whether the URL with the serialization `url` has room for `query`:
/// written into the URL a byte of the query takes three bytes at most, and
/// the marks before the query and before the fragment take one each.
pub open spec fn query_fits(url: Seq<char>, query: Option<Seq<char>>) -> bool {
    vstd::utf8::encode_utf8(url).len() + 3 * match query {
        Some(q) => vstd::utf8::encode_utf8(q).len(),
        None => 0,
    } + 2 <= MAX_URL_LEN
}

/// `Url::set_query`: sets or removes the query of the URL. The method
/// panics where the text outgrows what a 32-bit number can count, which the
/// precondition excludes.
pub assume_specification[ url::Url::set_query ](url: &mut Url, query: Option<&str>)
    requires
        query_fits(
            url_text(*old(url)),
            match query {
                Some(q) => Some(q@),
                None => None,
            },
        ),
    ensures
        url_text(*final(url)) == url_with_query(
            url_text(*old(url)),
            match query {
                Some(q) => Some(q@),
                None => None,
            },
        ),
;

/// `Url::as_str`: the serialization of the URL.
pub assume_specification[ url::Url::as_str ](url: &Url) -> (text: &str)
    ensures
        text@ == url_text(*url),
;

/// The number in decimal, without a sign and without leading zeros.
pub open spec fn decimal_text(n: nat) -> Seq<char>
    decreases n,
{
    if n < 10 {
        seq![hex_digit(n as int)]
    } else {
        decimal_text(n / 10).push(hex_digit((n % 10) as int))
    }
}

/// The text of one decimal digit.
fn digit_str(digit: usize) -> (text: &'static str)
    requires
        digit < 10,
    ensures
        text@ == seq![hex_digit(digit as int)],
{
    proof {
        reveal_strlit("0");
        reveal_strlit("1");
        reveal_strlit("2");
        reveal_strlit("3");
        reveal_strlit("4");
        reveal_strlit("5");
        reveal_strlit("6");
        reveal_strlit("7");
        reveal_strlit("8");
        reveal_strlit("9");
    }
    let text = match digit {
        0 => "0",
        1 => "1",
        2 => "2",
        3 => "3",
        4 => "4",
        5 => "5",
        6 => "6",
        7 => "7",
        8 => "8",
        _ => "9",
    };
    assert(text@ =~= seq![hex_digit(digit as int)]);
    text
}

/// Writes `n` in decimal.
pub fn decimal(n: usize) -> (text: String)
    ensures
        text@ == decimal_text(n as nat),
    decreases n,
{
    if n < 10 {
        String::from_str(digit_str(n))
    } else {
        let text = decimal(n / 10).concat(digit_str(n % 10));
        assert(text@ =~= decimal_text(n as nat));
        text
    }
}

/// The length of `text` in bytes.
pub fn byte_len(text: &str) -> (n: usize)
    ensures
        n == vstd::utf8::encode_utf8(text@).len(),
{
    text.as_bytes().len()
}

/// Whether a URL whose text has `url_len` bytes has room for a query of
/// `query_len` bytes.
pub fn has_room(url_len: usize, query_len: usize) -> (fits: bool)
    ensures
        fits == (url_len + 3 * query_len + 2 <= MAX_URL_LEN),
{
    query_len <= (MAX_URL_LEN - 2) / 3 && url_len <= MAX_URL_LEN - 2 - 3 * query_len
}

/// The text from which an endpoint's address is parsed: the scheme, the
/// host, the version as a first path segment, and the path.
pub open spec fn base_text(
    scheme: Seq<char>,
    host: Seq<char>,
    version: ClientVersion,
    path: Seq<char>,
) -> Seq<char> {
    scheme + "://"@ + host + "/v"@ + decimal_text(version.major_version as nat) + "."@
        + decimal_text(version.minor_version as nat) + path
}

/// The address of the endpoint `path` before its query is set: the base text
/// parsed as a URL, and the path resolved against that. `None` where one of
/// the two steps is refused.
pub open spec fn resolved_text(
    socket: Seq<char>,
    client_type: ClientType,
    path: Seq<char>,
    version: ClientVersion,
) -> Option<Seq<char>> {
    match parsed_url(
        base_text(scheme_text(client_type), host_text(socket, client_type), version, path),
    ) {
        Some(base) => joined_url(base, path),
        None => None,
    }
}

/// The value of a hexadecimal digit given as an ASCII byte, in either case.
pub open spec fn hex_value(c: u8) -> Option<int> {
    if 0x30 <= c <= 0x39 {
        Some(c - 0x30)
    } else if 0x61 <= c <= 0x66 {
        Some(c - 0x61 + 10)
    } else if 0x41 <= c <= 0x46 {
        Some(c - 0x41 + 10)
    } else {
        None
    }
}

/// The bytes that `text` writes in hexadecimal, two digits for each: `None`
/// where the length is odd or a byte is no digit.
pub open spec fn hex_bytes(text: Seq<u8>) -> Option<Seq<u8>> {
    if text.len() % 2 == 0 && forall|i: int| 0 <= i < text.len() ==> hex_value(text[i]) is Some {
        Some(
            Seq::new(
                text.len() / 2,
                |i: int|
                    (16 * hex_value(text[2 * i]).unwrap() + hex_value(
                        text[2 * i + 1],
                    ).unwrap()) as u8,
            ),
        )
    } else {
        None
    }
}

/// `hex::FromHex::from_hex` for `Vec<u8>`: the bytes that the text writes in
/// hexadecimal, or nothing where it writes none.
#[verifier::external_body]
fn hex_decode(text: &str) -> (bytes: Option<Vec<u8>>)
    ensures
        match bytes {
            Some(b) => hex_bytes(vstd::utf8::encode_utf8(text@)) == Some(b@),
            None => hex_bytes(vstd::utf8::encode_utf8(text@)) is None,
        },
{
    match <Vec<u8> as hex::FromHex>::from_hex(text) {
        Ok(bytes) => Some(bytes),
        Err(_) => None,
    }
}

/// The text that `String::from_utf8_lossy` makes of `bytes`.
pub uninterp spec fn lossy_text(bytes: Seq<u8>) -> Seq<char>;

/// `String::from_utf8_lossy`: the bytes as text, with a replacement
/// character wherever they are not UTF-8. Bytes that are UTF-8 come out as
/// the text that they encode.
pub assume_specification<'a>[ String::from_utf8_lossy ](v: &'a [u8]) -> (text: Cow<'a, str>)
    ensures
        text@ == lossy_text(v@),
        vstd::utf8::valid_utf8(v@) ==> text@ == vstd::utf8::decode_utf8(v@),
;

/// The bytes of a socket path as text: the text that they encode where they
/// are UTF-8, and else what `String::from_utf8_lossy` makes of them.
pub open spec fn path_text(bytes: Seq<u8>) -> Seq<char> {
    if vstd::utf8::valid_utf8(bytes) {
        vstd::utf8::decode_utf8(bytes)
    } else {
        lossy_text(bytes)
    }
}

/// The path of the socket that a host written by `socket_host` stands for:
/// the text of the bytes that the host writes in hexadecimal.
pub open spec fn socket_path_text(host: Option<Seq<char>>) -> Option<Seq<char>> {
    match host {
        Some(h) => match hex_bytes(vstd::utf8::encode_utf8(h)) {
            Some(bytes) => Some(path_text(bytes)),
            None => None,
        },
        None => None,
    }
}

/// The host that stands for the destination of a connection: the
/// destination's own host, or `UNKNOWN_HOST` where it has none.
pub open spec fn dest_host_text(host: Option<Seq<char>>) -> Seq<char> {
    match host {
        Some(h) => h,
        None => "UNKNOWN_HOST"@,
    }
}

/// The host that stands for a socket: the socket's own text where the daemon
/// is reached over TCP, and the bytes of its path in hexadecimal where it is
/// reached through a Unix socket or a named pipe.
pub open spec fn host_text(socket: Seq<char>, client_type: ClientType) -> Seq<char> {
    match client_type {
        ClientType::Http | ClientType::SSL => socket,
        ClientType::Unix | ClientType::NamedPipe => hex_text(vstd::utf8::encode_utf8(socket)),
    }
}

impl<'a> Uri<'a> {
    /// The address as text.
    pub closed spec fn text(&self) -> Seq<char> {
        self.encoded@
    }

    /// The address as text.
    pub fn as_str(&self) -> (text: &str)
        ensures
            text@ == self.text(),
    {
        match &self.encoded {
            Cow::Borrowed(borrowed) => borrowed,
            Cow::Owned(owned) => owned.as_str(),
        }
    }

    /// The address of the endpoint `path` of the daemon behind `socket`, with
    /// the query that `query` holds already encoded. The base text must parse
    /// as a URL, `path` must resolve against it, and the resolved URL must
    /// have room for the query. A query that could not
    /// be encoded is reported as the error, with the text that the encoder's
    /// error is displayed with; else the address is the resolved URL with
    /// the query set, if there is one.
    pub fn parse(
        socket: &'a str,
        client_type: &ClientType,
        path: &'a str,
        query: Option<Result<String, serde_urlencoded::ser::Error>>,
        client_version: &ClientVersion,
    ) -> (result: Result<Uri<'a>, UriError>)
        requires
            resolved_text(socket@, *client_type, path@, *client_version) is Some,
            query matches Some(Ok(q)) ==> query_fits(
                resolved_text(socket@, *client_type, path@, *client_version).unwrap(),
                Some(q@),
            ),
        ensures
            match query {
                None => result matches Ok(uri) && Some(uri.text()) == resolved_text(
                    socket@,
                    *client_type,
                    path@,
                    *client_version,
                ),
                Some(Ok(q)) => result matches Ok(uri) && uri.text() == url_with_query(
                    resolved_text(socket@, *client_type, path@, *client_version).unwrap(),
                    Some(q@),
                ),
                Some(Err(e)) => result matches Err(UriError::URLEncodedError { message })
                    && vstd::string::to_string_from_display_ensures::<
                    serde_urlencoded::ser::Error,
                >(&e, message),
            },
    {
        let host_str = Self::base(
            Uri::socket_scheme(client_type),
            Uri::socket_host(socket, client_type).as_str(),
            client_version,
            path,
        );
        let mut url = Url::parse(host_str.as_str()).unwrap();
        url = url.join(path).unwrap();
        match query {
            Some(Ok(qs)) => {
                url.set_query(Some(qs.as_str()));
            },
            Some(Err(e)) => {
                return Err(UriError::URLEncodedError { message: e.to_string() });
            },
            None => {},
        }
        Ok(Uri { encoded: Cow::Owned(url.as_str().to_owned()) })
    }

    /// As `parse`, for every input: `None` where the base text does not parse
    /// as a URL, `path` does not resolve against it, or the resolved URL has
    /// no room for the query.
    pub fn try_parse(
        socket: &'a str,
        client_type: &ClientType,
        path: &'a str,
        query: Option<Result<String, serde_urlencoded::ser::Error>>,
        client_version: &ClientVersion,
    ) -> (result: Option<Result<Uri<'a>, UriError>>)
        ensures
            result is None <==> {
                let resolved = resolved_text(socket@, *client_type, path@, *client_version);
                resolved is None || (query matches Some(Ok(q)) && !query_fits(
                    resolved.unwrap(),
                    Some(q@),
                ))
            },
            result matches Some(parsed) ==> match query {
                None => parsed matches Ok(uri) && Some(uri.text()) == resolved_text(
                    socket@,
                    *client_type,
                    path@,
                    *client_version,
                ),
                Some(Ok(q)) => parsed matches Ok(uri) && uri.text() == url_with_query(
                    resolved_text(socket@, *client_type, path@, *client_version).unwrap(),
                    Some(q@),
                ),
                Some(Err(e)) => parsed matches Err(UriError::URLEncodedError { message })
                    && vstd::string::to_string_from_display_ensures::<
                    serde_urlencoded::ser::Error,
                >(&e, message),
            },
    {
        let host_str = Self::base(
            Uri::socket_scheme(client_type),
            Uri::socket_host(socket, client_type).as_str(),
            client_version,
            path,
        );
        let resolves = match Url::parse(host_str.as_str()) {
            Ok(base) => match base.join(path) {
                Ok(url) => match &query {
                    Some(Ok(q)) => has_room(byte_len(url.as_str()), byte_len(q.as_str())),
                    _ => true,
                },
                Err(_) => false,
            },
            Err(_) => false,
        };
        if resolves {
            Some(Uri::parse(socket, client_type, path, query, client_version))
        } else {
            None
        }
    }

    /// The text from which the address is parsed.
    fn base(scheme: &str, host: &str, version: &ClientVersion, path: &str) -> (text: String)
        ensures
            text@ == base_text(scheme@, host@, *version, path@),
    {
        String::from_str(scheme).concat("://").concat(host).concat("/v").concat(
            decimal(version.major_version).as_str(),
        ).concat(".").concat(decimal(version.minor_version).as_str()).concat(path)
    }

    /// The host that stands for `socket` in an address.
    pub fn socket_host(socket: &str, client_type: &ClientType) -> (host: String)
        ensures
            host@ == host_text(socket@, *client_type),
    {
        match client_type {
            ClientType::Http => socket.to_owned(),
            ClientType::SSL => socket.to_owned(),
            ClientType::Unix => hex_encode(socket.as_bytes()),
            ClientType::NamedPipe => hex_encode(socket.as_bytes()),
        }
    }

    /// The path of the socket behind an address whose host is `host`: what
    /// the host writes in hexadecimal, as text. Bytes that are UTF-8 come
    /// back as the text that they encode. `None` where there is no host or
    /// the host is not hexadecimal.
    pub fn socket_path(host: Option<&str>) -> (path: Option<String>)
        ensures
            match path {
                Some(p) => socket_path_text(
                    match host {
                        Some(h) => Some(h@),
                        None => None,
                    },
                ) == Some(p@),
                None => socket_path_text(
                    match host {
                        Some(h) => Some(h@),
                        None => None,
                    },
                ) is None,
            },
    {
        match host {
            Some(h) => match hex_decode(h) {
                Some(raw) => Some(
                    match String::from_utf8_lossy(raw.as_slice()) {
                        Cow::Borrowed(text) => text.to_owned(),
                        Cow::Owned(text) => text,
                    },
                ),
                None => None,
            },
            None => None,
        }
    }

    /// The address, scheme and host, from which the socket path of a
    /// connection's destination is read back: the host is that of `dest`.
    pub fn socket_path_dest(dest_host: Option<&str>, client_type: &ClientType) -> (text: String)
        ensures
            text@ == scheme_text(*client_type) + "://"@ + dest_host_text(
                match dest_host {
                    Some(h) => Some(h@),
                    None => None,
                },
            ),
    {
        let host = match dest_host {
            Some(h) => h,
            None => "UNKNOWN_HOST",
        };
        String::from_str(Uri::socket_scheme(client_type)).concat("://").concat(host)
    }

    /// The scheme that stands for the transport in an address.
    pub fn socket_scheme(client_type: &ClientType) -> (scheme: &'a str)
        ensures
            scheme@ == scheme_text(*client_type),
    {
        match client_type {
            ClientType::Http => "http",
            ClientType::SSL => "https",
            ClientType::Unix => "unix",
            ClientType::NamedPipe => "net.pipe",
        }
    }
}

} // verus!
