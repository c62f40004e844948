//! The WebSocket handshake request of one connection attempt.
use tokio_tungstenite::tungstenite::client::IntoClientRequest;
use tokio_tungstenite::tungstenite::http::{HeaderMap, HeaderName, HeaderValue};
use vstd::prelude::*;

use crate::clock::Instant;
use crate::connect_cycle::ConnectAttemptError;
use crate::net_error::NetError;

verus! {

/// The longest header name.
pub const MAX_HEADER_NAME_LEN: usize = 65535;

/// Names that a header map always has room for, however they collide.
pub const CERTAIN_HEADER_COUNT: usize = 6554;

/// The parts of a URL that decide where to connect to.
#[derive(Debug)]
pub struct TargetUri {
    /// The scheme.
    pub scheme: Option<String>,
    /// The host, as written in the URL.
    pub host: Option<String>,
    /// The port, if the URL has one.
    pub port: Option<u16>,
}

/// The parts of a URL as text.
#[verifier::ext_equal]
pub struct UriView {
    /// The scheme.
    pub scheme: Option<Seq<char>>,
    /// The host, as written in the URL.
    pub host: Option<Seq<char>>,
    /// The port, if the URL has one.
    pub port: Option<u16>,
}

/// An optional text by its characters.
pub open spec fn text_of(text: Option<String>) -> Option<Seq<char>> {
    match text {
        Some(text) => Some(text@),
        None => None,
    }
}

impl View for TargetUri {
    type V = UriView;

    open spec fn view(&self) -> UriView {
        UriView { scheme: text_of(self.scheme), host: text_of(self.host), port: self.port }
    }
}

/// The parts of the request URI that `into_client_request` makes of a URL, or
/// nothing where it refuses the URL.
pub uninterp spec fn client_request_uri(url: Seq<char>) -> Option<UriView>;

/// Calls `tungstenite::client::IntoClientRequest::into_client_request` on the
/// URL and reads scheme, host and port of the request's URI. They depend on
/// the URL alone; the random key that the request also holds is not returned.
#[verifier::external_body]
fn parse_client_request(url: &str) -> (uri: Option<TargetUri>)
    ensures
        match uri {
            Some(parts) => client_request_uri(url@) == Some(parts@),
            None => client_request_uri(url@) is None,
        },
{
    match url.into_client_request() {
        Ok(request) => Some(TargetUri {
            scheme: request.uri().scheme_str().map(str::to_owned),
            host: request.uri().host().map(str::to_owned),
            port: request.uri().port_u16(),
        }),
        Err(_) => None,
    }
}

/// Whether a character may stand in a header name.
pub open spec fn is_token_char(c: char) -> bool {
    ||| 'a' <= c <= 'z'
    ||| 'A' <= c <= 'Z'
    ||| '0' <= c <= '9'
    ||| c == '!' || c == '#' || c == '$' || c == '%' || c == '&' || c == '\'' || c == '*'
    ||| c == '+' || c == '-' || c == '.' || c == '^' || c == '_' || c == '`' || c == '|'
    ||| c == '~'
}

/// Whether a text is a header name.
pub open spec fn is_header_name(name: Seq<char>) -> bool {
    &&& 0 < name.len() <= MAX_HEADER_NAME_LEN
    &&& forall|i: int| 0 <= i < name.len() ==> is_token_char(#[trigger] name[i])
}

/// A character with ASCII capitals made small.
pub open spec fn lowered(c: char) -> char {
    if 'A' <= c <= 'Z' {
        ((c as u32 + 32) as u32) as char
    } else {
        c
    }
}

/// A header name in its normal form.
pub open spec fn normal_name(name: Seq<char>) -> Seq<char> {
    name.map_values(|c: char| lowered(c))
}

/// Whether a text is a header value: it holds no control character but the
/// tab.
pub open spec fn is_header_value(value: Seq<char>) -> bool {
    forall|i: int|
        0 <= i < value.len() ==> ((#[trigger] value[i]) as u32 >= 32 && value[i] as u32 != 127)
            || value[i] as u32 == 9
}

/// Calls `http::HeaderName::from_bytes` on the bytes of the text. It accepts
/// the names of at most 65535 token characters.
#[verifier::external_body]
fn header_name_is_accepted(name: &str) -> (accepted: bool)
    ensures
        accepted == is_header_name(name@),
{
    HeaderName::from_bytes(name.as_bytes()).is_ok()
}

/// Calls `http::HeaderValue::from_str`. It accepts every text without control
/// characters other than the tab.
#[verifier::external_body]
fn header_value_is_accepted(value: &str) -> (accepted: bool)
    ensures
        accepted == is_header_value(value@),
{
    HeaderValue::from_str(value).is_ok()
}

/// Declares `http::HeaderMap`, which holds header values by name.
#[verifier::external_type_specification]
#[verifier::external_body]
#[verifier::reject_recursive_types(T)]
pub struct ExHeaderMap<T>(HeaderMap<T>);

/// Declares `http::HeaderValue`, the values of a header map.
#[verifier::external_type_specification]
#[verifier::external_body]
pub struct ExHeaderValue(HeaderValue);

/// The headers that a map holds: the text of each name's value, names in their
/// normal form.
pub uninterp spec fn header_entries(headers: HeaderMap<HeaderValue>) -> Map<Seq<char>, Seq<char>>;

/// Calls `http::HeaderMap::new`, which makes a map without headers.
#[verifier::external_body]
fn no_headers() -> (headers: HeaderMap<HeaderValue>)
    ensures
        header_entries(headers) == (Map::<Seq<char>, Seq<char>>::empty()),
{
    HeaderMap::new()
}

/// Calls `http::HeaderMap::try_insert`, which sets the value of a name in place
/// of all values that it had, or leaves a full map alone. Names are made small,
/// so that they are found in whatever case they are written. Where names
/// collide too often a map grows early, so one may be full as soon as it holds
/// a fifth of its largest table, which are 6554 names, and never before; from
/// there on whether it is full depends on the collisions and is left unsaid.
#[verifier::external_body]
fn insert_header(headers: &mut HeaderMap<HeaderValue>, name: &str, value: &str) -> (inserted: bool)
    requires
        is_header_name(name@),
        is_header_value(value@),
    ensures
        inserted ==> header_entries(*final(headers)) == header_entries(*old(headers)).insert(
            normal_name(name@),
            value@,
        ),
        !inserted ==> header_entries(*final(headers)) == header_entries(*old(headers)),
        !inserted ==> header_entries(*old(headers)).dom().len() >= CERTAIN_HEADER_COUNT,
{
    match (HeaderName::from_bytes(name.as_bytes()), HeaderValue::from_str(value)) {
        (Ok(name), Ok(value)) => headers.try_insert(name, value).is_ok(),
        _ => false,
    }
}

/// Calls `http::HeaderMap::remove`, which removes a name together with all its
/// values.
#[verifier::external_body]
pub(crate) fn remove_header(headers: &mut HeaderMap<HeaderValue>, name: &str)
    requires
        is_header_name(name@),
    ensures
        header_entries(*final(headers)) == header_entries(*old(headers)).remove(
            normal_name(name@),
        ),
{
    headers.remove(name);
}

/// Whether names and values of all headers are acceptable.
pub open spec fn acceptable(headers: Seq<(String, String)>) -> bool {
    forall|i: int|
        0 <= i < headers.len() ==> is_header_name((#[trigger] headers[i]).0@) && is_header_value(
            headers[i].1@,
        )
}

/// The first `count` headers applied in order to `base`; a later value of a
/// name replaces an earlier one, whatever case the name is written in.
pub open spec fn applied(
    base: Map<Seq<char>, Seq<char>>,
    headers: Seq<(String, String)>,
    count: int,
) -> Map<Seq<char>, Seq<char>>
    decreases count,
{
    if count <= 0 {
        base
    } else {
        applied(base, headers, count - 1).insert(
            normal_name(headers[count - 1].0@),
            headers[count - 1].1@,
        )
    }
}

proof fn applying_adds_names(
    base: Map<Seq<char>, Seq<char>>,
    headers: Seq<(String, String)>,
    first: int,
    second: int,
)
    requires
        0 <= first <= second <= headers.len(),
        base.dom().finite(),
    ensures
        applied(base, headers, second).dom().finite(),
        applied(base, headers, first).dom().len() <= applied(base, headers, second).dom().len(),
    decreases second,
{
    if first < second {
        applying_adds_names(base, headers, first, second - 1);
    } else if second > 0 {
        applying_adds_names(base, headers, second - 1, second - 1);
    }
}

/// Applies headers in order. The first one with an unacceptable name or value
/// makes the request a configuration error; the first one that finds the map
/// full ends it, which is answered with `false`.
fn apply_headers(list: &mut HeaderMap<HeaderValue>, headers: &Vec<(String, String)>) -> (result:
    Result<bool, NetError>)
    requires
        header_entries(*old(list)).dom().finite(),
    ensures
        ({
            let after = applied(header_entries(*old(list)), headers@, headers@.len() as int);
            match result {
                Ok(true) => acceptable(headers@) && header_entries(*final(list)) == after,
                Ok(false) => after.dom().len() >= CERTAIN_HEADER_COUNT,
                Err(error) => !acceptable(headers@) && error is ConfigError,
            }
        }),
{
    let ghost base = header_entries(*list);
    let mut i: usize = 0;
    while i < headers.len()
        invariant
            i <= headers@.len(),
            base.dom().finite(),
            base == header_entries(*old(list)),
            header_entries(*list) == applied(base, headers@, i as int),
            forall|j: int|
                0 <= j < i ==> is_header_name((#[trigger] headers@[j]).0@) && is_header_value(
                    headers@[j].1@,
                ),
        decreases headers@.len() - i,
    {
        if !header_name_is_accepted(headers[i].0.as_str()) {
            assert(!is_header_name(headers@[i as int].0@));
            return Err(NetError::ConfigError);
        }
        if !header_value_is_accepted(headers[i].1.as_str()) {
            assert(!is_header_value(headers@[i as int].1@));
            return Err(NetError::ConfigError);
        }
        if !insert_header(list, headers[i].0.as_str(), headers[i].1.as_str()) {
            proof {
                applying_adds_names(base, headers@, i as int, headers@.len() as int);
            }
            return Ok(false);
        }
        i = i + 1;
    }
    Ok(true)
}

/// What became of the header provider of an attempt.
#[derive(Debug)]
pub enum ProviderReply {
    /// The target has none.
    Absent,
    /// It did not answer in time, or there was no time left to ask it.
    TimedOut,
    /// It could not be asked because the client is gone.
    Gone,
    /// It answered.
    Answered(Result<Vec<(String, String)>, NetError>),
}

/// The handshake request of an attempt.
#[derive(Debug)]
pub struct HandshakeRequest {
    /// Where to connect to.
    pub uri: TargetUri,
    /// Headers beyond those of every WebSocket handshake.
    pub headers: HeaderMap<HeaderValue>,
}

/// Whether a provider may still be asked at `now`.
pub fn check_provider_deadline(now: Instant, deadline: Instant) -> (result: Result<
    (),
    ConnectAttemptError,
>)
    ensures
        result == if now.reached(deadline) {
            Err::<(), ConnectAttemptError>(ConnectAttemptError::ProviderTimedOut)
        } else {
            Ok::<(), ConnectAttemptError>(())
        },
{
    if now.has_reached(deadline) {
        Err(ConnectAttemptError::ProviderTimedOut)
    } else {
        Ok(())
    }
}

/// The headers that a provider contributes, or why the attempt fails.
pub fn provider_headers(reply: ProviderReply) -> (headers: Result<
    Vec<(String, String)>,
    ConnectAttemptError,
>)
    ensures
        match reply {
            ProviderReply::Absent => headers matches Ok(list) && list@.len() == 0,
            ProviderReply::TimedOut => headers == Err::<
                Vec<(String, String)>,
                ConnectAttemptError,
            >(ConnectAttemptError::ProviderTimedOut),
            ProviderReply::Gone => headers == Err::<Vec<(String, String)>, ConnectAttemptError>(
                ConnectAttemptError::Build(NetError::EngineDropped),
            ),
            ProviderReply::Answered(Ok(list)) => headers == Ok::<
                Vec<(String, String)>,
                ConnectAttemptError,
            >(list),
            ProviderReply::Answered(Err(error)) => headers == Err::<
                Vec<(String, String)>,
                ConnectAttemptError,
            >(ConnectAttemptError::Build(error)),
        },
{
    match reply {
        ProviderReply::Absent => Ok(Vec::new()),
        ProviderReply::TimedOut => Err(ConnectAttemptError::ProviderTimedOut),
        ProviderReply::Gone => Err(ConnectAttemptError::Build(NetError::EngineDropped)),
        ProviderReply::Answered(Ok(list)) => Ok(list),
        ProviderReply::Answered(Err(error)) => Err(ConnectAttemptError::Build(error)),
    }
}

/// The headers of a request for the given parts: first the static ones, then
/// those of the provider.
pub open spec fn request_headers(
    headers: Seq<(String, String)>,
    provided: Seq<(String, String)>,
) -> Map<Seq<char>, Seq<char>> {
    applied(
        applied(Map::empty(), headers, headers.len() as int),
        provided,
        provided.len() as int,
    )
}

/// Puts a request together from the parts of its URL, the static headers and
/// what the provider contributed. There is none if the header map was full,
/// which takes at least 6554 names.
pub fn assemble_request(
    uri: Option<TargetUri>,
    headers: &Vec<(String, String)>,
    reply: ProviderReply,
) -> (request: Result<Option<HandshakeRequest>, ConnectAttemptError>)
    ensures
        match request {
            Ok(Some(built)) => {
                &&& uri == Some(built.uri)
                &&& acceptable(headers@)
                &&& match reply {
                    ProviderReply::Absent => header_entries(built.headers) == request_headers(
                        headers@,
                        Seq::empty(),
                    ),
                    ProviderReply::Answered(Ok(provided)) => acceptable(provided@)
                        && header_entries(built.headers) == request_headers(headers@, provided@),
                    _ => false,
                }
            },
            Ok(None) => uri is Some && match reply {
                ProviderReply::Absent => request_headers(headers@, Seq::empty()).dom().len()
                    >= CERTAIN_HEADER_COUNT,
                ProviderReply::Answered(Ok(provided)) => request_headers(
                    headers@,
                    provided@,
                ).dom().len() >= CERTAIN_HEADER_COUNT,
                _ => false,
            },
            Err(error) => match uri {
                None => error == ConnectAttemptError::Build(NetError::InvalidUrl),
                Some(_) => match reply {
                    ProviderReply::TimedOut => error is ProviderTimedOut,
                    ProviderReply::Gone => error == ConnectAttemptError::Build(
                        NetError::EngineDropped,
                    ),
                    ProviderReply::Answered(Err(cause)) => error == ConnectAttemptError::Build(
                        cause,
                    ),
                    ProviderReply::Absent => !acceptable(headers@) && error
                        == ConnectAttemptError::Build(NetError::ConfigError),
                    ProviderReply::Answered(Ok(provided)) => (!acceptable(headers@) || !acceptable(
                        provided@,
                    )) && error == ConnectAttemptError::Build(NetError::ConfigError),
                },
            },
        },
{
    let uri = match uri {
        Some(parts) => parts,
        None => {
            return Err(ConnectAttemptError::Build(NetError::InvalidUrl));
        },
    };
    let provided = match provider_headers(reply) {
        Ok(provided) => provided,
        Err(error) => {
            return Err(error);
        },
    };
    let mut list = no_headers();
    proof {
        let base = Map::<Seq<char>, Seq<char>>::empty();
        let count = headers@.len() as int;
        let statics = applied(base, headers@, count);
        applying_adds_names(base, headers@, count, count);
        applying_adds_names(statics, provided@, 0, provided@.len() as int);
        if provided@.len() == 0 {
            assert(provided@ =~= Seq::empty());
        }
    }
    match apply_headers(&mut list, headers) {
        Ok(true) => {},
        Ok(false) => {
            return Ok(None);
        },
        Err(error) => {
            return Err(ConnectAttemptError::Build(error));
        },
    }
    match apply_headers(&mut list, &provided) {
        Ok(true) => {},
        Ok(false) => {
            return Ok(None);
        },
        Err(error) => {
            return Err(ConnectAttemptError::Build(error));
        },
    }
    Ok(Some(HandshakeRequest { uri, headers: list }))
}

/// Builds the handshake request of one attempt.
///
/// A URL that is refused goes before everything else. Static headers come
/// before those of the provider, so that of two values for one name the
/// provider's stands. There is no request if the header map was full, which
/// takes at least 6554 names.
pub fn build_connect_request(
    url: &str,
    headers: &Vec<(String, String)>,
    reply: ProviderReply,
) -> (request: Result<Option<HandshakeRequest>, ConnectAttemptError>)
    ensures
        match request {
            Ok(Some(built)) => {
                &&& client_request_uri(url@) == Some(built.uri@)
                &&& acceptable(headers@)
                &&& match reply {
                    ProviderReply::Absent => header_entries(built.headers) == request_headers(
                        headers@,
                        Seq::empty(),
                    ),
                    ProviderReply::Answered(Ok(provided)) => acceptable(provided@)
                        && header_entries(built.headers) == request_headers(headers@, provided@),
                    _ => false,
                }
            },
            Ok(None) => client_request_uri(url@) is Some && match reply {
                ProviderReply::Absent => request_headers(headers@, Seq::empty()).dom().len()
                    >= CERTAIN_HEADER_COUNT,
                ProviderReply::Answered(Ok(provided)) => request_headers(
                    headers@,
                    provided@,
                ).dom().len() >= CERTAIN_HEADER_COUNT,
                _ => false,
            },
            Err(error) => if client_request_uri(url@) is None {
                error == ConnectAttemptError::Build(NetError::InvalidUrl)
            } else {
                match reply {
                    ProviderReply::TimedOut => error is ProviderTimedOut,
                    ProviderReply::Gone => error == ConnectAttemptError::Build(
                        NetError::EngineDropped,
                    ),
                    ProviderReply::Answered(Err(cause)) => error == ConnectAttemptError::Build(
                        cause,
                    ),
                    ProviderReply::Absent => !acceptable(headers@) && error
                        == ConnectAttemptError::Build(NetError::ConfigError),
                    ProviderReply::Answered(Ok(provided)) => (!acceptable(headers@) || !acceptable(
                        provided@,
                    )) && error == ConnectAttemptError::Build(NetError::ConfigError),
                }
            },
        },
{
    assemble_request(parse_client_request(url), headers, reply)
}

/// Of two headers with one name the later one stands, whatever case the name
/// is written in.
pub proof fn later_headers_win(
    base: Map<Seq<char>, Seq<char>>,
    headers: Seq<(String, String)>,
    at: int,
)
    requires
        0 <= at < headers.len(),
        forall|i: int|
            at < i < headers.len() ==> normal_name((#[trigger] headers[i]).0@) != normal_name(
                headers[at].0@,
            ),
    ensures
        applied(base, headers, headers.len() as int)[normal_name(headers[at].0@)]
            == headers[at].1@,
{
    later_headers_win_up_to(base, headers, at, headers.len() as int);
}

proof fn later_headers_win_up_to(
    base: Map<Seq<char>, Seq<char>>,
    headers: Seq<(String, String)>,
    at: int,
    count: int,
)
    requires
        0 <= at < count <= headers.len(),
        forall|i: int|
            at < i < headers.len() ==> normal_name((#[trigger] headers[i]).0@) != normal_name(
                headers[at].0@,
            ),
    ensures
        applied(base, headers, count)[normal_name(headers[at].0@)] == headers[at].1@,
    decreases count,
{
    if at < count - 1 {
        later_headers_win_up_to(base, headers, at, count - 1);
        assert(normal_name(headers[count - 1].0@) != normal_name(headers[at].0@));
    }
}

/// Names are found in whatever case they are written: capitals are made small, and
/// nothing else is changed.
pub proof fn names_ignore_their_case(name: Seq<char>, i: int)
    requires
        0 <= i < name.len(),
    ensures
        normal_name(name).len() == name.len(),
        'A' <= name[i] <= 'Z' ==> normal_name(name)[i] as int == name[i] as int + 32,
        !('A' <= name[i] <= 'Z') ==> normal_name(name)[i] == name[i],
        normal_name(normal_name(name)) == normal_name(name),
{
    let once = normal_name(name);
    assert forall|j: int| 0 <= j < name.len() implies lowered(#[trigger] once[j]) == once[j] by {
        assert(once[j] == lowered(name[j]));
    }
    assert(normal_name(once) =~= once);
}

/// A request holds the headers that it was given and no others.
pub proof fn requests_hold_only_what_was_given(
    base: Map<Seq<char>, Seq<char>>,
    headers: Seq<(String, String)>,
    count: int,
    name: Seq<char>,
)
    requires
        0 <= count <= headers.len(),
    ensures
        applied(base, headers, count).dom().contains(name) <==> base.dom().contains(name) || exists|
            i: int,
        |
            0 <= i < count && normal_name((#[trigger] headers[i]).0@) == name,
        !(exists|i: int| 0 <= i < count && normal_name((#[trigger] headers[i]).0@) == name)
            && base.dom().contains(name) ==> applied(base, headers, count)[name] == base[name],
    decreases count,
{
    if count > 0 {
        requests_hold_only_what_was_given(base, headers, count - 1, name);
        let last = headers[count - 1];
        if normal_name(last.0@) == name {
            assert(0 <= count - 1 < count && normal_name(headers[count - 1].0@) == name);
        }
        if exists|i: int| 0 <= i < count && normal_name((#[trigger] headers[i]).0@) == name {
            let i = choose|i: int|
                0 <= i < count && normal_name((#[trigger] headers[i]).0@) == name;
            if i == count - 1 {
            } else {
                assert(0 <= i < count - 1 && normal_name(headers[i].0@) == name);
            }
        }
    }
}

/// What a provider contributes goes before the static headers: of a name that both
/// give, the provider's last value stands, and a static header of another name
/// stays.
pub proof fn providers_go_before_static_headers(
    headers: Seq<(String, String)>,
    provided: Seq<(String, String)>,
    at: int,
)
    requires
        0 <= at < provided.len(),
        forall|i: int|
            at < i < provided.len() ==> normal_name((#[trigger] provided[i]).0@) != normal_name(
                provided[at].0@,
            ),
    ensures
        request_headers(headers, provided)[normal_name(provided[at].0@)] == provided[at].1@,
        request_headers(headers, provided).dom().contains(normal_name(provided[at].0@)),
        request_headers(headers, Seq::empty()) == applied(
            Map::empty(),
            headers,
            headers.len() as int,
        ),
{
    let base = applied(Map::empty(), headers, headers.len() as int);
    later_headers_win(base, provided, at);
    requests_hold_only_what_was_given(
        base,
        provided,
        provided.len() as int,
        normal_name(provided[at].0@),
    );
}

/// A static header stands unless a later one or the provider gives the same name.
pub proof fn static_headers_stand(
    headers: Seq<(String, String)>,
    provided: Seq<(String, String)>,
    at: int,
)
    requires
        0 <= at < headers.len(),
        forall|i: int|
            at < i < headers.len() ==> normal_name((#[trigger] headers[i]).0@) != normal_name(
                headers[at].0@,
            ),
        forall|i: int|
            0 <= i < provided.len() ==> normal_name((#[trigger] provided[i]).0@) != normal_name(
                headers[at].0@,
            ),
    ensures
        request_headers(headers, provided)[normal_name(headers[at].0@)] == headers[at].1@,
        request_headers(headers, provided).dom().contains(normal_name(headers[at].0@)),
{
    let name = normal_name(headers[at].0@);
    let base = applied(Map::empty(), headers, headers.len() as int);
    later_headers_win(Map::empty(), headers, at);
    requests_hold_only_what_was_given(Map::empty(), headers, headers.len() as int, name);
    requests_hold_only_what_was_given(base, provided, provided.len() as int, name);
}

} // verus!
