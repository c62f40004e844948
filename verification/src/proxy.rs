//! A tunnel through an HTTP proxy.
use vstd::prelude::*;
use vstd::string::StrSliceExecFns;
use vstd::string::StringExecFns;

use crate::connection_failure::{WebSocketConnectStage, WebSocketConnectionFailure};
use crate::net_error::NetError;
use crate::text::push_decimal;

verus! {

/// Bytes that all answers of a proxy may have together.
pub const MAX_RESPONSE_BYTES: usize = 16384;

/// Header lines that all answers of a proxy may have together.
pub const MAX_RESPONSE_HEADERS: usize = 64;

/// Interim answers that a proxy may give.
pub const MAX_INFORMATIONAL_RESPONSES: usize = 4;

/// Bytes that are looked at in one go.
pub const PEEK_CHUNK: usize = 1024;

/// The failure of reading from or writing to a proxy.
pub open spec fn io_failure() -> WebSocketConnectionFailure {
    crate::connection_failure::plain_failure(
        NetError::NetworkError,
        WebSocketConnectStage::ProxyConnect,
        true,
    )
}

/// The failure of a proxy that does not speak HTTP as expected.
pub open spec fn protocol_failure() -> WebSocketConnectionFailure {
    crate::connection_failure::plain_failure(
        NetError::ConnectError,
        WebSocketConnectStage::ProxyConnect,
        false,
    )
}

/// The failure of a proxy that refuses the tunnel with a status code.
pub open spec fn refusal(code: u16) -> WebSocketConnectionFailure {
    WebSocketConnectionFailure {
        error: NetError::ConnectError,
        stage: WebSocketConnectStage::ProxyConnect,
        http_status: Some(code),
        retryable: code == 408 || code == 429 || 500 <= code < 600,
    }
}

/// The failure of reading from or writing to a proxy; worth another attempt.
pub fn proxy_io() -> (failure: WebSocketConnectionFailure)
    ensures
        failure == io_failure(),
{
    WebSocketConnectionFailure::new(
        NetError::NetworkError,
        WebSocketConnectStage::ProxyConnect,
        None,
        true,
    )
}

/// The failure of a proxy that does not speak HTTP as expected.
pub fn proxy_protocol() -> (failure: WebSocketConnectionFailure)
    ensures
        failure == protocol_failure(),
{
    WebSocketConnectionFailure::new(
        NetError::ConnectError,
        WebSocketConnectStage::ProxyConnect,
        None,
        false,
    )
}

/// Host and port of a tunnel; a host with a colon is bracketed.
pub open spec fn authority_text(host: Seq<char>, port: u16) -> Seq<char> {
    if host.contains(':') {
        "["@ + host + "]:"@ + crate::text::decimal(port as nat)
    } else {
        host + ":"@ + crate::text::decimal(port as nat)
    }
}

/// The request for a tunnel.
pub open spec fn connect_text(
    host: Seq<char>,
    port: u16,
    credentials: Option<Seq<char>>,
) -> Seq<char> {
    let head = "CONNECT "@ + authority_text(host, port) + " HTTP/1.1\r\nHost: "@ + authority_text(
        host,
        port,
    ) + "\r\n"@;
    let with_credentials = match credentials {
        Some(encoded) => head + "Proxy-Authorization: Basic "@ + encoded + "\r\n"@,
        None => head,
    };
    with_credentials + "\r\n"@
}

fn has_colon(text: &str) -> (found: bool)
    ensures
        found == text@.contains(':'),
{
    let len: usize = text.unicode_len();
    let mut i: usize = 0;
    while i < len
        invariant
            i <= len,
            len == text@.len(),
            forall|j: int| 0 <= j < i ==> text@[j] != ':',
        decreases len - i,
    {
        if text.get_char(i) == ':' {
            assert(text@[i as int] == ':');
            return true;
        }
        i = i + 1;
    }
    false
}

/// Host and port of a tunnel.
pub fn authority(host: &str, port: u16) -> (text: String)
    ensures
        text@ == authority_text(host@, port),
{
    let mut text = String::new();
    if has_colon(host) {
        text.append("[");
        text.append(host);
        text.append("]:");
        push_decimal(&mut text, port as u64);
        assert(text@ =~= authority_text(host@, port));
    } else {
        text.append(host);
        text.append(":");
        push_decimal(&mut text, port as u64);
        assert(text@ =~= authority_text(host@, port));
    }
    text
}

/// The request for a tunnel to a host, with encoded credentials if the proxy
/// wants them.
pub fn connect_request(host: &str, port: u16, credentials: Option<&str>) -> (text: String)
    ensures
        text@ == connect_text(
            host@,
            port,
            match credentials {
                Some(encoded) => Some(encoded@),
                None => None,
            },
        ),
{
    let target = authority(host, port);
    let mut text = String::new();
    text.append("CONNECT ");
    text.append(target.as_str());
    text.append(" HTTP/1.1\r\nHost: ");
    text.append(target.as_str());
    text.append("\r\n");
    match credentials {
        Some(encoded) => {
            text.append("Proxy-Authorization: Basic ");
            text.append(encoded);
            text.append("\r\n");
        },
        None => {},
    }
    text.append("\r\n");
    assert(text@ =~= connect_text(
        host@,
        port,
        match credentials {
            Some(encoded) => Some(encoded@),
            None => None,
        },
    ));
    text
}

/// Whether a header section of `bytes` ends right before position `end`.
pub open spec fn ends_at(bytes: Seq<u8>, end: int) -> bool {
    4 <= end <= bytes.len() && bytes[end - 4] == 13 && bytes[end - 3] == 10 && bytes[end - 2] == 13
        && bytes[end - 1] == 10
}

/// Whether the first header section of `bytes` ends right before `end`.
pub open spec fn first_end(bytes: Seq<u8>, end: int) -> bool {
    ends_at(bytes, end) && forall|earlier: int| earlier < end ==> !ends_at(bytes, earlier)
}

/// Whether `bytes` hold no complete header section.
pub open spec fn incomplete(bytes: Seq<u8>) -> bool {
    forall|end: int| !ends_at(bytes, end)
}

/// Progress of reading a header section.
#[derive(Clone, Copy, Debug, PartialEq, Eq, Structural)]
pub struct HeaderProgress {
    /// Bytes of the last look to take from the connection.
    pub consume: usize,
    /// Whether the header section is complete.
    pub complete: bool,
}

/// Reads one header section and nothing beyond it.
#[derive(Debug)]
pub struct HeaderReader {
    /// What was taken from the connection so far.
    pub response: Vec<u8>,
    /// Bytes that the section may have at most.
    pub max_bytes: usize,
}

impl HeaderReader {
    /// A section that is being read is not complete and not too long.
    pub open spec fn wf(self) -> bool {
        incomplete(self.response@) && self.response@.len() <= self.max_bytes
    }

    /// Bytes to look at next; none if the section is as long as it may be.
    pub open spec fn window(self) -> int {
        let left = self.max_bytes - self.response@.len();
        if left > PEEK_CHUNK {
            PEEK_CHUNK as int
        } else {
            left
        }
    }

    /// Starts to read a section of at most `max_bytes` bytes.
    pub fn new(max_bytes: usize) -> (reader: Self)
        ensures
            reader.wf(),
            reader.response@.len() == 0,
            reader.max_bytes == max_bytes,
    {
        HeaderReader { response: Vec::new(), max_bytes }
    }

    /// How many bytes to look at next. A section that is not complete within
    /// its limit is a protocol failure.
    pub fn next_peek(&self) -> (size: Result<usize, WebSocketConnectionFailure>)
        requires
            self.wf(),
        ensures
            match size {
                Ok(size) => size == self.window() && size > 0,
                Err(failure) => self.window() == 0 && failure == protocol_failure(),
            },
    {
        let left: usize = self.max_bytes - self.response.len();
        if left == 0 {
            return Err(proxy_protocol());
        }
        if left > PEEK_CHUNK {
            Ok(PEEK_CHUNK)
        } else {
            Ok(left)
        }
    }

    /// Takes in bytes that were looked at: all of them, or those up to the end
    /// of the section if it ends among them. No bytes mean that the proxy has
    /// gone.
    pub fn read_header_exactly(&mut self, peeked: &[u8]) -> (progress: Result<
        HeaderProgress,
        WebSocketConnectionFailure,
    >)
        requires
            old(self).wf(),
            peeked@.len() <= old(self).window(),
        ensures
            final(self).max_bytes == old(self).max_bytes,
            match progress {
                Err(failure) => {
                    &&& peeked@.len() == 0
                    &&& failure == io_failure()
                    &&& final(self).response@ == old(self).response@
                },
                Ok(step) => {
                    let seen = old(self).response@ + peeked@;
                    &&& 0 < step.consume <= peeked@.len()
                    &&& final(self).response@ == old(self).response@ + peeked@.take(
                        step.consume as int,
                    )
                    &&& step.complete ==> first_end(seen, final(self).response@.len() as int)
                        && first_end(final(self).response@, final(self).response@.len() as int)
                    &&& !step.complete ==> step.consume == peeked@.len() && incomplete(seen)
                        && final(self).wf()
                },
            },
    {
        if peeked.len() == 0 {
            return Err(proxy_io());
        }
        let previous: usize = self.response.len();
        let ghost seen = self.response@ + peeked@;
        let mut taken: usize = 0;
        proof {
            assert forall|end: int| end <= previous implies !ends_at(seen, end) by {
                assert(!ends_at(self.response@, end));
            }
            assert(seen.take(previous as int) =~= self.response@);
        }
        while taken < peeked.len()
            invariant
                taken <= peeked@.len(),
                previous == old(self).response@.len(),
                seen == old(self).response@ + peeked@,
                self.max_bytes == old(self).max_bytes,
                self.response@ == seen.take(previous + taken),
                previous + peeked@.len() <= self.max_bytes,
                old(self).wf(),
                peeked@.len() > 0,
                forall|end: int| end <= previous + taken ==> !ends_at(seen, end),
            decreases peeked@.len() - taken,
        {
            self.response.push(peeked[taken]);
            taken = taken + 1;
            let len: usize = self.response.len();
            assert(self.response@ =~= seen.take(previous + taken));
            if len >= 4 && self.response[len - 4] == 13 && self.response[len - 3] == 10
                && self.response[len - 2] == 13 && self.response[len - 1] == 10 {
                proof {
                    assert(ends_at(seen, len as int));
                    assert(first_end(seen, len as int));
                    assert(self.response@ =~= old(self).response@ + peeked@.take(taken as int));
                    assert forall|earlier: int| earlier < len implies !ends_at(
                        self.response@,
                        earlier,
                    ) by {
                        assert(!ends_at(seen, earlier));
                    }
                }
                return Ok(HeaderProgress { consume: taken, complete: true });
            }
            assert(!ends_at(seen, len as int));
        }
        proof {
            assert(self.response@ =~= seen);
            assert(peeked@.take(taken as int) =~= peeked@);
            assert(incomplete(seen));
        }
        Ok(HeaderProgress { consume: taken, complete: false })
    }
}

/// What a parser makes of an answer.
#[derive(Clone, Copy, Debug, PartialEq, Eq, Structural)]
pub enum ParsedResponse {
    /// It is no HTTP answer, or it has too many header lines.
    Invalid,
    /// It is the beginning of an answer.
    Partial,
    /// It is an answer.
    Complete {
        /// Bytes of the answer's head.
        consumed: usize,
        /// The status code.
        code: Option<u16>,
        /// Number of header lines.
        headers: usize,
    },
}

/// What `httparse` makes of the bytes of an answer with room for so many
/// header lines.
pub uninterp spec fn parsed_response(bytes: Seq<u8>, max_headers: nat) -> ParsedResponse;

/// Calls `httparse::Response::parse` with room for `max_headers` header lines
/// and reads how many bytes it consumed, the status code and the number of
/// header lines. The result depends on the bytes and on the room alone. The
/// room is bounded so that it can be allocated.
#[verifier::external_body]
fn parse_response(bytes: &[u8], max_headers: usize) -> (parsed: ParsedResponse)
    requires
        max_headers <= 65535,
    ensures
        parsed == parsed_response(bytes@, max_headers as nat),
{
    let mut headers = vec![httparse::EMPTY_HEADER; max_headers];
    let mut response = httparse::Response::new(&mut headers);
    match response.parse(bytes) {
        Ok(httparse::Status::Complete(consumed)) => ParsedResponse::Complete {
            consumed,
            code: response.code,
            headers: response.headers.len(),
        },
        Ok(httparse::Status::Partial) => ParsedResponse::Partial,
        Err(_) => ParsedResponse::Invalid,
    }
}

/// The state of opening a tunnel.
#[derive(Clone, Copy, Debug, PartialEq, Eq, Structural)]
pub struct ProxyTunnel {
    /// Bytes that further answers may have.
    pub remaining_bytes: usize,
    /// Header lines that further answers may have.
    pub remaining_headers: usize,
    /// Interim answers so far.
    pub informational_responses: usize,
}

/// What a proxy's answer means: the tunnel is open, another answer follows, or
/// the tunnel failed.
pub open spec fn tunnel_verdict(
    tunnel: ProxyTunnel,
    len: nat,
    parsed: ParsedResponse,
) -> Result<bool, WebSocketConnectionFailure> {
    match parsed {
        ParsedResponse::Complete { consumed, code, headers } => if len > tunnel.remaining_bytes
            || consumed != len || headers > tunnel.remaining_headers {
            Err(protocol_failure())
        } else {
            match code {
                None => Err(protocol_failure()),
                Some(code) => if 100 <= code < 200 {
                    if code == 101 || tunnel.informational_responses
                        >= MAX_INFORMATIONAL_RESPONSES {
                        Err(protocol_failure())
                    } else {
                        Ok(false)
                    }
                } else if 200 <= code < 300 {
                    Ok(true)
                } else {
                    Err(refusal(code))
                },
            }
        },
        _ => Err(protocol_failure()),
    }
}

/// The tunnel after an interim answer.
pub open spec fn after_interim(
    tunnel: ProxyTunnel,
    len: nat,
    parsed: ParsedResponse,
) -> ProxyTunnel {
    ProxyTunnel {
        remaining_bytes: (tunnel.remaining_bytes - len) as usize,
        remaining_headers: (tunnel.remaining_headers - parsed->headers) as usize,
        informational_responses: (tunnel.informational_responses + 1) as usize,
    }
}

impl ProxyTunnel {
    /// A tunnel that was just asked for.
    pub fn new() -> (tunnel: Self)
        ensures
            tunnel == (ProxyTunnel {
                remaining_bytes: MAX_RESPONSE_BYTES,
                remaining_headers: MAX_RESPONSE_HEADERS,
                informational_responses: 0,
            }),
            tunnel.remaining_bytes == 16 * 1024,
            tunnel.remaining_headers == 64,
    {
        ProxyTunnel {
            remaining_bytes: MAX_RESPONSE_BYTES,
            remaining_headers: MAX_RESPONSE_HEADERS,
            informational_responses: 0,
        }
    }

    /// Judges an answer of `len` bytes that was parsed. All answers share one
    /// budget of bytes and header lines; interim answers are limited, and a
    /// switch of protocols is never expected.
    pub fn judge(&mut self, len: usize, parsed: ParsedResponse) -> (verdict: Result<
        bool,
        WebSocketConnectionFailure,
    >)
        ensures
            verdict == tunnel_verdict(*old(self), len as nat, parsed),
            *final(self) == if verdict == Ok::<bool, WebSocketConnectionFailure>(false) {
                after_interim(*old(self), len as nat, parsed)
            } else {
                *old(self)
            },
    {
        let (consumed, code, headers) = match parsed {
            ParsedResponse::Complete { consumed, code, headers } => (consumed, code, headers),
            _ => {
                return Err(proxy_protocol());
            },
        };
        if len > self.remaining_bytes || consumed != len || headers > self.remaining_headers {
            return Err(proxy_protocol());
        }
        let code: u16 = match code {
            Some(code) => code,
            None => {
                return Err(proxy_protocol());
            },
        };
        if 100 <= code && code < 200 {
            if code == 101 || self.informational_responses >= MAX_INFORMATIONAL_RESPONSES {
                return Err(proxy_protocol());
            }
            self.remaining_bytes = self.remaining_bytes - len;
            self.remaining_headers = self.remaining_headers - headers;
            self.informational_responses = self.informational_responses + 1;
            return Ok(false);
        }
        if 200 <= code && code < 300 {
            return Ok(true);
        }
        Err(
            WebSocketConnectionFailure::new(
                NetError::ConnectError,
                WebSocketConnectStage::ProxyConnect,
                Some(code),
                code == 408 || code == 429 || (500 <= code && code < 600),
            ),
        )
    }

    /// Takes in one answer of the proxy.
    pub fn establish_tunnel(&mut self, response: &Vec<u8>) -> (verdict: Result<
        bool,
        WebSocketConnectionFailure,
    >)
        ensures
            ({
                let parsed = parsed_response(response@, MAX_RESPONSE_HEADERS as nat);
                &&& verdict == tunnel_verdict(*old(self), response@.len(), parsed)
                &&& *final(self) == if verdict == Ok::<bool, WebSocketConnectionFailure>(false) {
                    after_interim(*old(self), response@.len(), parsed)
                } else {
                    *old(self)
                }
            }),
    {
        let parsed = parse_response(response.as_slice(), MAX_RESPONSE_HEADERS);
        self.judge(response.len(), parsed)
    }
}

/// The budget of a tunnel is finite: each interim answer uses up one of the
/// few that are allowed, and bytes and header lines never grow back.
pub proof fn interim_answers_use_up_the_budget(
    tunnel: ProxyTunnel,
    len: nat,
    parsed: ParsedResponse,
)
    requires
        tunnel_verdict(tunnel, len, parsed) == Ok::<bool, WebSocketConnectionFailure>(false),
        tunnel.informational_responses <= MAX_INFORMATIONAL_RESPONSES,
    ensures
        ({
            let after = after_interim(tunnel, len, parsed);
            &&& after.informational_responses == tunnel.informational_responses + 1
            &&& after.informational_responses <= MAX_INFORMATIONAL_RESPONSES
            &&& after.remaining_bytes + len == tunnel.remaining_bytes
            &&& after.remaining_headers <= tunnel.remaining_headers
        }),
{
}

/// A tunnel is open only after an answer that was parsed to its last byte and
/// whose status code is a success.
pub proof fn open_tunnels_were_confirmed(tunnel: ProxyTunnel, len: nat, parsed: ParsedResponse)
    requires
        tunnel_verdict(tunnel, len, parsed) == Ok::<bool, WebSocketConnectionFailure>(true),
    ensures
        parsed matches ParsedResponse::Complete { consumed, code, headers } && consumed == len && (
        code matches Some(status) && 200 <= status < 300),
{
}

/// A header section has one first end: readers that look at different pieces
/// of the same bytes stop at the same place.
pub proof fn the_first_end_is_unique(bytes: Seq<u8>, first: int, second: int)
    requires
        first_end(bytes, first),
        first_end(bytes, second),
    ensures
        first == second,
{
}

/// The answer of a proxy is taken as it is meant: within the budget a success opens
/// the tunnel, an interim answer that is still allowed asks for another one, and
/// every other code is a refusal with that code, worth another attempt for server
/// errors, a request timeout and too many requests. What is no answer, or goes
/// beyond the budget, is a failure of the protocol.
pub proof fn answers_are_taken_as_meant(
    tunnel: ProxyTunnel,
    len: nat,
    parsed: ParsedResponse,
)
    ensures
        ({
            let verdict = tunnel_verdict(tunnel, len, parsed);
            let broken = Err::<bool, WebSocketConnectionFailure>(
                WebSocketConnectionFailure {
                    error: NetError::ConnectError,
                    stage: WebSocketConnectStage::ProxyConnect,
                    http_status: None,
                    retryable: false,
                },
            );
            match parsed {
                ParsedResponse::Complete { consumed, code, headers } => {
                    let within = len <= tunnel.remaining_bytes && consumed == len && headers
                        <= tunnel.remaining_headers;
                    &&& !within ==> verdict == broken
                    &&& code is None ==> verdict == broken
                    &&& within ==> (code matches Some(status) ==> {
                        &&& 200 <= status <= 299 ==> verdict == Ok::<
                            bool,
                            WebSocketConnectionFailure,
                        >(true)
                        &&& 100 <= status <= 199 && status != 101
                            && tunnel.informational_responses < 4 ==> verdict == Ok::<
                            bool,
                            WebSocketConnectionFailure,
                        >(false)
                        &&& status == 101 || (100 <= status <= 199
                            && tunnel.informational_responses >= 4) ==> verdict == broken
                        &&& status < 100 || status > 299 ==> (verdict matches Err(failure) && {
                            &&& failure.error is ConnectError
                            &&& failure.stage is ProxyConnect
                            &&& failure.http_status == Some(status)
                            &&& failure.retryable <==> 500 <= status <= 599 || status == 408
                                || status == 429
                        })
                    })
                },
                _ => verdict == broken,
            }
        }),
{
}

/// The target of a tunnel is named as host, colon and port, a host with a colon in
/// brackets, so that the two can be told apart again.
pub proof fn targets_are_named_with_their_port(host: Seq<char>, port: u16)
    ensures
        ({
            let text = authority_text(host, port);
            let number = crate::text::decimal(port as nat);
            &&& !host.contains(':') ==> text == host.push(':') + number
            &&& host.contains(':') ==> text == seq!['['] + host + seq![']', ':'] + number
        }),
{
    reveal_strlit("[");
    reveal_strlit("]:");
    reveal_strlit(":");
    let number = crate::text::decimal(port as nat);
    assert("["@ =~= seq!['[']);
    assert("]:"@ =~= seq![']', ':']);
    assert(":"@ =~= seq![':']);
    assert(host + ":"@ + number =~= host.push(':') + number);
}

/// The request for a tunnel begins with the target, names it again as the host, and
/// ends with an empty line. Credentials add one line before that, and nothing else.
pub proof fn tunnel_requests_name_their_target(
    host: Seq<char>,
    port: u16,
    credentials: Seq<char>,
)
    ensures
        ({
            let plain = connect_text(host, port, None);
            let shown = connect_text(host, port, Some(credentials));
            let target = authority_text(host, port);
            let begin = "CONNECT "@ + target + " HTTP/1.1\r\nHost: "@ + target + "\r\n"@;
            &&& plain == begin + seq!['\r', '\n']
            &&& shown == begin + "Proxy-Authorization: Basic "@ + credentials + seq![
                '\r',
                '\n',
                '\r',
                '\n',
            ]
        }),
{
    reveal_strlit("\r\n");
    assert("\r\n"@ =~= seq!['\r', '\n']);
    let target = authority_text(host, port);
    let begin = "CONNECT "@ + target + " HTTP/1.1\r\nHost: "@ + target + "\r\n"@;
    assert(connect_text(host, port, None) =~= begin + seq!['\r', '\n']);
    assert(connect_text(host, port, Some(credentials)) =~= begin + "Proxy-Authorization: Basic "@
        + credentials + seq!['\r', '\n', '\r', '\n']);
}

/// A header section ends with an empty line, and what was read of one that is not
/// complete is not taken for one.
pub proof fn sections_end_with_an_empty_line(bytes: Seq<u8>, end: int)
    ensures
        first_end(bytes, end) ==> bytes.take(end).subrange(end - 4, end) == seq![
            13u8,
            10u8,
            13u8,
            10u8,
        ],
        incomplete(bytes) ==> !first_end(bytes, end),
        4 <= end <= bytes.len() && bytes.subrange(end - 4, end) == seq![13u8, 10u8, 13u8, 10u8]
            ==> !incomplete(bytes),
        incomplete(bytes.take(end - 1)) && 4 <= end <= bytes.len() && bytes.subrange(end - 4, end)
            == seq![13u8, 10u8, 13u8, 10u8] ==> first_end(bytes, end),
{
    if first_end(bytes, end) {
        assert(bytes.take(end).subrange(end - 4, end) =~= seq![13u8, 10u8, 13u8, 10u8]);
    }
    if 4 <= end <= bytes.len() && bytes.subrange(end - 4, end) == seq![13u8, 10u8, 13u8, 10u8] {
        let tail = bytes.subrange(end - 4, end);
        assert(tail[0] == bytes[end - 4] && tail[1] == bytes[end - 3] && tail[2] == bytes[end - 2]
            && tail[3] == bytes[end - 1]);
        assert(ends_at(bytes, end));
        let before = bytes.take(end - 1);
        if incomplete(before) {
            assert forall|earlier: int| earlier < end implies !ends_at(bytes, earlier) by {
                assert(!ends_at(before, earlier));
            }
        }
    }
}

/// A reader looks at no more than is left of its section, and at something as long
/// as anything is left.
pub proof fn readers_look_at_what_is_left(reader: HeaderReader)
    requires
        reader.response@.len() <= reader.max_bytes,
    ensures
        reader.window() <= reader.max_bytes - reader.response@.len(),
        reader.window() <= 1024,
        reader.response@.len() < reader.max_bytes ==> reader.window() > 0,
        reader.max_bytes - reader.response@.len() >= 1024 ==> reader.window() == 1024,
{
}

/// A proxy that cannot be read from or written to may be tried again; one that does
/// not keep to the protocol may not. Both failures are those of the proxy.
pub proof fn unreachable_proxies_may_be_tried_again()
    ensures
        io_failure().error is NetworkError && io_failure().stage is ProxyConnect
            && io_failure().http_status is None && io_failure().retryable,
        protocol_failure().error is ConnectError && protocol_failure().stage is ProxyConnect
            && protocol_failure().http_status is None && !protocol_failure().retryable,
{
}

} // verus!
