//! Wire protocol core: the request header, the API key enumeration of the
//! diagnostic protocol family, the typed request and response envelopes, and
//! the decode dispatch that turns one frame of bytes into one typed request.
//!
//! A request frame is the header followed by the body selected by the
//! header's API key. A response frame is the echoed correlation id followed
//! by the response body. The transport delivers whole frames, so a frame
//! must be consumed exactly: bytes left over after the selected body are a
//! decode error.

use vstd::prelude::*;

use crate::codec::DecodeError;
use crate::codec::read_string;
use crate::codec::read_u16;
use crate::codec::read_u32;
use crate::codec::spec_dec_u16;
use crate::codec::spec_dec_u32;
use crate::codec::spec_enc_string;
use crate::codec::spec_enc_u16;
use crate::codec::spec_enc_u32;
use crate::codec::spec_i16_bits;
use crate::codec::spec_i16_of_bits;
use crate::codec::spec_i32_bits;
use crate::codec::spec_i32_of_bits;
use crate::codec::spec_parse_string;
use crate::codec::i16_bits;
use crate::codec::i16_of_bits;
use crate::codec::i32_bits;
use crate::codec::i32_of_bits;
use crate::codec::lemma_parse_string_of_enc;
use crate::codec::lemma_u16_round_trip;
use crate::codec::lemma_u32_round_trip;
use crate::codec::lemma_i16_bits_round_trip;
use crate::codec::lemma_i32_bits_round_trip;
use crate::codec::wf_chars;
use crate::codec::write_string;
use crate::codec::write_u16;
use crate::codec::write_u32;

verus! {

/// API key of the echo request in the diagnostic family.
pub const ECHO_API_KEY: u16 = 1000;

/// API key of the save request, the designated terminal request.
pub const SAVE_API_KEY: u16 = 1001;

/// The API key enumeration of the diagnostic protocol family.
#[derive(Debug, Clone, Copy, PartialEq, Eq, Structural)]
pub enum TestKafkaApiEnum {
    Echo,
    Save,
}

/// The numeric key of each member of the family.
pub open spec fn spec_api_key(k: TestKafkaApiEnum) -> u16 {
    match k {
        TestKafkaApiEnum::Echo => ECHO_API_KEY,
        TestKafkaApiEnum::Save => SAVE_API_KEY,
    }
}

impl TestKafkaApiEnum {
    /// The numeric key this member stands for.
    pub fn as_u16(&self) -> (r: u16)
        ensures
            r == spec_api_key(*self),
    {
        match self {
            TestKafkaApiEnum::Echo => ECHO_API_KEY,
            TestKafkaApiEnum::Save => SAVE_API_KEY,
        }
    }

    /// The member a numeric key selects; an unknown key selects none.
    pub fn from_u16(key: u16) -> (r: Option<TestKafkaApiEnum>)
        ensures
            key == ECHO_API_KEY ==> r == Some(TestKafkaApiEnum::Echo),
            key == SAVE_API_KEY ==> r == Some(TestKafkaApiEnum::Save),
            key != ECHO_API_KEY && key != SAVE_API_KEY ==> r is None,
    {
        if key == ECHO_API_KEY {
            Some(TestKafkaApiEnum::Echo)
        } else if key == SAVE_API_KEY {
            Some(TestKafkaApiEnum::Save)
        } else {
            None
        }
    }
}

impl Default for TestKafkaApiEnum {
    /// The family's default member.
    fn default() -> (r: TestKafkaApiEnum)
        ensures
            r == TestKafkaApiEnum::Echo,
    {
        TestKafkaApiEnum::Echo
    }
}

// ---------------------------------------------------------------------------
// Header
// ---------------------------------------------------------------------------

/// The fixed part of every request: API key, API version, sender-chosen
/// correlation id, and the client identifier string.
#[derive(Debug)]
pub struct RequestHeader {
    pub api_key: u16,
    pub api_version: i16,
    pub correlation_id: i32,
    pub client_id: String,
}

/// Mathematical image of a request header.
pub struct HeaderV {
    pub api_key: u16,
    pub api_version: i16,
    pub correlation_id: i32,
    pub client_id: Seq<char>,
}

impl View for RequestHeader {
    type V = HeaderV;

    open spec fn view(&self) -> HeaderV {
        HeaderV {
            api_key: self.api_key,
            api_version: self.api_version,
            correlation_id: self.correlation_id,
            client_id: self.client_id@,
        }
    }
}

/// A header is valid when its client identifier fits the 16-bit character
/// count of the wire format and holds genuine Unicode scalar values.
pub open spec fn wf_header(h: HeaderV) -> bool {
    h.client_id.len() <= 0xFFFF && wf_chars(h.client_id)
}

impl RequestHeader {
    /// Builds a header from its four fields.
    pub fn new(api_key: u16, api_version: i16, correlation_id: i32, client_id: String) -> (r:
        RequestHeader)
        ensures
            r@ == (HeaderV {
                api_key,
                api_version,
                correlation_id,
                client_id: client_id@,
            }),
    {
        RequestHeader { api_key, api_version, correlation_id, client_id }
    }
}

/// Byte image of a header.
pub open spec fn spec_enc_header(h: HeaderV) -> Seq<u8> {
    spec_enc_u16(h.api_key) + spec_enc_u16(spec_i16_bits(h.api_version)) + spec_enc_u32(
        spec_i32_bits(h.correlation_id),
    ) + spec_enc_string(h.client_id)
}

/// The header read back from position `pos`, together with the position just
/// past it.
pub open spec fn spec_parse_header(s: Seq<u8>, pos: int) -> Result<(HeaderV, int), DecodeError> {
    if pos < 0 || pos + 8 > s.len() {
        Err(DecodeError::Truncated)
    } else {
        match spec_parse_string(s, pos + 8) {
            Ok((cid, end)) => Ok(
                (
                    HeaderV {
                        api_key: spec_dec_u16(s[pos], s[pos + 1]),
                        api_version: spec_i16_of_bits(spec_dec_u16(s[pos + 2], s[pos + 3])),
                        correlation_id: spec_i32_of_bits(
                            spec_dec_u32(s[pos + 4], s[pos + 5], s[pos + 6], s[pos + 7]),
                        ),
                        client_id: cid,
                    },
                    end,
                ),
            ),
            Err(e) => Err(e),
        }
    }
}

/// Appends the byte image of a header.
pub fn write_header(out: &mut Vec<u8>, h: &RequestHeader)
    requires
        h@.client_id.len() <= 0xFFFF,
    ensures
        final(out)@ == old(out)@ + spec_enc_header(h@),
{
    write_u16(out, h.api_key);
    write_u16(out, i16_bits(h.api_version));
    write_u32(out, i32_bits(h.correlation_id));
    write_string(out, h.client_id.as_str());
    assert(out@ =~= old(out)@ + spec_enc_header(h@));
}

/// Reads the header stored at `pos`; on success also returns the position
/// just past it.
pub fn read_header(buf: &Vec<u8>, pos: usize) -> (r: Result<(RequestHeader, usize), DecodeError>)
    ensures
        match r {
            Ok((h, end)) => {
                &&& spec_parse_header(buf@, pos as int) == Ok::<_, DecodeError>((h@, end as int))
                &&& pos <= end <= buf@.len()
            },
            Err(e) => spec_parse_header(buf@, pos as int) == Err::<(HeaderV, int), _>(e),
        },
{
    let buf_len: usize = buf.len();
    if pos > buf_len || buf_len - pos < 8 {
        return Err(DecodeError::Truncated);
    }
    let api_key: u16 = read_u16(buf, pos);
    let api_version: i16 = i16_of_bits(read_u16(buf, pos + 2));
    let correlation_id: i32 = i32_of_bits(read_u32(buf, pos + 4));
    match read_string(buf, pos + 8) {
        Ok((client_id, end)) => Ok(
            (RequestHeader { api_key, api_version, correlation_id, client_id }, end),
        ),
        Err(e) => Err(e),
    }
}

/// Round trip for headers: parsing the byte image of a valid header,
/// followed by arbitrary further bytes, yields exactly the header and
/// consumes exactly its image.
pub proof fn lemma_parse_header_of_enc(h: HeaderV, tail: Seq<u8>)
    requires
        wf_header(h),
    ensures
        spec_parse_header(spec_enc_header(h) + tail, 0) == Ok::<_, DecodeError>(
            (h, spec_enc_header(h).len() as int),
        ),
{
    let s = spec_enc_header(h) + tail;
    let k = spec_enc_u16(h.api_key);
    let v = spec_enc_u16(spec_i16_bits(h.api_version));
    let c = spec_enc_u32(spec_i32_bits(h.correlation_id));
    let cid = spec_enc_string(h.client_id);
    assert(s[0] == k[0] && s[1] == k[1]);
    assert(s[2] == v[0] && s[3] == v[1]);
    assert(s[4] == c[0] && s[5] == c[1] && s[6] == c[2] && s[7] == c[3]);
    lemma_u16_round_trip(h.api_key);
    lemma_u16_round_trip(spec_i16_bits(h.api_version));
    lemma_u32_round_trip(spec_i32_bits(h.correlation_id));
    lemma_i16_bits_round_trip(h.api_version);
    lemma_i32_bits_round_trip(h.correlation_id);
    assert(spec_dec_u16(s[0], s[1]) == h.api_key);
    assert(spec_i16_of_bits(spec_dec_u16(s[2], s[3])) == h.api_version);
    assert(spec_i32_of_bits(spec_dec_u32(s[4], s[5], s[6], s[7])) == h.correlation_id);
    // The client id string stands at offset 8; parsing it there is parsing
    // it at the head of its own image followed by the tail.
    let shifted = cid + tail;
    lemma_parse_string_of_enc(h.client_id, tail);
    assert(s =~= (k + v + c) + shifted);
    lemma_parse_string_shift(s, k + v + c, shifted);
}

/// Parsing a string at an offset that begins a suffix equals parsing the
/// suffix at its head, with positions shifted by the offset.
proof fn lemma_parse_string_shift(s: Seq<u8>, prefix: Seq<u8>, suffix: Seq<u8>)
    requires
        s == prefix + suffix,
    ensures
        match spec_parse_string(suffix, 0) {
            Ok((cs, end)) => spec_parse_string(s, prefix.len() as int) == Ok::<_, DecodeError>(
                (cs, end + prefix.len()),
            ),
            Err(e) => spec_parse_string(s, prefix.len() as int) == Err::<(Seq<char>, int), _>(e),
        },
{
    let p = prefix.len() as int;
    if suffix.len() >= 2 {
        assert(s[p] == suffix[0]);
        assert(s[p + 1] == suffix[1]);
        let n = spec_dec_u16(suffix[0], suffix[1]);
        lemma_parse_chars_shift(s, prefix, suffix, 2, n as nat);
    }
}

/// Parsing `n` characters at an offset that begins a suffix equals parsing
/// them at the same position of the suffix alone.
proof fn lemma_parse_chars_shift(s: Seq<u8>, prefix: Seq<u8>, suffix: Seq<u8>, pos: int, n: nat)
    requires
        s == prefix + suffix,
        0 <= pos,
    ensures
        crate::codec::spec_parse_chars(s, prefix.len() + pos, n) == crate::codec::spec_parse_chars(
            suffix,
            pos,
            n,
        ),
    decreases n,
{
    if n != 0 {
        if pos + 4 <= suffix.len() {
            assert(s[prefix.len() + pos] == suffix[pos]);
            assert(s[prefix.len() + pos + 1] == suffix[pos + 1]);
            assert(s[prefix.len() + pos + 2] == suffix[pos + 2]);
            assert(s[prefix.len() + pos + 3] == suffix[pos + 3]);
            lemma_parse_chars_shift(s, prefix, suffix, pos + 4, (n - 1) as nat);
        }
    }
}


// ---------------------------------------------------------------------------
// Bodies and envelopes
// ---------------------------------------------------------------------------

/// Body of the echo request: a message the server is asked to repeat.
#[derive(Debug)]
pub struct EchoRequest {
    pub msg: String,
}

impl EchoRequest {
    /// Builds an echo request around a message.
    pub fn new(msg: String) -> (r: EchoRequest)
        ensures
            r.msg@ == msg@,
    {
        EchoRequest { msg }
    }
}

/// Body of the echo response: the repeated message.
#[derive(Debug)]
pub struct EchoResponse {
    pub msg: String,
}

/// Body of the save request, the designated terminal request. It carries no
/// fields; receiving it ends the connection's dispatch loop.
#[derive(Debug)]
pub struct SaveRequest {}

/// Body of the save response. It carries no fields.
#[derive(Debug)]
pub struct SaveResponse {}

/// A decoded request: the header paired with a typed body.
#[derive(Debug)]
pub struct RequestMessage<R> {
    pub header: RequestHeader,
    pub request: R,
}

/// A response envelope: the echoed correlation id paired with a typed body.
#[derive(Debug)]
pub struct ResponseMessage<P> {
    pub correlation_id: i32,
    pub response: P,
}

impl<R> RequestMessage<R> {
    /// Pairs a header with a body.
    pub fn new(header: RequestHeader, request: R) -> (r: RequestMessage<R>)
        ensures
            r.header@ == header@,
            r.request == request,
    {
        RequestMessage { header, request }
    }

    /// Builds the response envelope for this request: the response body under
    /// this request's correlation id. The correlation id is echoed unchanged,
    /// whatever the body.
    pub fn new_response<P>(&self, response: P) -> (r: ResponseMessage<P>)
        ensures
            r.correlation_id == self.header.correlation_id,
            r.response == response,
    {
        ResponseMessage { correlation_id: self.header.correlation_id, response }
    }
}

/// One decoded request of the diagnostic family. The variant is determined
/// solely by the header's API key.
#[derive(Debug)]
pub enum TestApiRequest {
    EchoRequest(RequestMessage<EchoRequest>),
    SaveRequest(RequestMessage<SaveRequest>),
}

/// Mathematical image of a decoded request.
pub enum RequestV {
    Echo { header: HeaderV, msg: Seq<char> },
    Save { header: HeaderV },
}

impl View for TestApiRequest {
    type V = RequestV;

    open spec fn view(&self) -> RequestV {
        match self {
            TestApiRequest::EchoRequest(m) => RequestV::Echo {
                header: m.header@,
                msg: m.request.msg@,
            },
            TestApiRequest::SaveRequest(m) => RequestV::Save { header: m.header@ },
        }
    }
}

impl Default for TestApiRequest {
    /// An empty echo request, as the family's default value.
    fn default() -> (r: TestApiRequest)
        ensures
            r@ matches RequestV::Echo { header, msg } && header.api_key == ECHO_API_KEY
                && header.api_version == 0 && header.correlation_id == 0 && header.client_id
                == Seq::<char>::empty() && msg == Seq::<char>::empty(),
    {
        TestApiRequest::EchoRequest(
            RequestMessage {
                header: RequestHeader {
                    api_key: ECHO_API_KEY,
                    api_version: 0,
                    correlation_id: 0,
                    client_id: String::new(),
                },
                request: EchoRequest { msg: String::new() },
            },
        )
    }
}

/// The header of a decoded request, whichever variant it is.
pub open spec fn spec_request_header(r: RequestV) -> HeaderV {
    match r {
        RequestV::Echo { header, .. } => header,
        RequestV::Save { header } => header,
    }
}

/// A request value is valid when its header is valid, the header's API key
/// matches the variant, and the message fits the wire format's character
/// count.
pub open spec fn wf_request(r: RequestV) -> bool {
    match r {
        RequestV::Echo { header, msg } => wf_header(header) && header.api_key == ECHO_API_KEY
            && msg.len() <= 0xFFFF && wf_chars(msg),
        RequestV::Save { header } => wf_header(header) && header.api_key == SAVE_API_KEY,
    }
}

/// The length bounds alone: what encoding needs of a request value.
pub open spec fn bounded_request(r: RequestV) -> bool {
    match r {
        RequestV::Echo { header, msg } => header.client_id.len() <= 0xFFFF && msg.len() <= 0xFFFF,
        RequestV::Save { header } => header.client_id.len() <= 0xFFFF,
    }
}

/// Byte image of one request frame: the header, then the body the header's
/// variant selects.
pub open spec fn spec_enc_request(r: RequestV) -> Seq<u8> {
    match r {
        RequestV::Echo { header, msg } => spec_enc_header(header) + spec_enc_string(msg),
        RequestV::Save { header } => spec_enc_header(header),
    }
}

/// The body read back from position `pos` under an already-read header: the
/// header's API key selects exactly one body shape, an unknown key is a
/// decode error, and a frame must be consumed exactly.
pub open spec fn spec_parse_body(s: Seq<u8>, pos: int, h: HeaderV) -> Result<
    RequestV,
    DecodeError,
> {
    if h.api_key == ECHO_API_KEY {
        match spec_parse_string(s, pos) {
            Ok((msg, end)) => if end == s.len() {
                Ok(RequestV::Echo { header: h, msg })
            } else {
                Err(DecodeError::TrailingBytes)
            },
            Err(e) => Err(e),
        }
    } else if h.api_key == SAVE_API_KEY {
        if pos == s.len() {
            Ok(RequestV::Save { header: h })
        } else {
            Err(DecodeError::TrailingBytes)
        }
    } else {
        Err(DecodeError::UnknownApiKey(h.api_key))
    }
}

/// The request read back from one whole frame.
pub open spec fn spec_parse_request(s: Seq<u8>) -> Result<RequestV, DecodeError> {
    match spec_parse_header(s, 0) {
        Ok((h, end)) => spec_parse_body(s, end, h),
        Err(e) => Err(e),
    }
}

impl TestApiRequest {
    /// Decodes the body that `header` selects, starting at `pos`; the frame
    /// must be consumed exactly.
    pub fn decode_with_header(frame: &Vec<u8>, pos: usize, header: RequestHeader) -> (r: Result<
        TestApiRequest,
        DecodeError,
    >)
        requires
            pos <= frame@.len(),
        ensures
            match r {
                Ok(req) => spec_parse_body(frame@, pos as int, header@) == Ok::<_, DecodeError>(
                    req@,
                ),
                Err(e) => spec_parse_body(frame@, pos as int, header@) == Err::<RequestV, _>(e),
            },
    {
        let key: u16 = header.api_key;
        if key == ECHO_API_KEY {
            match read_string(frame, pos) {
                Ok((msg, end)) => {
                    if end == frame.len() {
                        Ok(
                            TestApiRequest::EchoRequest(
                                RequestMessage { header, request: EchoRequest { msg } },
                            ),
                        )
                    } else {
                        Err(DecodeError::TrailingBytes)
                    }
                },
                Err(e) => Err(e),
            }
        } else if key == SAVE_API_KEY {
            if pos == frame.len() {
                Ok(TestApiRequest::SaveRequest(RequestMessage { header, request: SaveRequest {} }))
            } else {
                Err(DecodeError::TrailingBytes)
            }
        } else {
            Err(DecodeError::UnknownApiKey(key))
        }
    }
}

/// Decodes one whole request frame: the header first, then the body the
/// header's API key selects.
pub fn decode_request(frame: &Vec<u8>) -> (r: Result<TestApiRequest, DecodeError>)
    ensures
        match r {
            Ok(req) => spec_parse_request(frame@) == Ok::<_, DecodeError>(req@),
            Err(e) => spec_parse_request(frame@) == Err::<RequestV, _>(e),
        },
{
    match read_header(frame, 0) {
        Ok((header, end)) => TestApiRequest::decode_with_header(frame, end, header),
        Err(e) => Err(e),
    }
}

/// Encodes one whole request frame.
pub fn encode_request(req: &TestApiRequest) -> (out: Vec<u8>)
    requires
        bounded_request(req@),
    ensures
        out@ == spec_enc_request(req@),
{
    let mut out: Vec<u8> = Vec::new();
    match req {
        TestApiRequest::EchoRequest(m) => {
            write_header(&mut out, &m.header);
            write_string(&mut out, m.request.msg.as_str());
        },
        TestApiRequest::SaveRequest(m) => {
            write_header(&mut out, &m.header);
        },
    }
    assert(out@ =~= spec_enc_request(req@));
    out
}

/// Round trip for request frames: decoding the byte image of a valid request
/// yields exactly that request.
pub proof fn lemma_request_round_trip(r: RequestV)
    requires
        wf_request(r),
    ensures
        spec_parse_request(spec_enc_request(r)) == Ok::<_, DecodeError>(r),
{
    let s = spec_enc_request(r);
    let h = spec_request_header(r);
    match r {
        RequestV::Echo { header, msg } => {
            let body = spec_enc_string(msg);
            lemma_parse_header_of_enc(header, body);
            crate::codec::lemma_enc_chars_len(msg);
            lemma_parse_string_of_enc(msg, Seq::empty());
            assert(body + Seq::<u8>::empty() =~= body);
            assert(s =~= spec_enc_header(header) + body);
            lemma_parse_string_shift(s, spec_enc_header(header), body);
        },
        RequestV::Save { header } => {
            lemma_parse_header_of_enc(header, Seq::empty());
            assert(s =~= spec_enc_header(header) + Seq::<u8>::empty());
        },
    }
}

// ---------------------------------------------------------------------------
// Response frames
// ---------------------------------------------------------------------------

/// Byte image of an echo response frame: the echoed correlation id, then the
/// repeated message.
pub open spec fn spec_enc_echo_response(corr: i32, msg: Seq<char>) -> Seq<u8> {
    spec_enc_u32(spec_i32_bits(corr)) + spec_enc_string(msg)
}

/// The echo response read back from one whole frame.
pub open spec fn spec_parse_echo_response(s: Seq<u8>) -> Result<(i32, Seq<char>), DecodeError> {
    if s.len() < 4 {
        Err(DecodeError::Truncated)
    } else {
        let corr = spec_i32_of_bits(spec_dec_u32(s[0], s[1], s[2], s[3]));
        match spec_parse_string(s, 4) {
            Ok((msg, end)) => if end == s.len() {
                Ok((corr, msg))
            } else {
                Err(DecodeError::TrailingBytes)
            },
            Err(e) => Err(e),
        }
    }
}

/// Encodes one whole echo response frame.
pub fn encode_echo_response(resp: &ResponseMessage<EchoResponse>) -> (out: Vec<u8>)
    requires
        resp.response.msg@.len() <= 0xFFFF,
    ensures
        out@ == spec_enc_echo_response(resp.correlation_id, resp.response.msg@),
{
    let mut out: Vec<u8> = Vec::new();
    write_u32(&mut out, i32_bits(resp.correlation_id));
    write_string(&mut out, resp.response.msg.as_str());
    assert(out@ =~= spec_enc_echo_response(resp.correlation_id, resp.response.msg@));
    out
}

/// Decodes one whole echo response frame.
pub fn decode_echo_response(frame: &Vec<u8>) -> (r: Result<
    ResponseMessage<EchoResponse>,
    DecodeError,
>)
    ensures
        match r {
            Ok(resp) => spec_parse_echo_response(frame@) == Ok::<_, DecodeError>(
                (resp.correlation_id, resp.response.msg@),
            ),
            Err(e) => spec_parse_echo_response(frame@) == Err::<(i32, Seq<char>), _>(e),
        },
{
    let frame_len: usize = frame.len();
    if frame_len < 4 {
        return Err(DecodeError::Truncated);
    }
    let corr: i32 = i32_of_bits(read_u32(frame, 0));
    match read_string(frame, 4) {
        Ok((msg, end)) => {
            if end == frame_len {
                Ok(ResponseMessage { correlation_id: corr, response: EchoResponse { msg } })
            } else {
                Err(DecodeError::TrailingBytes)
            }
        },
        Err(e) => Err(e),
    }
}

/// Round trip for echo response frames.
pub proof fn lemma_echo_response_round_trip(corr: i32, msg: Seq<char>)
    requires
        msg.len() <= 0xFFFF,
        wf_chars(msg),
    ensures
        spec_parse_echo_response(spec_enc_echo_response(corr, msg)) == Ok::<_, DecodeError>(
            (corr, msg),
        ),
{
    let s = spec_enc_echo_response(corr, msg);
    let c = spec_enc_u32(spec_i32_bits(corr));
    let body = spec_enc_string(msg);
    assert(s[0] == c[0] && s[1] == c[1] && s[2] == c[2] && s[3] == c[3]);
    lemma_u32_round_trip(spec_i32_bits(corr));
    lemma_i32_bits_round_trip(corr);
    crate::codec::lemma_enc_chars_len(msg);
    lemma_parse_string_of_enc(msg, Seq::empty());
    assert(body + Seq::<u8>::empty() =~= body);
    assert(s =~= c + body);
    lemma_parse_string_shift(s, c, body);
}


/// An unknown API key: a frame whose header parses but names a key outside
/// the family's enumeration always fails to decode with exactly that key's
/// error, whatever the rest of the frame holds.
pub proof fn lemma_unknown_key_rejected(s: Seq<u8>, h: HeaderV, end: int)
    requires
        spec_parse_header(s, 0) == Ok::<_, DecodeError>((h, end)),
        h.api_key != ECHO_API_KEY,
        h.api_key != SAVE_API_KEY,
    ensures
        spec_parse_request(s) == Err::<RequestV, _>(DecodeError::UnknownApiKey(h.api_key)),
{
}


/// Byte image of a save response frame: the echoed correlation id alone,
/// since the body has no fields.
pub open spec fn spec_enc_save_response(corr: i32) -> Seq<u8> {
    spec_enc_u32(spec_i32_bits(corr))
}

/// The save response read back from one whole frame.
pub open spec fn spec_parse_save_response(s: Seq<u8>) -> Result<i32, DecodeError> {
    if s.len() < 4 {
        Err(DecodeError::Truncated)
    } else if s.len() > 4 {
        Err(DecodeError::TrailingBytes)
    } else {
        Ok(spec_i32_of_bits(spec_dec_u32(s[0], s[1], s[2], s[3])))
    }
}

/// Encodes one whole save response frame.
pub fn encode_save_response(resp: &ResponseMessage<SaveResponse>) -> (out: Vec<u8>)
    ensures
        out@ == spec_enc_save_response(resp.correlation_id),
{
    let mut out: Vec<u8> = Vec::new();
    write_u32(&mut out, i32_bits(resp.correlation_id));
    assert(out@ =~= spec_enc_save_response(resp.correlation_id));
    out
}

/// Decodes one whole save response frame.
pub fn decode_save_response(frame: &Vec<u8>) -> (r: Result<
    ResponseMessage<SaveResponse>,
    DecodeError,
>)
    ensures
        match r {
            Ok(resp) => spec_parse_save_response(frame@) == Ok::<_, DecodeError>(
                resp.correlation_id,
            ),
            Err(e) => spec_parse_save_response(frame@) == Err::<i32, _>(e),
        },
{
    let frame_len: usize = frame.len();
    if frame_len < 4 {
        Err(DecodeError::Truncated)
    } else if frame_len > 4 {
        Err(DecodeError::TrailingBytes)
    } else {
        let corr: i32 = i32_of_bits(read_u32(frame, 0));
        Ok(ResponseMessage { correlation_id: corr, response: SaveResponse {} })
    }
}

/// Round trip for save response frames.
pub proof fn lemma_save_response_round_trip(corr: i32)
    ensures
        spec_parse_save_response(spec_enc_save_response(corr)) == Ok::<_, DecodeError>(corr),
{
    let s = spec_enc_save_response(corr);
    lemma_u32_round_trip(spec_i32_bits(corr));
    lemma_i32_bits_round_trip(corr);
}

} // verus!

