//! Replies, and the small computations on requests that surround the session.

use crate::soap::{Envelope, EnvelopeView};
use vstd::prelude::*;
use vstd::std_specs::iter::IteratorSpec;
use vstd::string::StringExecFns;
use vstd::utf8::{
    decode_utf8, encode_utf8, encode_utf8_decode_utf8, encode_utf8_valid_utf8,
    is_ascii_chars_encode_utf8, valid_utf8,
};

verus! {

/// The text sent with a refusal.
pub const FORBIDDEN: &'static str = "Forbidden\n";

/// The text sent to a device that presents no credential.
pub const AUTHORIZATION_REQUIRED: &'static str = "Authorization required\n";

/// The challenge sent to a device that presents no credential.
pub const CHALLENGE: &'static str = "Basic realm=\"acrsrs world\"";

/// What precedes the diagnostic in the text of an internal failure.
pub const INTERNAL_ERROR: &'static str = "Server internal error: ";

/// The name under which the server presents itself.
pub const USER_AGENT: &'static str = "acsrs";

/// The content type of a reply that carries a message.
pub const XML_CONTENT_TYPE: &'static str = "text/xml; charset=\"utf-8\"";

/// What a reply carries.
#[derive(Debug, Clone, PartialEq, Eq)]
pub enum Payload {
    /// Plain text, possibly empty.
    Text(String),
    /// A message, which goes out in its wire form.
    Xml(Envelope),
}

/// [`Payload`] as a mathematical value.
pub enum PayloadView {
    Text(Seq<char>),
    Xml(EnvelopeView),
}

impl View for Payload {
    type V = PayloadView;

    open spec fn view(&self) -> PayloadView {
        match self {
            Payload::Text(text) => PayloadView::Text(text@),
            Payload::Xml(envelope) => PayloadView::Xml(envelope@),
        }
    }
}

/// The answer to one request: a status code, headers in order, and a body.
#[derive(Debug, Clone, PartialEq, Eq)]
pub struct Reply {
    pub status: u16,
    pub headers: Vec<(String, String)>,
    pub body: Payload,
}

/// [`Reply`] as a mathematical value.
pub struct ReplyView {
    pub status: u16,
    pub headers: Seq<(Seq<char>, Seq<char>)>,
    pub body: PayloadView,
}

impl View for Reply {
    type V = ReplyView;

    open spec fn view(&self) -> ReplyView {
        ReplyView {
            status: self.status,
            headers: self.headers@.map_values(|h: (String, String)| (h.0@, h.1@)),
            body: self.body@,
        }
    }
}

impl ReplyView {
    /// A reply of `text` under `status`, without headers.
    pub open spec fn plain(status: u16, text: Seq<char>) -> ReplyView {
        ReplyView { status, headers: Seq::empty(), body: PayloadView::Text(text) }
    }

    /// The reply that tells a device that nothing awaits it.
    pub open spec fn no_content() -> ReplyView {
        ReplyView::plain(204, Seq::empty())
    }

    /// The reply to a request that is not admitted.
    pub open spec fn forbidden() -> ReplyView {
        ReplyView::plain(403, FORBIDDEN@)
    }

    /// The reply to a request without a credential.
    pub open spec fn unauthorized() -> ReplyView {
        ReplyView {
            status: 401,
            headers: seq![(("User-Agent")@, USER_AGENT@), (("WWW-Authenticate")@, CHALLENGE@)],
            body: PayloadView::Text(AUTHORIZATION_REQUIRED@),
        }
    }

    /// The reply that carries `envelope` to the device.
    pub open spec fn xml(envelope: EnvelopeView) -> ReplyView {
        ReplyView {
            status: 200,
            headers: seq![(("User-Agent")@, USER_AGENT@), (("Content-type")@, XML_CONTENT_TYPE@)],
            body: PayloadView::Xml(envelope),
        }
    }

    /// The reply that reports an internal failure described by `diagnostic`.
    pub open spec fn error(diagnostic: Seq<char>) -> ReplyView {
        ReplyView::plain(500, INTERNAL_ERROR@ + diagnostic + ("\n")@)
    }
}

/// The status codes that a reply can carry.
pub open spec fn valid_status(statuscode: u16) -> bool {
    100 <= statuscode <= 999
}

/// Why a reply could not be made.
#[derive(Debug, Clone, Copy, PartialEq, Eq, Structural)]
pub enum ReplyError {
    /// The status code is not one that HTTP knows.
    InvalidStatusCode,
}

/// `hyper::StatusCode::from_u16`, which accepts a number as a status code
/// exactly when it lies between 100 and 999.
#[verifier::external_body]
fn status_code_accepted(statuscode: u16) -> (accepted: bool)
    ensures
        accepted == valid_status(statuscode),
{
    hyper::StatusCode::from_u16(statuscode).is_ok()
}

/// A reply of the text `response` under `statuscode`.
pub fn reply(statuscode: u16, response: String) -> (r: Result<Reply, ReplyError>)
    ensures
        match r {
            Ok(reply) => valid_status(statuscode) && reply@ == ReplyView::plain(
                statuscode,
                response@,
            ),
            Err(e) => !valid_status(statuscode) && e == ReplyError::InvalidStatusCode,
        },
{
    if status_code_accepted(statuscode) {
        let reply = Reply {
            status: statuscode,
            headers: Vec::new(),
            body: Payload::Text(response),
        };
        proof {
            assert(reply@.headers =~= Seq::empty());
        }
        Ok(reply)
    } else {
        Err(ReplyError::InvalidStatusCode)
    }
}

/// The reply that carries `response` to the device.
pub fn reply_xml(response: Envelope) -> (r: Reply)
    ensures
        r@ == ReplyView::xml(response@),
{
    let mut headers: Vec<(String, String)> = Vec::new();
    headers.push(("User-Agent".to_owned(), USER_AGENT.to_owned()));
    headers.push(("Content-type".to_owned(), XML_CONTENT_TYPE.to_owned()));
    let reply = Reply { status: 200, headers, body: Payload::Xml(response) };
    proof {
        assert(reply@.headers =~= ReplyView::xml(response@).headers);
    }
    reply
}

/// The reply that reports an internal failure described by `err`.
pub fn reply_error(err: &str) -> (r: Reply)
    ensures
        r@ == ReplyView::error(err@),
{
    let text = INTERNAL_ERROR.to_owned().concat(err).concat("\n");
    let reply = Reply { status: 500, headers: Vec::new(), body: Payload::Text(text) };
    proof {
        assert(reply@.headers =~= Seq::empty());
    }
    reply
}

/// Where the segment of `path` that starts at `from` ends: at the next `/`,
/// or at the end of `path`.
pub open spec fn segment_end(path: Seq<char>, from: int) -> int
    decreases path.len() - from,
{
    if from < 0 || from >= path.len() {
        path.len() as int
    } else if path[from] == '/' {
        from
    } else {
        segment_end(path, from + 1)
    }
}

/// Where segment `num` of `path` starts, the segments being what `/`
/// separates; past the end of `path` if it has no such segment.
pub open spec fn segment_start(path: Seq<char>, num: nat) -> int
    decreases num,
{
    if num == 0 {
        0
    } else {
        let previous = segment_start(path, (num - 1) as nat);
        if previous > path.len() {
            previous
        } else {
            segment_end(path, previous) + 1
        }
    }
}

/// Segment `num` of `path`, empty if `path` has no such segment.
pub open spec fn segment(path: Seq<char>, num: nat) -> Seq<char> {
    let start = segment_start(path, num);
    if start > path.len() {
        Seq::empty()
    } else {
        path.subrange(start, segment_end(path, start))
    }
}

proof fn lemma_segment_end_step(path: Seq<char>, from: int, i: int)
    requires
        0 <= from <= i <= path.len(),
        forall|k: int| from <= k < i ==> path[k] != '/',
    ensures
        segment_end(path, from) == segment_end(path, i),
        i < path.len() && path[i] == '/' ==> segment_end(path, from) == i,
        i == path.len() ==> segment_end(path, from) == i,
    decreases i - from,
{
    if from < i {
        lemma_segment_end_step(path, from + 1, i);
    }
}

/// Segment `num` of the path of a request: what stands between its `/`
/// number `num` and the next one. Segment 0 is what precedes the first `/`.
pub fn req_path(path: &str, num: u32) -> (r: String)
    ensures
        r@ == segment(path@, num as nat),
{
    let len = path.unicode_len();
    let mut chars = path.chars();
    let mut start: usize = 0;
    let mut passed: u32 = 0;
    let mut i: usize = 0;
    while i < len
        invariant
            len == path@.len(),
            0 <= start <= i <= len,
            passed <= num,
            chars.remaining() == path@.skip(i as int),
            start == segment_start(path@, passed as nat),
            forall|k: int| start <= k < i ==> path@[k] != '/',
        decreases len - i,
    {
        let c = chars.next();
        if c == Some('/') {
            proof {
                lemma_segment_end_step(path@, start as int, i as int);
            }
            if passed == num {
                return path.substring_char(start, i).to_owned();
            }
            passed = passed + 1;
            start = i + 1;
        }
        i = i + 1;
    }
    proof {
        lemma_segment_end_step(path@, start as int, i as int);
    }
    if passed == num {
        path.substring_char(start, len).to_owned()
    } else {
        proof {
            lemma_no_segment(path@, passed as nat, num as nat);
        }
        String::new()
    }
}

proof fn lemma_no_segment(path: Seq<char>, last: nat, num: nat)
    requires
        last < num,
        segment_start(path, last) <= path.len(),
        segment_end(path, segment_start(path, last)) == path.len(),
    ensures
        segment_start(path, num) > path.len(),
    decreases num,
{
    if num > last + 1 {
        lemma_no_segment(path, last, (num - 1) as nat);
    }
}

/// Why the body of a request could not be read as text.
#[derive(Debug, Clone, Copy, PartialEq, Eq, Structural)]
pub enum ContentError {
    /// The bytes are not UTF-8.
    InvalidUtf8,
}

/// `String::from_utf8`, which makes a string of the bytes exactly when they
/// are UTF-8: the string of the characters that they encode.
#[verifier::external_body]
fn string_from_utf8(bytes: Vec<u8>) -> (r: Option<String>)
    ensures
        match r {
            Some(text) => valid_utf8(bytes@) && text@ == decode_utf8(bytes@),
            None => !valid_utf8(bytes@),
        },
{
    String::from_utf8(bytes).ok()
}

/// The text of the body of a request, of which `body` holds the bytes.
pub fn content(body: Vec<u8>) -> (r: Result<String, ContentError>)
    ensures
        match r {
            Ok(text) => valid_utf8(body@) && text@ == decode_utf8(body@),
            Err(e) => !valid_utf8(body@) && e == ContentError::InvalidUtf8,
        },
{
    match string_from_utf8(body) {
        Some(text) => Ok(text),
        None => Err(ContentError::InvalidUtf8),
    }
}

/// The number of characters of a generated password.
pub const PASSWORD_LENGTH: usize = 30;

/// The characters of which passwords are made: ASCII letters and digits.
pub open spec fn alphanumeric(c: char) -> bool {
    ||| 'a' <= c <= 'z'
    ||| 'A' <= c <= 'Z'
    ||| '0' <= c <= '9'
}

/// One draw from `rand::distributions::Alphanumeric` with the generator of
/// the running thread: the code of an ASCII letter or digit. Which one is
/// left to chance.
#[verifier::external_body]
fn sample_alphanumeric() -> (code: u8)
    ensures
        alphanumeric(code as char),
{
    rand::Rng::sample(&mut rand::thread_rng(), rand::distributions::Alphanumeric)
}

/// A password of 30 letters and digits drawn at random.
pub fn random_password() -> (r: String)
    ensures
        r@.len() == PASSWORD_LENGTH,
        forall|i: int| 0 <= i < r@.len() ==> alphanumeric(#[trigger] r@[i]),
{
    let mut codes: Vec<u8> = Vec::new();
    while codes.len() < PASSWORD_LENGTH
        invariant
            codes@.len() <= PASSWORD_LENGTH,
            forall|i: int| 0 <= i < codes@.len() ==> alphanumeric(#[trigger] codes@[i] as char),
        decreases PASSWORD_LENGTH - codes@.len(),
    {
        let code = sample_alphanumeric();
        codes.push(code);
    }
    let ghost chars = Seq::new(codes@.len(), |i: int| codes@[i] as char);
    proof {
        is_ascii_chars_encode_utf8(chars);
        assert(encode_utf8(chars) =~= codes@);
        encode_utf8_valid_utf8(chars);
        encode_utf8_decode_utf8(chars);
    }
    string_from_utf8(codes).unwrap()
}

/// A peer's certificate as the TLS library hands it over. Nothing is known
/// of what it holds.
#[verifier::external_type_specification]
#[verifier::external_body]
pub struct ExCertificate(native_tls::Certificate);

/// A certificate as OpenSSL has parsed it. Nothing is known of what it holds.
#[verifier::external_type_specification]
#[verifier::external_body]
pub struct ExX509(openssl::x509::X509);

/// One entry of a name in a certificate. Nothing is known of what it holds.
#[verifier::external_type_specification]
#[verifier::external_body]
pub struct ExX509NameEntryRef(openssl::x509::X509NameEntryRef);

/// `native_tls::Certificate::to_der`: the DER encoding of the certificate,
/// unless the TLS library fails to produce it.
#[verifier::external_body]
fn certificate_der(cert: &native_tls::Certificate) -> (der: Option<Vec<u8>>) {
    cert.to_der().ok()
}

/// `openssl::x509::X509::from_der`: the certificate that the bytes encode,
/// unless OpenSSL rejects them.
#[verifier::external_body]
fn x509_from_der(der: &Vec<u8>) -> (x509: Option<openssl::x509::X509>) {
    openssl::x509::X509::from_der(der).ok()
}

/// The first entry of the subject name of a certificate, as
/// `X509Ref::subject_name` and `X509NameRef::entries` give it; none if the
/// name has no entries. The openssl crate takes it that a certificate which
/// OpenSSL has parsed has a subject, and panics if OpenSSL hands it none.
#[verifier::external_body]
fn first_subject_entry(x509: &openssl::x509::X509) -> (entry: Option<
    &openssl::x509::X509NameEntryRef,
>) {
    x509.subject_name().entries().next()
}

/// The value of an entry of a name as text: `X509NameEntryRef::data`
/// converted by `Asn1StringRef::as_utf8`, unless OpenSSL cannot convert it.
/// The text ends where the value has its first NUL byte, if it has one.
#[verifier::external_body]
#[allow(deprecated)]
fn entry_text(entry: &openssl::x509::X509NameEntryRef) -> (text: Option<String>) {
    match entry.data().as_utf8() {
        Ok(text) => Some(text.to_string()),
        Err(_) => None,
    }
}

/// What the TLS libraries made of a peer's certificate on the way to its name.
#[derive(Debug, Clone, PartialEq, Eq)]
pub enum Reading {
    /// The bytes handed to OpenSSL are no certificate.
    Rejected,
    /// The subject of the certificate has no entry.
    Nameless,
    /// The subject has a first entry; its text, where OpenSSL could convert it.
    Entry(Option<String>),
}

/// [`Reading`] as a mathematical value.
pub enum ReadingView {
    Rejected,
    Nameless,
    Entry(Option<Seq<char>>),
}

impl View for Reading {
    type V = ReadingView;

    open spec fn view(&self) -> ReadingView {
        match self {
            Reading::Rejected => ReadingView::Rejected,
            Reading::Nameless => ReadingView::Nameless,
            Reading::Entry(Some(text)) => ReadingView::Entry(Some(text@)),
            Reading::Entry(None) => ReadingView::Entry(None),
        }
    }
}

impl ReadingView {
    /// The common name that the reading gives: the text of the first entry
    /// of the subject, and none where the bytes were no certificate, the
    /// subject had no entry, or the entry was no text.
    pub open spec fn common_name(self) -> Option<Seq<char>> {
        match self {
            ReadingView::Entry(Some(text)) => Some(text),
            _ => None,
        }
    }
}

/// The bytes in which a certificate is looked for: its encoding, and no
/// bytes at all where the TLS library could not encode it.
pub fn encoding_or_empty(der: Option<Vec<u8>>) -> (bytes: Vec<u8>)
    ensures
        bytes@ == (match der {
            Some(der) => der@,
            None => Seq::empty(),
        }),
{
    match der {
        Some(der) => der,
        None => Vec::new(),
    }
}

/// The common name that a reading gives.
pub fn common_name(reading: Reading) -> (r: Option<String>)
    ensures
        match r {
            Some(name) => reading@.common_name() == Some(name@),
            None => reading@.common_name() is None,
        },
{
    match reading {
        Reading::Entry(Some(text)) => Some(text),
        _ => None,
    }
}

/// The common name that a peer's certificate states: the text of the first
/// entry of its subject name, as native-tls and OpenSSL read it. They decide
/// what the reading is; without a certificate they are not asked.
pub fn get_cn(cert: Option<native_tls::Certificate>) -> (r: Option<String>)
    ensures
        cert is None ==> r is None,
{
    match cert {
        None => None,
        Some(cert) => {
            let der = encoding_or_empty(certificate_der(&cert));
            let reading = match x509_from_der(&der) {
                None => Reading::Rejected,
                Some(x509) => match first_subject_entry(&x509) {
                    None => Reading::Nameless,
                    Some(entry) => Reading::Entry(entry_text(entry)),
                },
            };
            common_name(reading)
        },
    }
}

} // verus!
