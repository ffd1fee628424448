//! Signing of requests with version 4 of AWS's signature.
use hmac::Mac;
use sha2::Digest;
use vstd::prelude::*;
use vstd::string::*;
use vstd::utf8::*;

use crate::error::{bad_setting, setting_error, ErrorView, SdkError};
use crate::text::{
    chars_of, concat2, concat4, concat5, joined, opt_text, pair_views, push_pair, text_of, trim,
    trimmed,
};

verus! {

/// The keys of an account.
#[derive(Clone, Debug)]
pub struct AwsCredentials {
    pub access_key: String,
    pub secret_key: String,
    pub session_token: Option<String>,
}

/// The parts of a URL.
#[derive(Clone, Debug)]
pub struct UrlParts {
    /// The URL in its normal form.
    pub url: String,
    pub host: Option<String>,
    pub path: String,
    pub query: Option<String>,
}

/// What `UrlParts` stands for.
pub struct UrlView {
    pub url: Seq<char>,
    pub host: Option<Seq<char>>,
    pub path: Seq<char>,
    pub query: Option<Seq<char>>,
}

impl View for UrlParts {
    type V = UrlView;

    open spec fn view(&self) -> UrlView {
        UrlView {
            url: self.url@,
            host: opt_text(self.host),
            path: self.path@,
            query: opt_text(self.query),
        }
    }
}

/// What `reqwest::Url::parse` gives for a text: the parts, or the error's text.
pub uninterp spec fn url_parsed(url: Seq<char>) -> Result<UrlView, Seq<char>>;

/// `reqwest::Url::parse` with the accessors of the URL's parts: they depend on the
/// text alone.
#[verifier::external_body]
fn parse_url(url: &str) -> (r: Result<UrlParts, String>)
    ensures
        match r {
            Ok(parts) => url_parsed(url@) == Ok::<UrlView, Seq<char>>(parts@),
            Err(message) => url_parsed(url@) == Err::<UrlView, Seq<char>>(message@),
        },
{
    match reqwest::Url::parse(url) {
        Ok(parsed) => Ok(
            UrlParts {
                url: parsed.to_string(),
                host: parsed.host_str().map(str::to_string),
                path: parsed.path().to_string(),
                query: parsed.query().map(str::to_string),
            },
        ),
        Err(e) => Err(e.to_string()),
    }
}

/// What `sha2::Sha256::digest` gives for bytes.
pub uninterp spec fn sha256(bytes: Seq<u8>) -> Seq<u8>;

/// `sha2::Sha256::digest`: the 32 bytes of the digest, which depend on the bytes alone.
#[verifier::external_body]
fn sha256_of(bytes: &[u8]) -> (r: Vec<u8>)
    ensures
        r@ == sha256(bytes@),
        r@.len() == 32,
{
    sha2::Sha256::digest(bytes).to_vec()
}

/// What `hmac::Hmac` with SHA-256 gives for a key and bytes.
pub uninterp spec fn hmac_sha256_bytes(key: Seq<u8>, data: Seq<u8>) -> Seq<u8>;

/// `hmac::Hmac::<Sha256>`, made from the key, fed the bytes and finalized: the 32
/// bytes of the code, which depend on the key and the bytes alone. A key may have
/// any length.
#[verifier::external_body]
fn hmac_of(key: &[u8], data: &[u8]) -> (r: Vec<u8>)
    ensures
        r@ == hmac_sha256_bytes(key@, data@),
        r@.len() == 32,
{
    let mut mac = hmac::Hmac::<sha2::Sha256>::new_from_slice(key).expect("a key of any length");
    mac.update(data);
    mac.finalize().into_bytes().to_vec()
}

/// The digit for a number below sixteen.
pub open spec fn hex_digit(n: u8) -> char {
    if n < 10 {
        ('0' as u8 + n) as char
    } else {
        ('a' as u8 + (n - 10)) as char
    }
}

/// Two lower-case hexadecimal digits for each byte.
pub open spec fn hex_text(bytes: Seq<u8>) -> Seq<char> {
    Seq::new(
        2 * bytes.len(),
        |i: int| hex_digit(if i % 2 == 0 { bytes[i / 2] / 16 } else { bytes[i / 2] % 16 }),
    )
}

/// `hex::encode`: two lower-case hexadecimal digits for each byte.
#[verifier::external_body]
fn hex_of(bytes: &[u8]) -> (r: String)
    ensures
        r@ == hex_text(bytes@),
{
    hex::encode(bytes)
}

/// The keyed hash of a text.
pub open spec fn keyed(key: Seq<u8>, data: Seq<char>) -> Seq<u8> {
    hmac_sha256_bytes(key, encode_utf8(data))
}

/// The keyed hash of a text.
pub fn hmac_sha256(key: &[u8], data: &str) -> (r: Vec<u8>)
    ensures
        r@ == keyed(key@, data@),
{
    hmac_of(key, data.as_bytes())
}

/// The key for one day, one region and one service.
pub open spec fn signing_key(
    secret: Seq<char>,
    date: Seq<char>,
    region: Seq<char>,
    service: Seq<char>,
) -> Seq<u8> {
    keyed(
        keyed(keyed(keyed(encode_utf8("AWS4"@ + secret), date), region), service),
        "aws4_request"@,
    )
}

/// The key for one day, one region and one service.
pub fn derive_signing_key(secret_key: &str, date: &str, region: &str, service: &str) -> (r: Vec<u8>)
    ensures
        r@ == signing_key(secret_key@, date@, region@, service@),
{
    let k_secret = concat2("AWS4", secret_key);
    let k_date = hmac_sha256(k_secret.as_str().as_bytes(), date);
    let k_region = hmac_sha256(k_date.as_slice(), region);
    let k_service = hmac_sha256(k_region.as_slice(), service);
    hmac_sha256(k_service.as_slice(), "aws4_request")
}

/// The digest of bytes in hexadecimal digits.
pub open spec fn digest_text(bytes: Seq<u8>) -> Seq<char> {
    hex_text(sha256(bytes))
}

/// The form of the reply that is asked for.
pub open spec fn accepted_form(streaming: bool) -> Seq<char> {
    if streaming {
        "application/vnd.amazon.eventstream"@
    } else {
        "application/json"@
    }
}

/// One header if there is a value for it, nothing otherwise.
pub open spec fn header_if(name: Seq<char>, value: Option<Seq<char>>) -> Seq<
    (Seq<char>, Seq<char>),
> {
    match value {
        Some(v) => seq![(name, v)],
        None => Seq::empty(),
    }
}

/// The headers that are signed, in the order of their names.
pub open spec fn signed_header_list(
    host: Seq<char>,
    payload_hash: Seq<char>,
    timestamp: Seq<char>,
    token: Option<Seq<char>>,
    streaming: bool,
) -> Seq<(Seq<char>, Seq<char>)> {
    seq![
        ("accept"@, accepted_form(streaming)),
        ("content-type"@, "application/json"@),
        ("host"@, host),
        ("x-amz-content-sha256"@, payload_hash),
        ("x-amz-date"@, timestamp),
    ] + header_if("x-amz-security-token"@, token) + header_if(
        "x-amzn-bedrock-accept"@,
        if streaming {
            Some("application/json"@)
        } else {
            None
        },
    )
}

/// One line for each header: its name, a colon, its value without surrounding space.
pub open spec fn header_lines(headers: Seq<(Seq<char>, Seq<char>)>) -> Seq<char>
    decreases headers.len(),
{
    if headers.len() == 0 {
        Seq::empty()
    } else {
        header_lines(headers.drop_last()) + (headers.last().0 + ":"@ + trimmed(headers.last().1)
            + "\n"@)
    }
}

/// The names of headers.
pub open spec fn names_of(headers: Seq<(Seq<char>, Seq<char>)>) -> Seq<Seq<char>> {
    Seq::new(headers.len(), |i: int| headers[i].0)
}

/// The names of headers, with semicolons between them.
pub open spec fn signed_names(headers: Seq<(Seq<char>, Seq<char>)>) -> Seq<char> {
    joined(names_of(headers), ";"@)
}

/// The request in the form that is hashed.
pub open spec fn canonical_request(
    path: Seq<char>,
    query: Seq<char>,
    headers: Seq<(Seq<char>, Seq<char>)>,
    payload_hash: Seq<char>,
) -> Seq<char> {
    "POST\n"@ + path + "\n"@ + query + "\n"@ + header_lines(headers) + "\n"@ + signed_names(headers)
        + "\n"@ + payload_hash
}

/// What a key is good for.
pub open spec fn credential_scope(date: Seq<char>, region: Seq<char>) -> Seq<char> {
    date + "/"@ + region + "/"@ + "bedrock/aws4_request"@
}

/// The text that is signed.
pub open spec fn string_to_sign(
    timestamp: Seq<char>,
    scope: Seq<char>,
    request: Seq<char>,
) -> Seq<char> {
    "AWS4-HMAC-SHA256\n"@ + timestamp + "\n"@ + scope + "\n"@ + digest_text(encode_utf8(request))
}

/// The value of the header that carries the signature.
pub open spec fn authorization(
    credentials: AwsCredentials,
    url: UrlView,
    host: Seq<char>,
    region: Seq<char>,
    body: Seq<u8>,
    streaming: bool,
    timestamp: Seq<char>,
) -> Seq<char> {
    let payload_hash = digest_text(body);
    let date = timestamp.subrange(0, 8);
    let headers = signed_header_list(
        host,
        payload_hash,
        timestamp,
        opt_text(credentials.session_token),
        streaming,
    );
    let query = match url.query {
        Some(q) => q,
        None => Seq::empty(),
    };
    let scope = credential_scope(date, region);
    let request = canonical_request(url.path, query, headers, payload_hash);
    let signature = hex_text(
        keyed(
            signing_key(credentials.secret_key@, date, region, "bedrock"@),
            string_to_sign(timestamp, scope, request),
        ),
    );
    "AWS4-HMAC-SHA256 Credential="@ + credentials.access_key@ + "/"@ + scope + (
    ", SignedHeaders="@ + signed_names(headers) + ", Signature="@ + signature)
}

/// The headers that are sent.
pub open spec fn sent_headers(
    credentials: AwsCredentials,
    url: UrlView,
    host: Seq<char>,
    region: Seq<char>,
    body: Seq<u8>,
    streaming: bool,
    timestamp: Seq<char>,
) -> Seq<(Seq<char>, Seq<char>)> {
    seq![
        ("Accept"@, accepted_form(streaming)),
        ("Content-Type"@, "application/json"@),
        ("Host"@, host),
        ("x-amz-date"@, timestamp),
        ("x-amz-content-sha256"@, digest_text(body)),
        (
            "Authorization"@,
            authorization(credentials, url, host, region, body, streaming, timestamp),
        ),
    ] + header_if(
        "x-amzn-bedrock-accept"@,
        if streaming {
            Some("application/json"@)
        } else {
            None
        },
    ) + header_if("x-amz-security-token"@, opt_text(credentials.session_token))
}

/// The lines of the headers and their names (see `header_lines`, `signed_names`).
fn summarize_headers(headers: &Vec<(String, String)>) -> (r: (String, String))
    ensures
        r.0@ == header_lines(pair_views(headers@)),
        r.1@ == signed_names(pair_views(headers@)),
{
    let mut lines = String::new();
    let mut names = String::new();
    let ghost all = pair_views(headers@);
    let mut i: usize = 0;
    assert(all.subrange(0, 0) =~= Seq::empty());
    assert(names_of(all).subrange(0, 0) =~= Seq::empty());
    while i < headers.len()
        invariant
            i <= headers@.len(),
            all == pair_views(headers@),
            lines@ == header_lines(all.subrange(0, i as int)),
            names@ == joined(names_of(all).subrange(0, i as int), ";"@),
        decreases headers@.len() - i,
    {
        let value = trim(headers[i].1.as_str());
        let line = concat4(headers[i].0.as_str(), ":", value.as_str(), "\n");
        lines.append(line.as_str());
        if i > 0 {
            names.append(";");
        }
        names.append(headers[i].0.as_str());
        proof {
            let part = all.subrange(0, i + 1);
            assert(part.drop_last() =~= all.subrange(0, i as int));
            assert(part.last() == all[i as int]);
            let some = names_of(all).subrange(0, i + 1);
            assert(some.drop_last() =~= names_of(all).subrange(0, i as int));
            assert(some.last() == headers@[i as int].0@);
            if i == 0 {
                assert(Seq::<char>::empty() + headers@[0].0@ =~= headers@[0].0@);
            }
        }
        i = i + 1;
    }
    assert(all.subrange(0, all.len() as int) =~= all);
    assert(names_of(all).subrange(0, all.len() as int) =~= names_of(all));
    (lines, names)
}

/// A request ready to be sent.
#[derive(Clone, Debug)]
pub struct SignedRequest {
    pub url: String,
    pub headers: Vec<(String, String)>,
}

/// Whether a text begins with the eight characters of a date.
pub open spec fn dated(timestamp: Seq<char>) -> bool {
    timestamp.len() >= 8 && forall|i: int| 0 <= i < 8 ==> (#[trigger] timestamp[i] as u32) < 128
}

/// Whether `r` is the request to `url`, signed at the moment `timestamp`, or the
/// reason why there is none.
pub open spec fn signed_as(
    credentials: AwsCredentials,
    url: Seq<char>,
    region: Seq<char>,
    body: Seq<u8>,
    streaming: bool,
    timestamp: Seq<char>,
    r: Result<SignedRequest, SdkError>,
) -> bool {
    match (url_parsed(url), r) {
        (Err(message), Err(e)) => e@ == ErrorView::Other("invalid Bedrock URL: "@ + message),
        (Ok(parts), Err(e)) => parts.host is None && e@ == bad_setting(
            "Bedrock URL missing host"@,
            "url"@,
        ),
        (Ok(parts), Ok(signed)) => {
            &&& parts.host is Some
            &&& signed.url@ == parts.url
            &&& pair_views(signed.headers@) == sent_headers(
                credentials,
                parts,
                parts.host->0,
                region,
                body,
                streaming,
                timestamp,
            )
        },
        (Err(_), Ok(_)) => false,
    }
}

/// `chrono::Utc::now` in the form `%Y%m%dT%H%M%SZ`: a year of at least four digits
/// and twelve more characters, all of them ASCII.
#[verifier::external_body]
fn utc_timestamp() -> (r: String)
    ensures
        r@.len() >= 16,
        is_ascii_chars(r@),
{
    chrono::Utc::now().format("%Y%m%dT%H%M%SZ").to_string()
}

/// Signs the request to `url` at this moment.
pub fn sign_request_now(
    credentials: &AwsCredentials,
    url: &str,
    region: &str,
    body: &[u8],
    streaming: bool,
) -> (r: Result<SignedRequest, SdkError>)
    ensures
        exists|timestamp: Seq<char>|
            #![trigger dated(timestamp)]
            dated(timestamp) && signed_as(
                *credentials,
                url@,
                region@,
                body@,
                streaming,
                timestamp,
                r,
            ),
{
    let timestamp = utc_timestamp();
    let r = sign_request(credentials, url, region, body, streaming, timestamp.as_str());
    assert(dated(timestamp@));
    r
}

/// Signs the request to `url` at the moment `timestamp` (year, month, day, `T`,
/// hour, minute, second, `Z`).
pub fn sign_request(
    credentials: &AwsCredentials,
    url: &str,
    region: &str,
    body: &[u8],
    streaming: bool,
    timestamp: &str,
) -> (r: Result<SignedRequest, SdkError>)
    requires
        dated(timestamp@),
    ensures
        signed_as(*credentials, url@, region@, body@, streaming, timestamp@, r),
{
    let parts = match parse_url(url) {
        Ok(parts) => parts,
        Err(message) => {
            return Err(SdkError::Other(concat2("invalid Bedrock URL: ", message.as_str())));
        },
    };
    let host = match &parts.host {
        Some(host) => host.clone(),
        None => {
            return Err(setting_error("Bedrock URL missing host".to_owned(), "url"));
        },
    };
    let stamp = chars_of(timestamp);
    let date_stamp = text_of(&stamp, 0, 8);
    let payload_hash = hex_of(sha256_of(body).as_slice());
    let accept = if streaming {
        "application/vnd.amazon.eventstream"
    } else {
        "application/json"
    };

    let mut headers: Vec<(String, String)> = Vec::new();
    push_pair(&mut headers, "accept", accept);
    push_pair(&mut headers, "content-type", "application/json");
    push_pair(&mut headers, "host", host.as_str());
    push_pair(&mut headers, "x-amz-content-sha256", payload_hash.as_str());
    push_pair(&mut headers, "x-amz-date", timestamp);
    if let Some(token) = &credentials.session_token {
        push_pair(&mut headers, "x-amz-security-token", token.as_str());
    }
    if streaming {
        push_pair(&mut headers, "x-amzn-bedrock-accept", "application/json");
    }
    proof {
        let list = signed_header_list(
            host@,
            payload_hash@,
            timestamp@,
            opt_text(credentials.session_token),
            streaming,
        );
        assert(pair_views(headers@) =~= list);
    }
    let (canonical_headers, signed_headers) = summarize_headers(&headers);

    let query = match &parts.query {
        Some(query) => query.clone(),
        None => String::new(),
    };
    let mut request = concat5("POST\n", parts.path.as_str(), "\n", query.as_str(), "\n");
    request.append(canonical_headers.as_str());
    request.append("\n");
    request.append(signed_headers.as_str());
    request.append("\n");
    request.append(payload_hash.as_str());
    let request_hash = hex_of(sha256_of(request.as_str().as_bytes()).as_slice());

    let scope = concat5(date_stamp.as_str(), "/", region, "/", "bedrock/aws4_request");
    let mut to_sign = concat5("AWS4-HMAC-SHA256\n", timestamp, "\n", scope.as_str(), "\n");
    to_sign.append(request_hash.as_str());
    let key = derive_signing_key(
        credentials.secret_key.as_str(),
        date_stamp.as_str(),
        region,
        "bedrock",
    );
    let signature = hex_of(hmac_sha256(key.as_slice(), to_sign.as_str()).as_slice());

    let mut value = concat4(
        "AWS4-HMAC-SHA256 Credential=",
        credentials.access_key.as_str(),
        "/",
        scope.as_str(),
    );
    let tail = concat4(
        ", SignedHeaders=",
        signed_headers.as_str(),
        ", Signature=",
        signature.as_str(),
    );
    value.append(tail.as_str());

    let mut sent: Vec<(String, String)> = Vec::new();
    push_pair(&mut sent, "Accept", accept);
    push_pair(&mut sent, "Content-Type", "application/json");
    push_pair(&mut sent, "Host", host.as_str());
    push_pair(&mut sent, "x-amz-date", timestamp);
    push_pair(&mut sent, "x-amz-content-sha256", payload_hash.as_str());
    push_pair(&mut sent, "Authorization", value.as_str());
    if streaming {
        push_pair(&mut sent, "x-amzn-bedrock-accept", "application/json");
    }
    if let Some(token) = &credentials.session_token {
        push_pair(&mut sent, "x-amz-security-token", token.as_str());
    }
    proof {
        let list = sent_headers(
            *credentials,
            parts@,
            host@,
            region@,
            body@,
            streaming,
            timestamp@,
        );
        assert(pair_views(sent@) =~= list);
    }
    Ok(SignedRequest { url: parts.url, headers: sent })
}

/// Whether one text comes before another in the order of their characters.
pub open spec fn precedes(a: Seq<char>, b: Seq<char>) -> bool
    decreases a.len(),
{
    if b.len() == 0 {
        false
    } else if a.len() == 0 {
        true
    } else if a[0] == b[0] {
        precedes(a.drop_first(), b.drop_first())
    } else {
        a[0] < b[0]
    }
}

proof fn precedes_by(a: Seq<char>, b: Seq<char>, k: int)
    requires
        0 <= k < a.len(),
        k < b.len(),
        forall|i: int| 0 <= i < k ==> a[i] == b[i],
        a[k] < b[k],
    ensures
        precedes(a, b),
    decreases k,
{
    if k > 0 {
        let x = a.drop_first();
        let y = b.drop_first();
        assert forall|i: int| 0 <= i < k - 1 implies x[i] == y[i] by {
            assert(x[i] == a[i + 1]);
            assert(y[i] == b[i + 1]);
        }
        precedes_by(x, y, k - 1);
    }
}

/// The headers that are signed stand in the order of their names, as the signature
/// demands, whichever of them there are.
pub proof fn signed_headers_ascend(
    host: Seq<char>,
    payload_hash: Seq<char>,
    timestamp: Seq<char>,
    token: Option<Seq<char>>,
    streaming: bool,
    i: int,
)
    requires
        0 <= i,
        i + 1 < signed_header_list(host, payload_hash, timestamp, token, streaming).len(),
    ensures
        precedes(
            signed_header_list(host, payload_hash, timestamp, token, streaming)[i].0,
            signed_header_list(host, payload_hash, timestamp, token, streaming)[i + 1].0,
        ),
{
    reveal_strlit("accept");
    reveal_strlit("content-type");
    reveal_strlit("host");
    reveal_strlit("x-amz-content-sha256");
    reveal_strlit("x-amz-date");
    reveal_strlit("x-amz-security-token");
    reveal_strlit("x-amzn-bedrock-accept");
    precedes_by("accept"@, "content-type"@, 0);
    precedes_by("content-type"@, "host"@, 0);
    precedes_by("host"@, "x-amz-content-sha256"@, 0);
    precedes_by("x-amz-content-sha256"@, "x-amz-date"@, 6);
    precedes_by("x-amz-date"@, "x-amz-security-token"@, 6);
    precedes_by("x-amz-date"@, "x-amzn-bedrock-accept"@, 5);
    precedes_by("x-amz-security-token"@, "x-amzn-bedrock-accept"@, 5);
}

/// The lines of headers: for each its name, a colon and its value without surrounding
/// space.
pub open spec fn lines_for(headers: Seq<(Seq<char>, Seq<char>)>) -> Seq<Seq<char>> {
    headers.map_values(|h: (Seq<char>, Seq<char>)| h.0 + ":"@ + trimmed(h.1))
}

proof fn lines_end_with_line_feeds(headers: Seq<(Seq<char>, Seq<char>)>)
    ensures
        headers.len() > 0 ==> header_lines(headers) == joined(lines_for(headers), "\n"@) + "\n"@,
        headers.len() == 0 ==> header_lines(headers).len() == 0,
    decreases headers.len(),
{
    if headers.len() > 0 {
        let rest = headers.drop_last();
        let line = headers.last().0 + ":"@ + trimmed(headers.last().1);
        lines_end_with_line_feeds(rest);
        assert(lines_for(headers).drop_last() =~= lines_for(rest));
        assert(lines_for(headers).last() == line);
        if rest.len() == 0 {
            assert(lines_for(headers)[0] == line);
            assert(header_lines(rest) + (line + "\n"@) =~= line + "\n"@);
        } else {
            assert(joined(lines_for(rest), "\n"@) + "\n"@ + (line + "\n"@) =~= (joined(
                lines_for(rest),
                "\n"@,
            ) + "\n"@ + line) + "\n"@);
        }
    }
}

proof fn joined_in_two_lots(a: Seq<Seq<char>>, b: Seq<Seq<char>>, sep: Seq<char>)
    requires
        a.len() > 0,
        b.len() > 0,
    ensures
        joined(a + b, sep) == joined(a, sep) + sep + joined(b, sep),
    decreases b.len(),
{
    let all = a + b;
    assert(all.drop_last() =~= a + b.drop_last());
    assert(all.last() == b.last());
    if b.len() == 1 {
        assert(a + b.drop_last() =~= a);
        assert(b[0] == b.last());
    } else {
        joined_in_two_lots(a, b.drop_last(), sep);
        assert(joined(a, sep) + sep + joined(b.drop_last(), sep) + sep + b.last() =~= joined(a, sep)
            + sep + (joined(b.drop_last(), sep) + sep + b.last()));
    }
}

/// The request that is hashed has these lines, in this order: the method, the path, the
/// query, one for each header that is signed, an empty one, the names of these headers,
/// the hash of the body.
pub proof fn hashed_request_line_by_line(
    path: Seq<char>,
    query: Seq<char>,
    headers: Seq<(Seq<char>, Seq<char>)>,
    payload_hash: Seq<char>,
)
    requires
        headers.len() > 0,
    ensures
        canonical_request(path, query, headers, payload_hash) == joined(
            seq!["POST"@, path, query] + headers.map_values(
                |h: (Seq<char>, Seq<char>)| h.0 + ":"@ + trimmed(h.1),
            ) + seq![
                Seq::<char>::empty(),
                joined(headers.map_values(|h: (Seq<char>, Seq<char>)| h.0), ";"@),
                payload_hash,
            ],
            "\n"@,
        ),
{
    let nl = "\n"@;
    let first = seq!["POST"@, path, query];
    let last = seq![Seq::<char>::empty(), signed_names(headers), payload_hash];
    let lines = lines_for(headers);
    assert(headers.map_values(|h: (Seq<char>, Seq<char>)| h.0 + ":"@ + trimmed(h.1)) =~= lines);
    assert(headers.map_values(|h: (Seq<char>, Seq<char>)| h.0) =~= names_of(headers));
    lines_end_with_line_feeds(headers);
    joined_in_two_lots(first, lines, nl);
    joined_in_two_lots(first + lines, last, nl);
    reveal_with_fuel(joined, 4);
    assert(first.drop_last() =~= seq!["POST"@, path]);
    assert(seq!["POST"@, path].drop_last() =~= seq!["POST"@]);
    assert(last.drop_last() =~= seq![Seq::<char>::empty(), signed_names(headers)]);
    assert(seq![Seq::<char>::empty(), signed_names(headers)].drop_last() =~= seq![
        Seq::<char>::empty(),
    ]);
    assert(joined(first, nl) == "POST"@ + nl + path + nl + query);
    assert(joined(last, nl) == Seq::<char>::empty() + nl + signed_names(headers) + nl
        + payload_hash);
    reveal_strlit("POST\n");
    reveal_strlit("POST");
    reveal_strlit("\n");
    assert("POST\n"@ =~= "POST"@ + nl);
    let body = joined(lines, nl);
    assert(canonical_request(path, query, headers, payload_hash) =~= joined(first, nl) + nl + body
        + nl + joined(last, nl));
}

/// The path stands between the first line feed and the second, the query between the
/// second and the third, and the hash of the body at the end.
pub proof fn path_comes_before_query(
    path: Seq<char>,
    query: Seq<char>,
    headers: Seq<(Seq<char>, Seq<char>)>,
    payload_hash: Seq<char>,
)
    ensures
        ({
            let request = canonical_request(path, query, headers, payload_hash);
            let p = path.len() as int;
            let q = query.len() as int;
            let n = request.len() as int;
            &&& n >= 7 + p + q + payload_hash.len()
            &&& request.subrange(0, 5) == "POST\n"@
            &&& request.subrange(5, 5 + p) == path
            &&& request[5 + p] == '\n'
            &&& request.subrange(6 + p, 6 + p + q) == query
            &&& request[6 + p + q] == '\n'
            &&& request.subrange(n - payload_hash.len(), n) == payload_hash
            &&& request[n - payload_hash.len() - 1] == '\n'
        }),
{
    reveal_strlit("POST\n");
    reveal_strlit("\n");
    let request = canonical_request(path, query, headers, payload_hash);
    let p = path.len() as int;
    let q = query.len() as int;
    let n = request.len() as int;
    assert("POST\n"@.len() == 5 && "\n"@.len() == 1 && "\n"@[0] == '\n');
    assert(request.subrange(0, 5) =~= "POST\n"@);
    assert(request.subrange(5, 5 + p) =~= path);
    assert(request.subrange(6 + p, 6 + p + q) =~= query);
    assert(request.subrange(n - payload_hash.len(), n) =~= payload_hash);
}

/// The header with the signature names the key, the day, the region and the service, and
/// the headers that are signed. The signature is made, as version 4 demands, with a key
/// that is drawn from the secret by the day, the region, the service and a fixed word, in
/// this order, over the name of the method, the moment, the scope and the hash of the
/// request.
pub proof fn signatures_follow_version_four(
    credentials: AwsCredentials,
    url: UrlView,
    host: Seq<char>,
    region: Seq<char>,
    body: Seq<u8>,
    streaming: bool,
    timestamp: Seq<char>,
)
    ensures
        ({
            let date = timestamp.subrange(0, 8);
            let scope = date + "/"@ + region + "/bedrock/aws4_request"@;
            let day_key = hmac_sha256_bytes(
                encode_utf8("AWS4"@ + credentials.secret_key@),
                encode_utf8(date),
            );
            let region_key = hmac_sha256_bytes(day_key, encode_utf8(region));
            let service_key = hmac_sha256_bytes(region_key, encode_utf8("bedrock"@));
            let key = hmac_sha256_bytes(service_key, encode_utf8("aws4_request"@));
            let headers = signed_header_list(
                host,
                hex_text(sha256(body)),
                timestamp,
                opt_text(credentials.session_token),
                streaming,
            );
            let request = canonical_request(
                url.path,
                if url.query is Some {
                    url.query->0
                } else {
                    Seq::empty()
                },
                headers,
                hex_text(sha256(body)),
            );
            let told = "AWS4-HMAC-SHA256"@ + "\n"@ + timestamp + "\n"@ + scope + "\n"@ + hex_text(
                sha256(encode_utf8(request)),
            );
            authorization(credentials, url, host, region, body, streaming, timestamp)
                == "AWS4-HMAC-SHA256 Credential="@ + credentials.access_key@ + "/"@ + scope
                + ", SignedHeaders="@ + joined(
                headers.map_values(|h: (Seq<char>, Seq<char>)| h.0),
                ";"@,
            ) + ", Signature="@ + hex_text(hmac_sha256_bytes(key, encode_utf8(told)))
        }),
{
    let date = timestamp.subrange(0, 8);
    reveal_strlit("/");
    reveal_strlit("bedrock/aws4_request");
    reveal_strlit("/bedrock/aws4_request");
    reveal_strlit("AWS4-HMAC-SHA256\n");
    reveal_strlit("AWS4-HMAC-SHA256");
    reveal_strlit("\n");
    assert("/"@ + "bedrock/aws4_request"@ =~= "/bedrock/aws4_request"@);
    assert(credential_scope(date, region) =~= date + "/"@ + region + "/bedrock/aws4_request"@);
    assert("AWS4-HMAC-SHA256\n"@ =~= "AWS4-HMAC-SHA256"@ + "\n"@);
    let headers = signed_header_list(
        host,
        digest_text(body),
        timestamp,
        opt_text(credentials.session_token),
        streaming,
    );
    assert(headers.map_values(|h: (Seq<char>, Seq<char>)| h.0) =~= names_of(headers));
    let scope = credential_scope(date, region);
    let start = "AWS4-HMAC-SHA256 Credential="@ + credentials.access_key@ + "/"@ + scope;
    let value = authorization(credentials, url, host, region, body, streaming, timestamp);
    let query = match url.query {
        Some(q) => q,
        None => Seq::empty(),
    };
    let signature = hex_text(
        keyed(
            signing_key(credentials.secret_key@, date, region, "bedrock"@),
            string_to_sign(
                timestamp,
                scope,
                canonical_request(url.path, query, headers, digest_text(body)),
            ),
        ),
    );
    assert(value =~= start + ", SignedHeaders="@ + signed_names(headers) + ", Signature="@
        + signature);
}

/// What is signed is what is sent: each header that is signed goes out, under its name in
/// any case, with the value that was signed, and each header that goes out but the
/// signature itself is signed.
pub proof fn what_is_signed_is_sent(
    credentials: AwsCredentials,
    url: UrlView,
    host: Seq<char>,
    region: Seq<char>,
    body: Seq<u8>,
    streaming: bool,
    timestamp: Seq<char>,
)
    ensures
        ({
            let signed = signed_header_list(
                host,
                hex_text(sha256(body)),
                timestamp,
                opt_text(credentials.session_token),
                streaming,
            );
            let sent = sent_headers(credentials, url, host, region, body, streaming, timestamp);
            &&& sent.len() == signed.len() + 1
            &&& forall|i: int|
                0 <= i < signed.len() ==> sent.contains((#[trigger] signed[i])) || exists|j: int|
                    0 <= j < sent.len() && crate::text::lowered((#[trigger] sent[j]).0)
                        == signed[i].0 && sent[j].1 == signed[i].1
            &&& sent.contains(
                (
                    "Authorization"@,
                    authorization(credentials, url, host, region, body, streaming, timestamp),
                ),
            )
            &&& signed.contains(("host"@, host)) && sent.contains(("Host"@, host))
            &&& signed.contains(("x-amz-date"@, timestamp)) && sent.contains(
                ("x-amz-date"@, timestamp),
            )
            &&& signed.contains(("x-amz-content-sha256"@, hex_text(sha256(body)))) && sent.contains(
                ("x-amz-content-sha256"@, hex_text(sha256(body))),
            )
            &&& signed.contains(("content-type"@, "application/json"@)) && sent.contains(
                ("Content-Type"@, "application/json"@),
            )
            &&& streaming ==> sent.contains(("Accept"@, "application/vnd.amazon.eventstream"@))
                && signed.contains(("accept"@, "application/vnd.amazon.eventstream"@))
                && signed.contains(("x-amzn-bedrock-accept"@, "application/json"@))
            &&& !streaming ==> sent.contains(("Accept"@, "application/json"@)) && signed.contains(
                ("accept"@, "application/json"@),
            )
            &&& credentials.session_token matches Some(token) ==> signed.contains(
                ("x-amz-security-token"@, token@),
            ) && sent.contains(("x-amz-security-token"@, token@))
            &&& credentials.session_token is None && !streaming ==> signed.len() == 5
        }),
{
    let token = opt_text(credentials.session_token);
    let hash = hex_text(sha256(body));
    let signed = signed_header_list(host, hash, timestamp, token, streaming);
    let sent = sent_headers(credentials, url, host, region, body, streaming, timestamp);
    assert(signed[0] == ("accept"@, accepted_form(streaming)));
    assert(signed[1] == ("content-type"@, "application/json"@));
    assert(signed[2] == ("host"@, host));
    assert(signed[3] == ("x-amz-content-sha256"@, hash));
    assert(signed[4] == ("x-amz-date"@, timestamp));
    assert(sent[0] == ("Accept"@, accepted_form(streaming)));
    assert(sent[1] == ("Content-Type"@, "application/json"@));
    assert(sent[2] == ("Host"@, host));
    assert(sent[3] == ("x-amz-date"@, timestamp));
    assert(sent[4] == ("x-amz-content-sha256"@, hash));
    assert(sent[5] == (
        "Authorization"@,
        authorization(credentials, url, host, region, body, streaming, timestamp),
    ));
    reveal_strlit("accept");
    reveal_strlit("Accept");
    reveal_strlit("content-type");
    reveal_strlit("Content-Type");
    reveal_strlit("host");
    reveal_strlit("Host");
    assert(crate::text::lowered("Accept"@) =~= "accept"@);
    assert(crate::text::lowered("Content-Type"@) =~= "content-type"@);
    assert(crate::text::lowered("Host"@) =~= "host"@);
    if streaming {
        assert(sent[6] == ("x-amzn-bedrock-accept"@, "application/json"@));
        assert(signed.last() == ("x-amzn-bedrock-accept"@, "application/json"@));
    }
    if token is Some {
        assert(sent.last() == ("x-amz-security-token"@, token->0));
        assert(signed[5] == ("x-amz-security-token"@, token->0));
    }
    assert forall|i: int| 0 <= i < signed.len() implies sent.contains((#[trigger] signed[i]))
        || exists|j: int|
        0 <= j < sent.len() && crate::text::lowered((#[trigger] sent[j]).0) == signed[i].0
            && sent[j].1 == signed[i].1 by {
        if i == 3 {
            assert(sent[4] == signed[3]);
        } else if i == 4 {
            assert(sent[3] == signed[4]);
        } else if i >= 5 {
            if signed[i].0 == "x-amz-security-token"@ && token is Some && i == 5 {
                assert(sent[sent.len() - 1] == signed[i]);
            } else {
                assert(sent[6] == signed[i]);
            }
        }
    }
}

/// A byte is written in two hexadecimal digits, the letters in lower case and the higher
/// half first.
pub proof fn bytes_are_written_in_hexadecimal(bytes: Seq<u8>, i: int)
    requires
        0 <= i < bytes.len(),
    ensures
        hex_text(bytes).len() == 2 * bytes.len(),
        hex_text(bytes)[2 * i] == hex_digit(bytes[i] / 16),
        hex_text(bytes)[2 * i + 1] == hex_digit(bytes[i] % 16),
        hex_digit(0) == '0',
        hex_digit(9) == '9',
        hex_digit(10) == 'a',
        hex_digit(15) == 'f',
        forall|n: u8| n < 16 ==> ('0' <= #[trigger] hex_digit(n) <= '9' || 'a' <= hex_digit(n) <= 'f'),
{
}

} // verus!
