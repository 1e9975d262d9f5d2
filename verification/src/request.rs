//! Planning a put request: the endpoint URL with its expiration query
//! parameters, and the body encoding (raw bytes, or a two-part multipart
//! form when metadata travels along).

use vstd::prelude::*;
use crate::errors::{dir_message, symlink_message, PutError};
use crate::outside::{json_value_to_string, url_canon, url_normalize};

verus! {

/// Everything a single put needs: where to write, what to write, and how
/// to interpret `value`.
pub struct KVMetaData {
    /// Identifies the namespace the key lives in; opaque to this library.
    pub namespace_id: String,
    /// The key name, already transport-safe: encoding it is its caller's
    /// responsibility.
    pub key: String,
    /// The literal content, or a filesystem path when `is_file` is set.
    pub value: String,
    /// When set, `value` names a file whose contents are the payload.
    pub is_file: bool,
    /// Optional absolute expiration time, opaque here: percent-encoded
    /// into the query so it travels verbatim.
    pub expiration: Option<String>,
    /// Optional relative time-to-live, opaque here: percent-encoded
    /// into the query so it travels verbatim.
    pub expiration_ttl: Option<String>,
    /// Optional metadata to attach beside the value.
    pub metadata: Option<serde_json::Value>,
}

/// The text of an optional argument.
pub open spec fn opt_view(o: Option<String>) -> Option<Seq<char>> {
    match o {
        None => None,
        Some(s) => Some(s@),
    }
}

/// A character that may stand in a URL component as it is: the
/// unreserved set. Everything else is percent-escaped, so that a value
/// spliced into the URL travels verbatim instead of changing its
/// structure.
pub open spec fn unreserved(c: char) -> bool {
    ||| 97 <= (c as u32) <= 122  // 'a'..'z'
    ||| 65 <= (c as u32) <= 90  // 'A'..'Z'
    ||| 48 <= (c as u32) <= 57  // '0'..'9'
    ||| c == '-'
    ||| c == '_'
    ||| c == '.'
    ||| c == '~'
}

/// The character of one hexadecimal digit, upper case.
pub open spec fn hex_digit(n: nat) -> char {
    if n == 0 {
        '0'
    } else if n == 1 {
        '1'
    } else if n == 2 {
        '2'
    } else if n == 3 {
        '3'
    } else if n == 4 {
        '4'
    } else if n == 5 {
        '5'
    } else if n == 6 {
        '6'
    } else if n == 7 {
        '7'
    } else if n == 8 {
        '8'
    } else if n == 9 {
        '9'
    } else if n == 10 {
        'A'
    } else if n == 11 {
        'B'
    } else if n == 12 {
        'C'
    } else if n == 13 {
        'D'
    } else if n == 14 {
        'E'
    } else {
        'F'
    }
}

/// How one character goes into a URL component: unreserved characters
/// stand as they are; any other ASCII character becomes its
/// percent-escape; characters beyond ASCII pass through, for the URL
/// parser's own (structure-preserving) encoding.
pub open spec fn encoded_char(c: char) -> Seq<char> {
    if unreserved(c) || (c as u32) >= 128 {
        seq![c]
    } else {
        seq!['%', hex_digit(((c as u32) / 16) as nat), hex_digit(((c as u32) % 16) as nat)]
    }
}

/// The percent-encoding of a whole component value.
pub open spec fn component_encoded(s: Seq<char>) -> Seq<char>
    decreases s.len(),
{
    if s.len() == 0 {
        Seq::<char>::empty()
    } else {
        component_encoded(s.drop_last()) + encoded_char(s.last())
    }
}

/// A value made only of unreserved characters is its own encoding: the
/// common case (digit-only expiration times, plain keys) stays verbatim
/// on the wire.
pub proof fn lemma_component_encoded_all_unreserved(s: Seq<char>)
    requires
        forall|i: int| 0 <= i < s.len() ==> unreserved(s[i]),
    ensures
        component_encoded(s) == s,
    decreases s.len(),
{
    if s.len() == 0 {
        assert(component_encoded(s) =~= s);
    } else {
        lemma_component_encoded_all_unreserved(s.drop_last());
        assert(component_encoded(s) =~= s);
    }
}

fn hex_digit_str(n: u32) -> (r: &'static str)
    requires
        n < 16,
    ensures
        r@ == seq![hex_digit(n as nat)],
{
    proof {
        reveal_strlit("0");
        reveal_strlit("1");
        reveal_strlit("2");
        reveal_strlit("3");
        reveal_strlit("4");
        reveal_strlit("5");
        reveal_strlit("6");
        reveal_strlit("7");
        reveal_strlit("8");
        reveal_strlit("9");
        reveal_strlit("A");
        reveal_strlit("B");
        reveal_strlit("C");
        reveal_strlit("D");
        reveal_strlit("E");
        reveal_strlit("F");
    }
    if n == 0 {
        "0"
    } else if n == 1 {
        "1"
    } else if n == 2 {
        "2"
    } else if n == 3 {
        "3"
    } else if n == 4 {
        "4"
    } else if n == 5 {
        "5"
    } else if n == 6 {
        "6"
    } else if n == 7 {
        "7"
    } else if n == 8 {
        "8"
    } else if n == 9 {
        "9"
    } else if n == 10 {
        "A"
    } else if n == 11 {
        "B"
    } else if n == 12 {
        "C"
    } else if n == 13 {
        "D"
    } else if n == 14 {
        "E"
    } else {
        "F"
    }
}

fn is_unreserved(c: char) -> (r: bool)
    ensures
        r == unreserved(c),
{
    let code = c as u32;
    (97 <= code && code <= 122) || (65 <= code && code <= 90) || (48 <= code && code <= 57)
        || c == '-' || c == '_' || c == '.' || c == '~'
}

/// Percent-encodes a value for splicing into one component of a URL.
pub fn encode_component(s: &str) -> (r: String)
    ensures
        r@ == component_encoded(s@),
{
    let len = s.unicode_len();
    let mut r = String::new();
    let mut i: usize = 0;
    proof {
        assert(component_encoded(s@.take(0)) =~= Seq::<char>::empty());
    }
    while i < len
        invariant
            i <= len,
            len == s@.len(),
            r@ == component_encoded(s@.take(i as int)),
        decreases len - i,
    {
        let ghost prev = s@.take(i as int);
        let c = s.get_char(i);
        if is_unreserved(c) || (c as u32) >= 128 {
            let piece = s.substring_char(i, i + 1);
            r.append(piece);
        } else {
            proof {
                reveal_strlit("%");
            }
            r.append("%");
            let code = c as u32;
            r.append(hex_digit_str(code / 16));
            r.append(hex_digit_str(code % 16));
        }
        i += 1;
        proof {
            let cur = s@.take(i as int);
            assert(cur.drop_last() =~= prev);
            assert(cur.last() == s@[i - 1]);
            assert(r@ =~= component_encoded(cur));
        }
    }
    proof {
        assert(s@.take(len as int) =~= s@);
    }
    r
}

/// The endpoint path for a key in a namespace of an account.
pub open spec fn base_url(account: Seq<char>, ns: Seq<char>, key: Seq<char>) -> Seq<char> {
    "https://api.cloudflare.com/client/v4/accounts/"@ + account + "/storage/kv/namespaces/"@
        + ns + "/values/"@ + key
}

/// The query string for the expiration parameters: each appears exactly
/// when set, `expiration` before `expiration_ttl` when both are, each
/// value percent-encoded so it travels verbatim.
pub open spec fn query_suffix(exp: Option<Seq<char>>, ttl: Option<Seq<char>>) -> Seq<char> {
    match (exp, ttl) {
        (None, None) => Seq::<char>::empty(),
        (Some(e), None) => "?expiration="@ + component_encoded(e),
        (None, Some(t)) => "?expiration_ttl="@ + component_encoded(t),
        (Some(e), Some(t)) => "?expiration="@ + component_encoded(e) + "&expiration_ttl="@
            + component_encoded(t),
    }
}

/// The complete URL text of a put, before validation.
pub open spec fn put_url_text(
    account: Seq<char>,
    ns: Seq<char>,
    key: Seq<char>,
    exp: Option<Seq<char>>,
    ttl: Option<Seq<char>>,
) -> Seq<char> {
    base_url(account, ns, key) + query_suffix(exp, ttl)
}

/// The query parameters append to the base URL: with only `expiration`
/// set the query is exactly `?expiration=<value>`; a value of unreserved
/// characters (a plain number, say) appears verbatim.
pub proof fn lemma_url_query_expiration_only(
    account: Seq<char>,
    ns: Seq<char>,
    key: Seq<char>,
    exp: Seq<char>,
)
    requires
        forall|i: int| 0 <= i < exp.len() ==> unreserved(exp[i]),
    ensures
        put_url_text(account, ns, key, Some(exp), None)
            == base_url(account, ns, key) + "?expiration="@ + exp,
{
    lemma_component_encoded_all_unreserved(exp);
}

/// With both expiration parameters set, both appear, `expiration` first.
pub proof fn lemma_url_query_both(
    account: Seq<char>,
    ns: Seq<char>,
    key: Seq<char>,
    exp: Seq<char>,
    ttl: Seq<char>,
)
    requires
        forall|i: int| 0 <= i < exp.len() ==> unreserved(exp[i]),
        forall|i: int| 0 <= i < ttl.len() ==> unreserved(ttl[i]),
    ensures
        put_url_text(account, ns, key, Some(exp), Some(ttl))
            == base_url(account, ns, key) + "?expiration="@ + exp + "&expiration_ttl="@ + ttl,
{
    lemma_component_encoded_all_unreserved(exp);
    lemma_component_encoded_all_unreserved(ttl);
}

/// Composes the endpoint URL for a put and validates it, handing back
/// the validated (normalized) form.
pub fn build_url(
    account_id: &str,
    namespace_id: &str,
    key: &str,
    expiration: &Option<String>,
    expiration_ttl: &Option<String>,
) -> (r: Result<String, PutError>)
    ensures
        r is Ok <==> url_canon(
            put_url_text(
                account_id@,
                namespace_id@,
                key@,
                opt_view(*expiration),
                opt_view(*expiration_ttl),
            ),
        ) is Some,
        r matches Ok(u) ==> url_canon(
            put_url_text(
                account_id@,
                namespace_id@,
                key@,
                opt_view(*expiration),
                opt_view(*expiration_ttl),
            ),
        ) == Some(u@),
        r matches Err(e) ==> e is InvalidUrl,
{
    let mut text = String::from_str("https://api.cloudflare.com/client/v4/accounts/");
    text.append(account_id);
    text.append("/storage/kv/namespaces/");
    text.append(namespace_id);
    text.append("/values/");
    text.append(key);
    match expiration {
        Some(e) => {
            text.append("?expiration=");
            let encoded = encode_component(e.as_str());
            text.append(encoded.as_str());
            if let Some(t) = expiration_ttl {
                text.append("&expiration_ttl=");
                let encoded_ttl = encode_component(t.as_str());
                text.append(encoded_ttl.as_str());
            }
        },
        None => {
            if let Some(t) = expiration_ttl {
                text.append("?expiration_ttl=");
                let encoded_ttl = encode_component(t.as_str());
                text.append(encoded_ttl.as_str());
            }
        },
    }
    proof {
        assert(text@ =~= put_url_text(
            account_id@,
            namespace_id@,
            key@,
            opt_view(*expiration),
            opt_view(*expiration_ttl),
        ));
    }
    match url_normalize(text.as_str()) {
        Ok(u) => Ok(u),
        Err(e) => Err(PutError::InvalidUrl(e)),
    }
}

/// The content of one part of a multipart form: literal text, or a file
/// to stream from a path.
pub enum PartContent {
    Text(String),
    FilePath(String),
}

/// How the body of a put goes on the wire.
pub enum BodyPlan {
    /// The raw bytes of the value text, with no multipart framing.
    RawText(String),
    /// The raw bytes streamed from the file at this path, with no
    /// multipart framing.
    RawFile(String),
    /// A multipart form of exactly the named parts, in order.
    Multipart(Vec<(String, PartContent)>),
}

/// Selects the body encoding: a two-part multipart form exactly when
/// metadata is present, else the raw value with no framing.
pub fn plan_body(value: &str, is_file: bool, metadata: &Option<serde_json::Value>) -> (r:
    BodyPlan)
    ensures
        metadata is Some ==> (r matches BodyPlan::Multipart(parts) && {
            &&& parts@.len() == 2
            &&& parts@[0].0@ == "value"@
            &&& (is_file ==> (parts@[0].1 matches PartContent::FilePath(p) && p@ == value@))
            &&& (!is_file ==> (parts@[0].1 matches PartContent::Text(t) && t@ == value@))
            &&& parts@[1].0@ == "metadata"@
            &&& (parts@[1].1 matches PartContent::Text(m) && m@.len() > 0)
        }),
        metadata is None && !is_file ==> (r matches BodyPlan::RawText(t) && t@ == value@),
        metadata is None && is_file ==> (r matches BodyPlan::RawFile(p) && p@ == value@),
{
    match metadata {
        Some(m) => {
            let value_part = if is_file {
                PartContent::FilePath(String::from_str(value))
            } else {
                PartContent::Text(String::from_str(value))
            };
            let metadata_part = PartContent::Text(json_value_to_string(m));
            let mut parts: Vec<(String, PartContent)> = Vec::new();
            parts.push((String::from_str("value"), value_part));
            parts.push((String::from_str("metadata"), metadata_part));
            BodyPlan::Multipart(parts)
        },
        None => {
            if is_file {
                BodyPlan::RawFile(String::from_str(value))
            } else {
                BodyPlan::RawText(String::from_str(value))
            }
        },
    }
}

/// What inspecting the path of a file-valued put found.
pub enum FileStat {
    /// A regular file: the one kind a put accepts.
    Regular,
    /// A directory.
    Directory,
    /// A symbolic link or any other non-regular file.
    Other,
    /// The path could not be inspected; carries the inspection's own
    /// diagnostic.
    Inaccessible(String),
}

/// Decides whether a file-valued put may stream the file at `path`,
/// given what inspecting it found: only a regular file passes, each
/// other finding fails with its exact diagnostic.
pub fn check_file_body(path: &str, stat: &FileStat) -> (r: Result<(), PutError>)
    ensures
        r is Ok <==> stat is Regular,
        stat is Directory ==> (r matches Err(e) && e matches PutError::PathIsDirectory(m)
            && m@ == dir_message(path@)),
        stat is Other ==> (r matches Err(e) && e matches PutError::PathIsSymlink(m)
            && m@ == symlink_message(path@)),
        stat matches FileStat::Inaccessible(d) ==> (r matches Err(e)
            && e matches PutError::PathInaccessible(m) && m@ == d@),
{
    match stat {
        FileStat::Regular => Ok(()),
        FileStat::Directory => {
            let mut m = String::from_str("--path argument takes a file, ");
            m.append(path);
            m.append(" is a directory");
            Err(PutError::PathIsDirectory(m))
        },
        FileStat::Other => {
            let mut m = String::from_str("--path argument takes a file, ");
            m.append(path);
            m.append(" is a symlink");
            Err(PutError::PathIsSymlink(m))
        },
        FileStat::Inaccessible(d) => Err(PutError::PathInaccessible(d.clone())),
    }
}

/// The URL and body of one put, ready to hand to an HTTP client.
pub struct RequestPlan {
    /// The validated endpoint URL.
    pub url: String,
    /// The body encoding.
    pub body: BodyPlan,
}

/// Plans a whole put: composes and validates the URL and selects the
/// body encoding. Fails exactly when the composed URL is invalid.
pub fn plan_put_request(account_id: &str, data: &KVMetaData) -> (r: Result<
    RequestPlan,
    PutError,
>)
    ensures
        r is Ok <==> url_canon(
            put_url_text(
                account_id@,
                data.namespace_id@,
                data.key@,
                opt_view(data.expiration),
                opt_view(data.expiration_ttl),
            ),
        ) is Some,
        r matches Ok(plan) ==> {
            &&& url_canon(
                put_url_text(
                    account_id@,
                    data.namespace_id@,
                    data.key@,
                    opt_view(data.expiration),
                    opt_view(data.expiration_ttl),
                ),
            ) == Some(plan.url@)
            &&& (data.metadata is Some ==> (plan.body matches BodyPlan::Multipart(parts) && {
                &&& parts@.len() == 2
                &&& parts@[0].0@ == "value"@
                &&& (data.is_file ==> (parts@[0].1 matches PartContent::FilePath(p)
                    && p@ == data.value@))
                &&& (!data.is_file ==> (parts@[0].1 matches PartContent::Text(t)
                    && t@ == data.value@))
                &&& parts@[1].0@ == "metadata"@
                &&& (parts@[1].1 matches PartContent::Text(m) && m@.len() > 0)
            }))
            &&& (data.metadata is None && !data.is_file ==> (plan.body matches BodyPlan::RawText(t)
                && t@ == data.value@))
            &&& (data.metadata is None && data.is_file ==> (plan.body matches BodyPlan::RawFile(p)
                && p@ == data.value@))
        },
        r matches Err(e) ==> e is InvalidUrl,
{
    let url = match build_url(
        account_id,
        &data.namespace_id,
        &data.key,
        &data.expiration,
        &data.expiration_ttl,
    ) {
        Ok(u) => u,
        Err(e) => {
            return Err(e);
        },
    };
    let body = plan_body(data.value.as_str(), data.is_file, &data.metadata);
    Ok(RequestPlan { url, body })
}

} // verus!
