//! The outbound request executor's decision logic: validating and
//! normalizing the method token, turning the caller's arguments into a plan
//! of plain parts for the transport to carry out, and assembling the final
//! response with last-write-wins header collection. The network call itself,
//! and the file reads a form may name, belong to the surrounding runtime,
//! which hands their outcomes back to these functions.
use vstd::prelude::*;

use crate::errors::CoreError;
use crate::http::HttpResponse;
use crate::http::is_tchar;
use crate::http::to_upper;
use crate::http::upper_seq;
use crate::store::assoc_map;
use crate::store::distinct_keys;
use crate::store::StrMap;

verus! {

/// One entry of a multipart form as the caller hands it over: a key, a
/// value, and whether the value is inline text or a path to a local file.
#[derive(Debug)]
pub struct FormDataItem {
    pub key: String,
    pub value: String,
    pub entry_type: String,
}

/// An outbound call as the caller describes it: method, URL, headers, and a
/// raw body or a list of form parts.
#[derive(Debug)]
pub struct HttpRequestArgs {
    pub method: String,
    pub url: String,
    pub headers: Vec<(String, String)>,
    pub body: Option<String>,
    pub form_data: Option<Vec<FormDataItem>>,
}

/// One planned form part, reduced to plain values: inline text, or a file to
/// be read from a path and attached under its filename.
#[derive(Debug)]
pub enum FormPart {
    Text { key: String, text: String },
    File { key: String, path: String, filename: String },
}

/// What the transport is asked to send as the request's payload.
#[derive(Debug)]
pub enum RequestPayload {
    Empty,
    Raw { body: String },
    Form { parts: Vec<FormPart> },
}

/// A validated outbound call, ready for the transport: the method token
/// upper-cased, and the payload reduced to plain parts.
#[derive(Debug)]
pub struct PreparedRequest {
    pub method: String,
    pub url: String,
    pub headers: Vec<(String, String)>,
    pub payload: RequestPayload,
}

/// A method token an HTTP request line can carry: nonempty, token
/// characters only.
pub open spec fn valid_method_token(s: Seq<char>) -> bool {
    s.len() > 0 && forall|i: int| 0 <= i < s.len() ==> is_tchar(s[i])
}

/// The index right after the last `/` of a path, or 0 if it has none.
pub open spec fn slash_cut(p: Seq<char>) -> int
    decreases p.len(),
{
    if p.len() == 0 {
        0
    } else if p.last() == '/' {
        p.len() as int
    } else {
        slash_cut(p.drop_last())
    }
}

/// The filename a file path contributes to a form part: what follows its
/// last `/`, or the empty name when that is empty or a relative marker.
pub open spec fn file_name_of(p: Seq<char>) -> Seq<char> {
    let b = p.skip(slash_cut(p));
    if b == "."@ || b == ".."@ {
        Seq::<char>::empty()
    } else {
        b
    }
}

/// `slash_cut` points right after the last `/`, and no `/` follows it.
pub proof fn lemma_slash_cut(p: Seq<char>)
    ensures
        0 <= slash_cut(p) <= p.len(),
        slash_cut(p) > 0 ==> p[slash_cut(p) - 1] == '/',
        forall|j: int| slash_cut(p) <= j < p.len() ==> p[j] != '/',
    decreases p.len(),
{
    if p.len() == 0 {
    } else if p.last() == '/' {
    } else {
        lemma_slash_cut(p.drop_last());
        assert forall|j: int| slash_cut(p) <= j < p.len() implies p[j] != '/' by {
            if j < p.len() - 1 {
                assert(p.drop_last()[j] != '/');
            }
        }
    }
}

/// The filename a file path contributes to a form part.
pub fn file_name_for(p: &str) -> (r: String)
    ensures
        r@ == file_name_of(p@),
{
    proof {
        lemma_slash_cut(p@);
    }
    let n = p.unicode_len();
    let mut cut: usize = 0;
    let mut i: usize = 0;
    while i < n
        invariant
            n == p@.len(),
            i <= n,
            cut <= i,
            cut > 0 ==> p@[cut - 1] == '/',
            forall|j: int| cut <= j < i ==> p@[j] != '/',
        decreases n - i,
    {
        if p.get_char(i) == '/' {
            cut = i + 1;
        }
        i = i + 1;
    }
    proof {
        let sc = slash_cut(p@);
        if sc < cut as int {
            assert(p@[cut - 1] == '/');
        } else if sc > cut as int {
            assert(p@[sc - 1] != '/');
        }
        assert(cut as int == sc);
    }
    let base = p.substring_char(cut, n);
    proof {
        assert(base@ =~= p@.skip(slash_cut(p@)));
        reveal_strlit(".");
        reveal_strlit("..");
    }
    let b = base.to_owned();
    if crate::http::str_eq(base, ".") || crate::http::str_eq(base, "..") {
        proof {
            reveal_strlit("");
            assert(""@ =~= Seq::<char>::empty());
        }
        String::from_str("")
    } else {
        b
    }
}

/// What a planned part owes to the form entry it came from: a `file` entry
/// becomes a file part carrying the path and its filename; any other entry
/// becomes an inline text part.
pub open spec fn part_matches(p: FormPart, it: FormDataItem) -> bool {
    if it.entry_type@ == "file"@ {
        p matches FormPart::File { key, path, filename } && key@ == it.key@ && path@ == it.value@
            && filename@ == file_name_of(it.value@)
    } else {
        p matches FormPart::Text { key, text } && key@ == it.key@ && text@ == it.value@
    }
}

/// What the planned payload owes to the caller's arguments: form parts when
/// form data is present (it takes precedence over a raw body), the raw body
/// when only that is present, and nothing otherwise.
pub open spec fn payload_matches(
    p: RequestPayload,
    body: Option<String>,
    form_data: Option<Vec<FormDataItem>>,
) -> bool {
    match form_data {
        Some(items) => p matches RequestPayload::Form { parts } && parts@.len() == items@.len()
            && forall|i: int| 0 <= i < items@.len() ==> part_matches(#[trigger] parts@[i], items@[i]),
        None => match body {
            Some(b) => p matches RequestPayload::Raw { body: r } && r == b,
            None => p is Empty,
        },
    }
}

fn classify_item(it: &FormDataItem) -> (r: FormPart)
    ensures
        part_matches(r, *it),
{
    proof {
        reveal_strlit("file");
    }
    if crate::http::str_eq(it.entry_type.as_str(), "file") {
        FormPart::File {
            key: it.key.clone(),
            path: it.value.clone(),
            filename: file_name_for(it.value.as_str()),
        }
    } else {
        FormPart::Text { key: it.key.clone(), text: it.value.clone() }
    }
}

/// Validates an outbound call and reduces it to a plan of plain values: the
/// call is refused exactly when its method token cannot stand in an HTTP
/// request line; otherwise the method is upper-cased, the URL and headers
/// pass through verbatim, and the payload keeps form data over a raw body.
pub fn prepare_request(args: HttpRequestArgs) -> (r: Result<PreparedRequest, CoreError>)
    ensures
        r is Ok <==> valid_method_token(args.method@),
        r matches Result::Err(e) ==> e matches CoreError::InvalidMethod { method } && method@
            == args.method@,
        r matches Result::Ok(p) ==> p.method@ == upper_seq(args.method@) && p.url == args.url
            && p.headers == args.headers && payload_matches(p.payload, args.body, args.form_data),
{
    if !check_method_token(args.method.as_str()) {
        return Err(CoreError::InvalidMethod { method: args.method });
    }
    let method = to_upper(args.method.as_str());
    let payload = match args.form_data {
        Some(items) => {
            let n = items.len();
            let mut parts: Vec<FormPart> = Vec::new();
            let mut i: usize = 0;
            while i < n
                invariant
                    n == items@.len(),
                    i <= n,
                    parts@.len() == i,
                    forall|j: int|
                        0 <= j < i ==> part_matches(#[trigger] parts@[j], items@[j]),
                decreases n - i,
            {
                parts.push(classify_item(&items[i]));
                i = i + 1;
            }
            RequestPayload::Form { parts }
        },
        None => match args.body {
            Some(body) => RequestPayload::Raw { body },
            None => RequestPayload::Empty,
        },
    };
    Ok(PreparedRequest { method, url: args.url, headers: args.headers, payload })
}

/// Whether `s` can stand as the method of an HTTP request line.
pub fn check_method_token(s: &str) -> (r: bool)
    ensures
        r == valid_method_token(s@),
{
    let n = s.unicode_len();
    if n == 0 {
        return false;
    }
    let mut i: usize = 0;
    while i < n
        invariant
            n == s@.len(),
            i <= n,
            forall|j: int| 0 <= j < i ==> is_tchar(s@[j]),
        decreases n - i,
    {
        if !crate::http::check_tchar(s.get_char(i)) {
            return false;
        }
        i = i + 1;
    }
    true
}

/// Collects response header pairs with last-write-wins per header name:
/// the result binds each name once, to the value of its last occurrence.
pub fn collect_headers(pairs: &Vec<(String, String)>) -> (r: Vec<(String, String)>)
    ensures
        distinct_keys(r@),
        assoc_map(r@) == assoc_map(pairs@),
{
    let n = pairs.len();
    let mut m: StrMap<String> = StrMap::new();
    let mut i: usize = 0;
    proof {
        assert(pairs@.take(0) =~= Seq::<(String, String)>::empty());
    }
    while i < n
        invariant
            n == pairs@.len(),
            i <= n,
            m.wf(),
            m@ == assoc_map(pairs@.take(i as int)),
        decreases n - i,
    {
        proof {
            assert(pairs@.take(i + 1).drop_last() =~= pairs@.take(i as int));
            assert(pairs@.take(i + 1).last() == pairs@[i as int]);
        }
        m.insert(pairs[i].0.clone(), pairs[i].1.clone());
        i = i + 1;
    }
    proof {
        assert(pairs@.take(n as int) =~= pairs@);
    }
    m.into_entries()
}

/// Assembles the executor's result from the transport's outcome: the status
/// as reported, the header pairs collected last-write-wins, the body text
/// verbatim.
pub fn build_response(status: u16, header_pairs: Vec<(String, String)>, body: String) -> (r:
    HttpResponse)
    ensures
        r.status == status,
        r.body == body,
        distinct_keys(r.headers@),
        assoc_map(r.headers@) == assoc_map(header_pairs@),
{
    HttpResponse { status, headers: collect_headers(&header_pairs), body }
}

} // verus!
