//! Checking an inbound location URL and reducing it to its trusted form, and
//! masking a secret for display.

use crate::error::{ErrorKind, PipelineError, PipelineErrorView};
use crate::http::{plain_get, Exchange, ExchangeView, Request};
use vstd::prelude::*;
use vstd::string::*;
use vstd::utf8::*;

verus! {

/// What the logic reads of a parsed URL.
#[derive(Clone, Debug, PartialEq, Eq)]
pub struct UrlParts {
    /// The host, where the URL has one.
    pub host: Option<String>,
    /// The path, as the URL holds it.
    pub path: String,
    /// The decoded name and value of each query parameter, in order.
    pub query: Vec<(String, String)>,
}

/// The mathematical value of a [`UrlParts`].
#[verifier::ext_equal]
pub ghost struct UrlPartsView {
    pub host: Option<Seq<char>>,
    pub path: Seq<char>,
    pub query: Seq<(Seq<char>, Seq<char>)>,
}

impl View for UrlParts {
    type V = UrlPartsView;

    open spec fn view(&self) -> UrlPartsView {
        UrlPartsView {
            host: self.host.deep_view(),
            path: self.path@,
            query: self.query.deep_view(),
        }
    }
}

impl DeepView for UrlParts {
    type V = UrlPartsView;

    open spec fn deep_view(&self) -> UrlPartsView {
        self@
    }
}

/// What parsing `input` as an absolute URL gives: nothing where it is not
/// one, and otherwise its host, its path and its decoded query parameters.
pub uninterp spec fn parsed_url(input: Seq<char>) -> Option<UrlPartsView>;

/// What the `application/x-www-form-urlencoded` serializer writes for the
/// given names and values.
pub uninterp spec fn form_urlencoded(pairs: Seq<(Seq<char>, Seq<char>)>) -> Seq<char>;

/// Calls `url::Url::parse` and, where it succeeds, reads the result through
/// `Url::host_str`, `Url::path` and `Url::query_pairs`. Nothing is proved of
/// the parser: the contract only gives the result its name.
#[verifier::external_body]
pub(crate) fn parse_url(input: &str) -> (parsed: Option<UrlParts>)
    ensures
        parsed.deep_view() == parsed_url(input@),
{
    match url::Url::parse(input) {
        Ok(url) => Some(
            UrlParts {
                host: url.host_str().map(String::from),
                path: url.path().to_owned(),
                query: url.query_pairs().into_owned().collect(),
            },
        ),
        Err(_) => None,
    }
}

/// Calls `url::form_urlencoded::Serializer` on an empty target: `new`,
/// `extend_pairs` with the given pairs, `finish`. Nothing is proved of the
/// encoding: the contract only gives the result its name.
#[verifier::external_body]
fn form_urlencode(pairs: &Vec<(String, String)>) -> (encoded: String)
    ensures
        encoded@ == form_urlencoded(pairs.deep_view()),
{
    url::form_urlencoded::Serializer::new(String::new()).extend_pairs(pairs).finish()
}

/// The longest location reference that is looked at, in characters.
pub const MAX_URL_LENGTH: usize = 2000;

/// The one host that location URLs are accepted from.
pub open spec fn trusted_host() -> Seq<char> {
    "maps.app.goo.gl"@
}

/// The query parameters that survive sanitizing, in the order they are
/// written out.
pub open spec fn allowed_params() -> Seq<Seq<char>> {
    seq!["g_st"@]
}

/// The pairs named `key`, in their order.
pub open spec fn with_key(pairs: Seq<(Seq<char>, Seq<char>)>, key: Seq<char>) -> Seq<
    (Seq<char>, Seq<char>),
>
    decreases pairs.len(),
{
    if pairs.len() == 0 {
        Seq::empty()
    } else if pairs.last().0 == key {
        with_key(pairs.drop_last(), key).push(pairs.last())
    } else {
        with_key(pairs.drop_last(), key)
    }
}

/// The pairs whose name is on the allow-list: for each allowed name in the
/// list's order, the pairs with that name in their own order.
pub open spec fn allowed_pairs(
    pairs: Seq<(Seq<char>, Seq<char>)>,
    allowed: Seq<Seq<char>>,
) -> Seq<(Seq<char>, Seq<char>)>
    decreases allowed.len(),
{
    if allowed.len() == 0 {
        Seq::empty()
    } else {
        allowed_pairs(pairs, allowed.drop_last()) + with_key(pairs, allowed.last())
    }
}

/// The sanitized URL with the given path and, where there is one, the given
/// encoded query.
pub open spec fn assembled(path: Seq<char>, encoded_query: Option<Seq<char>>) -> Seq<char> {
    "https://"@ + trusted_host() + path + match encoded_query {
        Some(query) => "?"@ + query,
        None => Seq::empty(),
    }
}

/// The sanitized URL with the given path and query parameters: a query is
/// written only where a parameter is left.
pub open spec fn rebuilt(path: Seq<char>, kept: Seq<(Seq<char>, Seq<char>)>) -> Seq<char> {
    assembled(
        path,
        if kept.len() == 0 {
            None
        } else {
            Some(form_urlencoded(kept))
        },
    )
}

/// What sanitizing makes of a parsed reference.
pub open spec fn sanitized_parts(parsed: Option<UrlPartsView>) -> Result<Seq<char>, ErrorKind> {
    match parsed {
        None => Err(ErrorKind::InvalidFormat),
        Some(parts) => if parts.host != Some(trusted_host()) {
            Err(ErrorKind::UntrustedDomain)
        } else if !(parts.path.len() > 0 && parts.path[0] == '/') {
            Err(ErrorKind::InvalidPath)
        } else {
            Ok(rebuilt(parts.path, allowed_pairs(parts.query, allowed_params())))
        },
    }
}

/// What sanitizing makes of a location reference: the failure it is refused
/// with, or the URL it is reduced to.
pub open spec fn sanitized(input: Seq<char>) -> Result<Seq<char>, ErrorKind> {
    if input.len() > MAX_URL_LENGTH {
        Err(ErrorKind::TooLong)
    } else {
        sanitized_parts(parsed_url(input))
    }
}

/// The message that goes with each way a reference is refused.
pub open spec fn refusal_message(kind: ErrorKind) -> Seq<char> {
    match kind {
        ErrorKind::TooLong => "URL exceeds maximum length"@,
        ErrorKind::InvalidFormat => "Invalid URL format"@,
        ErrorKind::UntrustedDomain => "URL is not from a trusted domain"@,
        _ => "Invalid URL path"@,
    }
}

/// Whether an outcome of the sanitizer is the one that `expected` describes.
pub open spec fn sanitizer_agrees(
    outcome: Result<String, PipelineError>,
    expected: Result<Seq<char>, ErrorKind>,
) -> bool {
    match outcome {
        Ok(clean) => expected == Ok::<Seq<char>, ErrorKind>(clean@),
        Err(error) => expected == Err::<Seq<char>, ErrorKind>(error.kind) && error.message@
            == refusal_message(error.kind),
    }
}

/// Whether `allowed` holds `name` at `position`.
pub open spec fn listed_at(allowed: Seq<Seq<char>>, position: int, name: Seq<char>) -> bool {
    0 <= position < allowed.len() && allowed[position] == name
}

/// Whether `allowed` lists `first` no later than `second`.
pub open spec fn listed_in_order(
    allowed: Seq<Seq<char>>,
    first: Seq<char>,
    second: Seq<char>,
) -> bool {
    exists|a: int, b: int|
        a <= b && #[trigger] listed_at(allowed, a, first) && #[trigger] listed_at(
            allowed,
            b,
            second,
        )
}

/// Whether the pairs stand in the order of the allow-list: of any two of
/// them, the earlier one's name is listed no later than the later one's.
pub open spec fn in_allow_list_order(
    kept: Seq<(Seq<char>, Seq<char>)>,
    allowed: Seq<Seq<char>>,
) -> bool {
    forall|i: int, j: int|
        0 <= i <= j < kept.len() ==> #[trigger] listed_in_order(allowed, kept[i].0, kept[j].0)
}

/// Every pair that `with_key` picks is one of the given pairs and has the
/// name asked for.
pub proof fn lemma_with_key(pairs: Seq<(Seq<char>, Seq<char>)>, key: Seq<char>)
    ensures
        forall|i: int|
            0 <= i < with_key(pairs, key).len() ==> (#[trigger] with_key(pairs, key)[i]).0 == key
                && pairs.contains(with_key(pairs, key)[i]),
    decreases pairs.len(),
{
    if pairs.len() > 0 {
        let shorter = pairs.drop_last();
        lemma_with_key(shorter, key);
        assert forall|i: int| 0 <= i < with_key(pairs, key).len() implies (#[trigger] with_key(
            pairs,
            key,
        )[i]).0 == key && pairs.contains(with_key(pairs, key)[i]) by {
            if i < with_key(shorter, key).len() {
                let picked = with_key(shorter, key)[i];
                assert(shorter.contains(picked));
                let at = choose|at: int| 0 <= at < shorter.len() && shorter[at] == picked;
                assert(pairs[at] == picked);
            } else {
                assert(pairs[pairs.len() - 1] == pairs.last());
            }
        }
    }
}

/// Every pair that sanitizing keeps is one of the given pairs and has a name
/// on the allow-list, and the kept pairs stand in the order of the
/// allow-list.
pub proof fn lemma_allowed_pairs(pairs: Seq<(Seq<char>, Seq<char>)>, allowed: Seq<Seq<char>>)
    ensures
        forall|i: int|
            0 <= i < allowed_pairs(pairs, allowed).len() ==> pairs.contains(
                #[trigger] allowed_pairs(pairs, allowed)[i],
            ) && allowed.contains(allowed_pairs(pairs, allowed)[i].0),
        in_allow_list_order(allowed_pairs(pairs, allowed), allowed),
    decreases allowed.len(),
{
    let kept = allowed_pairs(pairs, allowed);
    if allowed.len() > 0 {
        let earlier = allowed.drop_last();
        let before = allowed_pairs(pairs, earlier);
        let last = allowed.len() - 1;
        lemma_allowed_pairs(pairs, earlier);
        lemma_with_key(pairs, allowed.last());
        assert forall|i: int| 0 <= i < kept.len() implies pairs.contains(#[trigger] kept[i])
            && allowed.contains(kept[i].0) by {
            if i < before.len() {
                assert(kept[i] == before[i]);
                assert(earlier.contains(before[i].0));
                let a = choose|a: int| 0 <= a < earlier.len() && earlier[a] == before[i].0;
                assert(allowed[a] == kept[i].0);
            } else {
                assert(kept[i] == with_key(pairs, allowed.last())[i - before.len()]);
                assert(allowed[last] == kept[i].0);
            }
        }
        assert forall|i: int, j: int| 0 <= i <= j < kept.len() implies #[trigger] listed_in_order(
            allowed,
            kept[i].0,
            kept[j].0,
        ) by {
            if j < before.len() {
                assert(kept[i] == before[i]);
                assert(kept[j] == before[j]);
                assert(listed_in_order(earlier, before[i].0, before[j].0));
                let (a, b) = choose|a: int, b: int|
                    a <= b && #[trigger] listed_at(earlier, a, before[i].0) && #[trigger] listed_at(
                        earlier,
                        b,
                        before[j].0,
                    );
                assert(listed_at(allowed, a, kept[i].0));
                assert(listed_at(allowed, b, kept[j].0));
            } else {
                assert(kept[j] == with_key(pairs, allowed.last())[j - before.len()]);
                assert(listed_at(allowed, last, kept[j].0));
                if i < before.len() {
                    assert(kept[i] == before[i]);
                    assert(earlier.contains(before[i].0));
                    let a = choose|a: int| 0 <= a < earlier.len() && earlier[a] == before[i].0;
                    assert(listed_at(allowed, a, kept[i].0));
                } else {
                    assert(kept[i] == with_key(pairs, allowed.last())[i - before.len()]);
                    assert(listed_at(allowed, last, kept[i].0));
                }
            }
        }
    }
}

/// A reference of admissible length that parses as a URL of another host
/// than the trusted one is refused as `UntrustedDomain`.
pub proof fn lemma_untrusted_host_is_refused(input: Seq<char>)
    requires
        input.len() <= MAX_URL_LENGTH,
        parsed_url(input) matches Some(parts) && parts.host != Some(trusted_host()),
    ensures
        sanitized(input) == Err::<Seq<char>, ErrorKind>(ErrorKind::UntrustedDomain),
{
}

/// A sanitized URL starts with `https://` and the trusted host, goes on with
/// the path of the reference, and carries in its query, written by the form
/// encoder, parameters of the reference whose names are on the allow-list,
/// in the order of the allow-list.
pub proof fn lemma_sanitized_shape(input: Seq<char>)
    requires
        sanitized(input) is Ok,
    ensures
        input.len() <= MAX_URL_LENGTH,
        parsed_url(input) matches Some(parts) && sanitized(input) matches Ok(clean) && ({
            let kept = allowed_pairs(parts.query, allowed_params());
            &&& ("https://"@ + trusted_host()).is_prefix_of(clean)
            &&& clean == rebuilt(parts.path, kept)
            &&& forall|i: int|
                0 <= i < kept.len() ==> parts.query.contains(#[trigger] kept[i])
                    && allowed_params().contains(kept[i].0)
            &&& in_allow_list_order(kept, allowed_params())
        }),
{
    let parts = parsed_url(input)->0;
    let kept = allowed_pairs(parts.query, allowed_params());
    lemma_allowed_pairs(parts.query, allowed_params());
}

/// The pairs named `key`, in their order, added to `kept`.
fn keep_with_key(pairs: &Vec<(String, String)>, key: &str, kept: &mut Vec<(String, String)>)
    ensures
        final(kept).deep_view() == old(kept).deep_view() + with_key(pairs.deep_view(), key@),
{
    let wanted = key.to_owned();
    let ghost before = kept.deep_view();
    let mut i: usize = 0;
    while i < pairs.len()
        invariant
            i <= pairs.len(),
            wanted@ == key@,
            kept.deep_view() == before + with_key(pairs.deep_view().take(i as int), key@),
        decreases pairs.len() - i,
    {
        let ghost so_far = kept.deep_view();
        let ghost longer = pairs.deep_view().take(i + 1);
        assert(longer.drop_last() =~= pairs.deep_view().take(i as int));
        if pairs[i].0 == wanted {
            kept.push((pairs[i].0.clone(), pairs[i].1.clone()));
            assert(kept.deep_view() =~= so_far.push(pairs@[i as int].deep_view()));
        }
        i += 1;
    }
    assert(pairs.deep_view().take(pairs.len() as int) =~= pairs.deep_view());
}

/// The pairs whose name is on the allow-list: for each allowed name in the
/// list's order, the pairs with that name in their own order.
pub fn keep_allowed(pairs: &Vec<(String, String)>, allowed: &Vec<String>) -> (kept: Vec<
    (String, String),
>)
    ensures
        kept.deep_view() == allowed_pairs(pairs.deep_view(), allowed.deep_view()),
{
    let mut kept: Vec<(String, String)> = Vec::new();
    let mut i: usize = 0;
    while i < allowed.len()
        invariant
            i <= allowed.len(),
            kept.deep_view() == allowed_pairs(pairs.deep_view(), allowed.deep_view().take(i as int)),
        decreases allowed.len() - i,
    {
        assert(allowed.deep_view().take(i + 1).drop_last() =~= allowed.deep_view().take(i as int));
        keep_with_key(pairs, allowed[i].as_str(), &mut kept);
        i += 1;
    }
    assert(allowed.deep_view().take(allowed.len() as int) =~= allowed.deep_view());
    kept
}

/// The sanitized URL with the given path and, where there is one, the given
/// encoded query.
pub fn assemble_url(path: &str, encoded_query: &Option<String>) -> (url: String)
    ensures
        url@ == assembled(path@, encoded_query.deep_view()),
{
    let mut url = "https://".to_owned();
    url.append("maps.app.goo.gl");
    url.append(path);
    match encoded_query {
        Some(query) => {
            url.append("?");
            url.append(query.as_str());
        },
        None => {},
    }
    url
}

fn refusal(kind: ErrorKind) -> (error: PipelineError)
    ensures
        error.kind == kind,
        error.message@ == refusal_message(kind),
{
    let message = match kind {
        ErrorKind::TooLong => "URL exceeds maximum length",
        ErrorKind::InvalidFormat => "Invalid URL format",
        ErrorKind::UntrustedDomain => "URL is not from a trusted domain",
        _ => "Invalid URL path",
    };
    PipelineError::new(kind, message)
}

/// Whether the host is there and is the trusted one.
fn is_trusted(host: &Option<String>) -> (trusted: bool)
    ensures
        trusted == (host.deep_view() == Some(trusted_host())),
{
    match host {
        Some(name) => crate::text::same_text(name.as_str(), "maps.app.goo.gl"),
        None => false,
    }
}

/// Sanitizes a reference that has been parsed: refuses one that is not a URL,
/// whose host is not the trusted one or that has no path from the root, and
/// rebuilds any other from the trusted host, its path and the query
/// parameters on the allow-list.
pub fn sanitize_parts(parsed: Option<UrlParts>) -> (outcome: Result<String, PipelineError>)
    ensures
        sanitizer_agrees(outcome, sanitized_parts(parsed.deep_view())),
{
    let parts = match parsed {
        Some(parts) => parts,
        None => {
            return Err(refusal(ErrorKind::InvalidFormat));
        },
    };
    if !is_trusted(&parts.host) {
        return Err(refusal(ErrorKind::UntrustedDomain));
    }
    if !crate::text::starts_with(parts.path.as_str(), "/") {
        proof {
            reveal_strlit("/");
        }
        return Err(refusal(ErrorKind::InvalidPath));
    }
    proof {
        reveal_strlit("/");
        assert(parts.path@.subrange(0, 1)[0] == '/');
    }
    let mut allowed: Vec<String> = Vec::new();
    allowed.push("g_st".to_owned());
    assert(allowed.deep_view() =~= allowed_params());
    let kept = keep_allowed(&parts.query, &allowed);
    let encoded = if kept.len() == 0 {
        None
    } else {
        Some(form_urlencode(&kept))
    };
    Ok(assemble_url(parts.path.as_str(), &encoded))
}

/// Checks a location reference and reduces it to its trusted form.
///
/// A reference of more than [`MAX_URL_LENGTH`] characters is refused as
/// `TooLong`, one that does not parse as a URL as `InvalidFormat`, one whose
/// host is not the trusted one as `UntrustedDomain`, and one without a path
/// from the root as `InvalidPath`, in this order. Any other comes back with
/// the scheme `https`, the trusted host, its own path and, of its query
/// parameters, those on the allow-list.
pub fn validate_and_sanitize_url(url: &str) -> (outcome: Result<String, PipelineError>)
    ensures
        sanitizer_agrees(outcome, sanitized(url@)),
{
    if url.unicode_len() > MAX_URL_LENGTH {
        return Err(refusal(ErrorKind::TooLong));
    }
    sanitize_parts(parse_url(url))
}

/// A key with all but its first five bytes masked: the characters that the
/// first five bytes of its UTF-8 form encode, then one `*` for each further
/// byte. A key of five bytes or fewer stays as it is.
pub open spec fn masked_key(key: Seq<char>) -> Seq<char> {
    let bytes = encode_utf8(key);
    if bytes.len() > 5 {
        decode_utf8(bytes.subrange(0, 5)) + crate::text::repeated("*"@, (bytes.len() - 5) as nat)
    } else {
        key
    }
}

/// Masks a secret for display: keeps its first five bytes and writes a `*`
/// for each further one.
///
/// A key of more than five bytes must have a character end at its fifth byte:
/// there is no way to show half a character.
pub fn mask_api_key(key: &str) -> (masked: String)
    requires
        key.spec_bytes().len() > 5 ==> is_char_boundary(key.spec_bytes(), 5),
    ensures
        masked@ == masked_key(key@),
{
    let length = key.as_bytes().len();
    proof {
        encode_utf8_valid_utf8(key@);
    }
    if length > 5 {
        let (head, _) = key.split_at(5);
        proof {
            encode_utf8_decode_utf8(head@);
        }
        let mut masked = head.to_owned();
        let stars = crate::text::repeat("*", (length - 5) as u64);
        masked.append(stars.as_str());
        masked
    } else {
        key.to_owned()
    }
}

/// The long form that following a short link arrives at: the address of the
/// final response, or a network failure where the request did not complete.
pub open spec fn expansion(exchange: ExchangeView) -> Result<Seq<char>, PipelineErrorView> {
    match exchange {
        ExchangeView::Failed(reason) => Err(
            PipelineErrorView { kind: ErrorKind::NetworkFailure, message: reason },
        ),
        ExchangeView::Answered(reply) => Ok(reply.url),
    }
}

/// The request that follows a short link: a single plain `GET`, whose
/// redirects the driver follows.
pub fn expand_short_url(short_url: &str) -> (request: Request)
    ensures
        request@ == plain_get(short_url@),
{
    Request::get(short_url.to_owned())
}

/// The long form that following a short link arrived at.
pub fn expanded_url(exchange: Exchange) -> (outcome: Result<String, PipelineError>)
    ensures
        match outcome {
            Ok(url) => expansion(exchange@) == Ok::<Seq<char>, PipelineErrorView>(url@),
            Err(error) => expansion(exchange@) == Err::<Seq<char>, PipelineErrorView>(error@),
        },
{
    match exchange {
        Exchange::Failed(reason) => Err(
            PipelineError { kind: ErrorKind::NetworkFailure, message: reason },
        ),
        Exchange::Answered(reply) => Ok(reply.url),
    }
}

} // verus!
