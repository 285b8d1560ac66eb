//! The API client: which request to send, and what each reply means.
//!
//! Nothing here touches the network. A caller sends the request that the
//! client describes and hands the reply back; the client decides what it
//! means.

use vstd::prelude::*;
use crate::errors::{DataError, DataErrorView};
use crate::records::text_view;
use crate::text::{
    contains, contains_chars, has_char, only, same_chars, split, split_on, to_chars, to_string,
    trim, trim_chars, trim_end, trim_end_char, trim_start, trim_start_char, views,
};

verus! {

broadcast use vstd::string::group_string_axioms;

/// Root of every endpoint.
pub const GITHUB_API_BASE_URL: &'static str = "https://api.github.com";

/// Seconds after which a request is given up.
pub const REQUEST_TIMEOUT_SECS: u64 = 30;

/// One header of a request.
#[derive(Debug, PartialEq, Eq)]
pub struct HttpHeader {
    pub name: String,
    pub value: String,
}

/// A GET request, ready to be sent.
#[derive(Debug, PartialEq, Eq)]
pub struct HttpRequest {
    pub url: String,
    pub headers: Vec<HttpHeader>,
}

/// What came back for a request that reached the host.
#[derive(Debug, PartialEq, Eq)]
pub struct HttpReply {
    /// The status code.
    pub status: u16,
    /// The `Link` header, where the reply has one that is text.
    pub link: Option<String>,
    /// The body, or `None` where it could not be read.
    pub body: Option<String>,
}

/// The mathematical value of an [`HttpRequest`].
pub struct HttpRequestView {
    pub url: Seq<char>,
    pub headers: Seq<(Seq<char>, Seq<char>)>,
}

/// The mathematical value of an [`HttpReply`].
pub struct HttpReplyView {
    pub status: u16,
    pub link: Option<Seq<char>>,
    pub body: Option<Seq<char>>,
}

impl View for HttpHeader {
    type V = (Seq<char>, Seq<char>);

    open spec fn view(&self) -> (Seq<char>, Seq<char>) {
        (self.name@, self.value@)
    }
}

impl View for HttpRequest {
    type V = HttpRequestView;

    open spec fn view(&self) -> HttpRequestView {
        HttpRequestView {
            url: self.url@,
            headers: Seq::new(self.headers@.len(), |i: int| self.headers@[i]@),
        }
    }
}

impl View for HttpReply {
    type V = HttpReplyView;

    open spec fn view(&self) -> HttpReplyView {
        HttpReplyView { status: self.status, link: text_view(self.link), body: text_view(self.body) }
    }
}

/// The value of what sending a request gave: a reply, or the transport's
/// complaint.
pub open spec fn sent_view(sent: Result<HttpReply, String>) -> Result<HttpReplyView, Seq<char>> {
    match sent {
        Ok(reply) => Ok(reply@),
        Err(complaint) => Err(complaint@),
    }
}

/// The headers of every request: who asks, what is accepted, and the
/// credential where there is one.
pub open spec fn headers_for(token: Option<Seq<char>>) -> Seq<(Seq<char>, Seq<char>)> {
    let fixed = seq![
        ("User-Agent"@, "corevsknots-data-loader"@),
        ("Accept"@, "application/vnd.github.v3+json"@),
    ];
    match token {
        Some(t) => fixed.push(("Authorization"@, "token "@ + t)),
        None => fixed,
    }
}

/// The request for `url` under `token`.
pub open spec fn request_for(token: Option<Seq<char>>, url: Seq<char>) -> HttpRequestView {
    HttpRequestView { url, headers: headers_for(token) }
}

/// Whether `status` reports success.
pub open spec fn is_success_code(status: u16) -> bool {
    200 <= status < 300
}

/// The text of a failure reply: its body, or a stand-in where the body
/// could not be read.
pub open spec fn failure_text(body: Option<Seq<char>>) -> Seq<char> {
    match body {
        Some(b) => b,
        None => "Failed to read error body"@,
    }
}

/// The failure that a reply outside the 2xx range stands for.
pub open spec fn failure_of(status: u16, body: Option<Seq<char>>) -> DataErrorView {
    let text = failure_text(body);
    if status == 403 && contains(text, "rate limit exceeded"@) {
        DataErrorView::RateLimitError
    } else if status == 404 {
        DataErrorView::NotFoundError
    } else {
        DataErrorView::GitHubApiError { status, message: text }
    }
}

/// What a sent request yields: the body of a successful reply, or the
/// failure.
pub open spec fn body_of(sent: Result<HttpReplyView, Seq<char>>) -> Result<Seq<char>, DataErrorView> {
    match sent {
        Err(complaint) => Err(DataErrorView::RequestError(complaint)),
        Ok(reply) => if !is_success_code(reply.status) {
            Err(failure_of(reply.status, reply.body))
        } else {
            match reply.body {
                Some(b) => Ok(b),
                None => Err(DataErrorView::RequestError("Failed to read response body"@)),
            }
        },
    }
}

/// The URL that one entry of a `Link` header points to, where the entry is
/// `<url>; rel="next"`.
pub open spec fn link_target(entry: Seq<char>) -> Option<Seq<char>> {
    let fields = split(entry, ';');
    if fields.len() == 2 && trim(fields[1]) == "rel=\"next\""@ {
        Some(trim_end(trim_start(trim(fields[0]), only('<')), only('>')))
    } else {
        None
    }
}

/// The target of the first entry that has one.
pub open spec fn first_target(entries: Seq<Seq<char>>) -> Option<Seq<char>>
    decreases entries.len(),
{
    if entries.len() == 0 {
        None
    } else {
        match link_target(entries[0]) {
            Some(target) => Some(target),
            None => first_target(entries.drop_first()),
        }
    }
}

/// The URL of the next page that a `Link` header names, if it names one.
pub open spec fn next_link(header: Seq<char>) -> Option<Seq<char>> {
    first_target(split(header, ','))
}

/// The next page that a reply names.
pub open spec fn next_of(link: Option<Seq<char>>) -> Option<Seq<char>> {
    match link {
        Some(header) => next_link(header),
        None => None,
    }
}

/// `url` with the page size as one more query parameter.
pub open spec fn paged_url(url: Seq<char>) -> Seq<char> {
    if url.contains('?') {
        url + "&per_page=100"@
    } else {
        url + "?per_page=100"@
    }
}

/// `parts` with `sep` between neighbours.
pub open spec fn join(parts: Seq<Seq<char>>, sep: Seq<char>) -> Seq<char>
    decreases parts.len(),
{
    if parts.len() == 0 {
        Seq::empty()
    } else if parts.len() == 1 {
        parts[0]
    } else {
        join(parts.drop_last(), sep) + sep + parts.last()
    }
}

/// The query string of `params`: nothing where there are none.
pub open spec fn query(params: Seq<Seq<char>>) -> Seq<char> {
    if params.len() == 0 {
        Seq::empty()
    } else {
        "?"@ + join(params, "&"@)
    }
}

/// `key=value` where a value is given.
pub open spec fn param(key: Seq<char>, value: Option<Seq<char>>) -> Seq<Seq<char>> {
    match value {
        Some(v) => seq![key + "="@ + v],
        None => Seq::empty(),
    }
}

/// The given value, or `fallback`.
pub open spec fn or_text(value: Option<Seq<char>>, fallback: Seq<char>) -> Seq<char> {
    match value {
        Some(v) => v,
        None => fallback,
    }
}

/// The URL of a resource of one repository.
pub open spec fn repo_url(owner: Seq<char>, name: Seq<char>, resource: Seq<char>) -> Seq<char> {
    "https://api.github.com"@ + "/repos/"@ + owner + "/"@ + name + resource
}

/// The URL that lists commits.
pub open spec fn commits_url(
    owner: Seq<char>,
    name: Seq<char>,
    since: Option<Seq<char>>,
    until: Option<Seq<char>>,
    branch_or_sha: Option<Seq<char>>,
) -> Seq<char> {
    repo_url(owner, name, "/commits"@) + query(
        param("since"@, since) + param("until"@, until) + param("sha"@, branch_or_sha),
    )
}

/// The URL that lists pull requests; every state unless one is named.
pub open spec fn pulls_url(
    owner: Seq<char>,
    name: Seq<char>,
    state: Option<Seq<char>>,
    sort: Option<Seq<char>>,
    direction: Option<Seq<char>>,
) -> Seq<char> {
    repo_url(owner, name, "/pulls"@) + query(
        seq!["state="@ + or_text(state, "all"@)] + param("sort"@, sort) + param(
            "direction"@,
            direction,
        ),
    )
}

/// The URL that lists issues; every state unless one is named.
pub open spec fn issues_url(
    owner: Seq<char>,
    name: Seq<char>,
    state: Option<Seq<char>>,
    filter: Option<Seq<char>>,
    since: Option<Seq<char>>,
) -> Seq<char> {
    repo_url(owner, name, "/issues"@) + query(
        seq!["state="@ + or_text(state, "all"@)] + param("filter"@, filter) + param(
            "since"@,
            since,
        ),
    )
}

/// The next page is the target of the first entry that names it: where a
/// header gives a URL, some entry has that target and no entry before it
/// has any; where it gives none, no entry has a target.
pub proof fn lemma_next_link_is_first(header: Seq<char>)
    ensures
        match next_link(header) {
            Some(url) => exists|k: int|
                0 <= k < split(header, ',').len() && link_target(#[trigger] split(header, ',')[k])
                    == Some(url) && forall|j: int|
                    0 <= j < k ==> link_target(#[trigger] split(header, ',')[j]) is None,
            None => forall|k: int|
                0 <= k < split(header, ',').len() ==> link_target(
                    #[trigger] split(header, ',')[k],
                ) is None,
        },
{
    lemma_first_target(split(header, ','));
}

/// Whether `url` can stand between angle brackets in an entry of a `Link`
/// header and be read back: it holds no `;` and no `,`, does not start with
/// `<` and does not end with `>`.
pub open spec fn plain_target(url: Seq<char>) -> bool {
    &&& !url.contains(';')
    &&& !url.contains(',')
    &&& url.len() > 0 ==> url[0] != '<' && url.last() != '>'
}

/// Whether `pad` is made of blanks.
pub open spec fn blank(pad: Seq<char>) -> bool {
    forall|j: int| 0 <= j < pad.len() ==> #[trigger] pad[j] == ' '
}

/// The entry that names `url` as the next page, with blanks before the
/// bracket and before the relation.
pub open spec fn next_entry(lead: Seq<char>, url: Seq<char>, gap: Seq<char>) -> Seq<char> {
    lead + seq!['<'] + url + seq!['>'] + seq![';'] + gap + "rel=\"next\""@
}

/// An entry of the form `<url>; rel="next"` has `url` as its target,
/// however many blanks stand before the bracket and before the relation.
pub proof fn lemma_next_entry_target(lead: Seq<char>, url: Seq<char>, gap: Seq<char>)
    requires
        blank(lead),
        blank(gap),
        plain_target(url),
    ensures
        link_target(next_entry(lead, url, gap)) == Some(url),
        !next_entry(lead, url, gap).contains(','),
{
    reveal_strlit("rel=\"next\"");
    let marker = "rel=\"next\""@;
    let bracketed = seq!['<'] + url + seq!['>'];
    let left = lead + bracketed;
    let right = gap + marker;
    let entry = next_entry(lead, url, gap);
    assert(entry =~= left + seq![';'] + right);
    assert forall|j: int| 0 <= j < marker.len() implies marker[j] != ';' && marker[j] != ',' by {}
    assert(!left.contains(';') && !left.contains(',')) by {
        assert forall|j: int| 0 <= j < left.len() implies left[j] != ';' && left[j] != ',' by {
            if j < lead.len() {
                assert(left[j] == lead[j]);
            } else if lead.len() < j < left.len() - 1 {
                assert(left[j] == url[j - lead.len() - 1]);
                assert(url.contains(url[j - lead.len() - 1]));
            }
        }
    }
    assert(!right.contains(';') && !right.contains(',')) by {
        assert forall|j: int| 0 <= j < right.len() implies right[j] != ';' && right[j] != ',' by {
            if j < gap.len() {
                assert(right[j] == gap[j]);
            } else {
                assert(right[j] == marker[j - gap.len()]);
            }
        }
    }
    assert(!entry.contains(',')) by {
        assert forall|j: int| 0 <= j < entry.len() implies entry[j] != ',' by {
            if j < left.len() {
                assert(entry[j] == left[j]);
                assert(left.contains(left[j]));
            } else if j > left.len() {
                assert(entry[j] == right[j - left.len() - 1]);
                assert(right.contains(right[j - left.len() - 1]));
            }
        }
    }
    crate::text::lemma_split_first(left, ';', right);
    crate::text::lemma_split_whole(right, ';');
    assert(split(entry, ';') =~= seq![left, right]);
    // The relation.
    assert forall|j: int| 0 <= j < gap.len() implies crate::text::is_space(#[trigger] gap[j]) by {}
    assert(marker[0] == 'r' && marker.last() == '"');
    crate::text::lemma_trim_padded(gap, marker);
    // The target.
    assert forall|j: int| 0 <= j < lead.len() implies crate::text::is_space(
        #[trigger] lead[j],
    ) by {}
    assert(bracketed[0] == '<' && bracketed.last() == '>');
    crate::text::lemma_trim_padded(lead, bracketed);
    let opened = url + seq!['>'];
    crate::text::lemma_leading_is(bracketed, only('<'), 1);
    assert(bracketed.skip(1) =~= opened);
    assert(trim_start(bracketed, only('<')) == opened);
    assert(opened.len() == url.len() + 1);
    assert(opened.last() == '>');
    if url.len() > 0 {
        assert(opened[opened.len() - 2] == url.last());
    }
    crate::text::lemma_trailing_is(opened, only('>'), 1);
    assert(opened.take(opened.len() - 1) =~= url);
}

/// A header whose first entry names the next page gives that page,
/// whatever entries follow.
pub proof fn lemma_next_entry_first(url: Seq<char>, others: Seq<char>)
    requires
        plain_target(url),
    ensures
        next_link(next_entry(Seq::empty(), url, seq![' '])) == Some(url),
        next_link(next_entry(Seq::empty(), url, seq![' ']) + seq![','] + others) == Some(url),
{
    let entry = next_entry(Seq::empty(), url, seq![' ']);
    lemma_next_entry_target(Seq::empty(), url, seq![' ']);
    crate::text::lemma_split_whole(entry, ',');
    crate::text::lemma_split_first(entry, ',', others);
    assert(split(entry, ',')[0] == entry);
    assert(split(entry + seq![','] + others, ',')[0] == entry);
}

/// The first target of `entries` is the target of the first entry that has
/// one.
proof fn lemma_first_target(entries: Seq<Seq<char>>)
    ensures
        match first_target(entries) {
            Some(url) => exists|k: int|
                0 <= k < entries.len() && link_target(#[trigger] entries[k]) == Some(url)
                    && forall|j: int| 0 <= j < k ==> link_target(#[trigger] entries[j]) is None,
            None => forall|k: int|
                0 <= k < entries.len() ==> link_target(#[trigger] entries[k]) is None,
        },
    decreases entries.len(),
{
    if entries.len() > 0 {
        let rest = entries.drop_first();
        match link_target(entries[0]) {
            Some(url) => {
                assert(link_target(entries[0]) == Some(url));
            },
            None => {
                lemma_first_target(rest);
                match first_target(rest) {
                    Some(url) => {
                        let k = choose|k: int|
                            0 <= k < rest.len() && link_target(#[trigger] rest[k]) == Some(url)
                                && forall|j: int|
                                0 <= j < k ==> link_target(#[trigger] rest[j]) is None;
                        assert(entries[k + 1] == rest[k]);
                        assert forall|j: int| 0 <= j < k + 1 implies link_target(
                            #[trigger] entries[j],
                        ) is None by {
                            if j > 0 {
                                assert(entries[j] == rest[j - 1]);
                            }
                        }
                    },
                    None => {
                        assert forall|k: int| 0 <= k < entries.len() implies link_target(
                            #[trigger] entries[k],
                        ) is None by {
                            if k > 0 {
                                assert(entries[k] == rest[k - 1]);
                            }
                        }
                    },
                }
            },
        }
    }
}

/// The views of a vector of strings, in order.
pub open spec fn texts(parts: Seq<String>) -> Seq<Seq<char>> {
    Seq::new(parts.len(), |i: int| parts[i]@)
}

/// The text of a failure reply.
fn failure_message(body: Option<String>) -> (r: String)
    ensures
        r@ == failure_text(text_view(body)),
{
    match body {
        Some(b) => b,
        None => String::from_str("Failed to read error body"),
    }
}

/// Whether `status` reports success.
pub fn is_success(status: u16) -> (b: bool)
    ensures
        b == is_success_code(status),
{
    200 <= status && status < 300
}

/// The failure that a reply outside the 2xx range stands for: exhausted
/// quota, a missing resource, or the status and body as they came.
///
/// Only status 403 with the phrase `rate limit exceeded` in its body is
/// exhausted quota; any other 403 is an API error like every other status
/// but 404.
pub fn classify_failure(status: u16, body: Option<String>) -> (e: DataError)
    ensures
        e@ == failure_of(status, text_view(body)),
        e@ is RateLimitError <==> status == 403 && contains(
            failure_text(text_view(body)),
            "rate limit exceeded"@,
        ),
        e@ is NotFoundError <==> status == 404,
        !(e@ is RateLimitError) && status != 404 ==> e@ == (DataErrorView::GitHubApiError {
            status,
            message: failure_text(text_view(body)),
        }),
{
    let text = failure_message(body);
    if status == 403 {
        let chars = to_chars(text.as_str());
        let phrase = to_chars("rate limit exceeded");
        if contains_chars(&chars, &phrase) {
            return DataError::RateLimitError;
        }
    }
    if status == 404 {
        DataError::NotFoundError
    } else {
        DataError::GitHubApiError { status, message: text }
    }
}

/// What a sent request yields: the body of a successful reply, or the
/// failure that the reply or the transport stands for.
pub fn reply_body(sent: Result<HttpReply, String>) -> (r: Result<String, DataError>)
    ensures
        match r {
            Ok(body) => body_of(sent_view(sent)) == Ok::<Seq<char>, DataErrorView>(body@),
            Err(e) => body_of(sent_view(sent)) == Err::<Seq<char>, DataErrorView>(e@),
        },
{
    match sent {
        Err(complaint) => Err(DataError::RequestError(complaint)),
        Ok(reply) => {
            if !is_success(reply.status) {
                Err(classify_failure(reply.status, reply.body))
            } else {
                match reply.body {
                    Some(b) => Ok(b),
                    None => Err(
                        DataError::RequestError(String::from_str("Failed to read response body")),
                    ),
                }
            }
        },
    }
}

/// The URL that one entry of a `Link` header points to, where the entry
/// names the next page.
fn entry_target(entry: &Vec<char>, marker: &Vec<char>) -> (r: Option<Vec<char>>)
    requires
        marker@ == "rel=\"next\""@,
    ensures
        match r {
            Some(t) => link_target(entry@) == Some(t@),
            None => link_target(entry@) is None,
        },
{
    let fields = split_on(entry, ';');
    assert(views(fields@).len() == fields@.len());
    if fields.len() == 2 {
        assert(views(fields@)[0] == fields@[0]@);
        assert(views(fields@)[1] == fields@[1]@);
        let relation = trim_chars(&fields[1]);
        if same_chars(&relation, marker) {
            let first = trim_chars(&fields[0]);
            let opened = trim_start_char(&first, '<');
            let target = trim_end_char(&opened, '>');
            return Some(target);
        }
    }
    None
}

/// The URL of the next page that a `Link` header names.
///
/// The header is a comma-separated list of `<url>; rel="name"` entries; the
/// result is the URL of the first entry whose relation is `next`, without
/// its angle brackets, or `None` where no entry has that relation.
pub fn parse_link_header(link_header: &str) -> (r: Option<String>)
    ensures
        text_view(r) == next_link(link_header@),
{
    let chars = to_chars(link_header);
    let entries = split_on(&chars, ',');
    let marker = to_chars("rel=\"next\"");
    let ghost all = views(entries@);
    let mut i: usize = 0;
    assert(all.skip(0) =~= all);
    while i < entries.len()
        invariant
            i <= entries.len(),
            all == views(entries@),
            all == split(link_header@, ','),
            marker@ == "rel=\"next\""@,
            first_target(all) == first_target(all.skip(i as int)),
        decreases entries.len() - i,
    {
        proof {
            assert(all.skip(i as int)[0] == entries@[i as int]@);
            assert(all.skip(i as int).drop_first() =~= all.skip(i + 1));
        }
        match entry_target(&entries[i], &marker) {
            Some(target) => {
                assert(first_target(all.skip(i as int)) == Some(target@));
                return Some(to_string(&target));
            },
            None => {},
        }
        i = i + 1;
    }
    assert(all.skip(i as int).len() == 0);
    None
}

/// `url` with the page size as one more query parameter.
pub fn with_page_size(url: &str) -> (r: String)
    ensures
        r@ == paged_url(url@),
{
    let chars = to_chars(url);
    let mut r = String::from_str(url);
    if has_char(&chars, '?') {
        r.append("&per_page=100");
    } else {
        r.append("?per_page=100");
    }
    r
}

/// `parts` with `sep` between neighbours.
fn join_with(parts: &Vec<String>, sep: &str) -> (r: String)
    ensures
        r@ == join(texts(parts@), sep@),
{
    let mut r = String::new();
    let mut i: usize = 0;
    let ghost all = texts(parts@);
    assert(all.take(0) =~= Seq::<Seq<char>>::empty());
    while i < parts.len()
        invariant
            i <= parts.len(),
            all == texts(parts@),
            r@ == join(all.take(i as int), sep@),
        decreases parts.len() - i,
    {
        proof {
            let next = all.take(i + 1);
            assert(next.drop_last() =~= all.take(i as int));
            assert(next.last() == parts@[i as int]@);
            if i == 0 {
                assert(r@ =~= Seq::<char>::empty());
                assert(Seq::<char>::empty() + parts@[0]@ =~= parts@[0]@);
            }
        }
        if i > 0 {
            r.append(sep);
        }
        r.append(parts[i].as_str());
        i = i + 1;
    }
    assert(all.take(i as int) =~= all);
    r
}

/// Appends `key=value` to `params` where a value is given.
fn push_param(params: &mut Vec<String>, key: &str, value: Option<String>)
    ensures
        texts(final(params)@) == texts(old(params)@) + param(key@, text_view(value)),
{
    match value {
        Some(v) => {
            let mut p = String::from_str(key);
            p.append("=");
            p.append(v.as_str());
            params.push(p);
            assert(texts(params@) =~= texts(old(params)@) + param(key@, text_view(value)));
        },
        None => {
            assert(texts(params@) =~= texts(old(params)@) + param(key@, text_view(value)));
        },
    }
}

/// The URL of `resource` of one repository, with `params` as its query.
fn endpoint(owner: &str, name: &str, resource: &str, params: &Vec<String>) -> (r: String)
    ensures
        r@ == repo_url(owner@, name@, resource@) + query(texts(params@)),
{
    let mut r = String::from_str(GITHUB_API_BASE_URL);
    r.append("/repos/");
    r.append(owner);
    r.append("/");
    r.append(name);
    r.append(resource);
    assert(texts(params@).len() == params@.len());
    if params.len() > 0 {
        let joined = join_with(params, "&");
        r.append("?");
        r.append(joined.as_str());
    }
    assert(r@ =~= repo_url(owner@, name@, resource@) + query(texts(params@)));
    r
}

/// A copy of an optional string.
fn copy_text(value: &Option<String>) -> (r: Option<String>)
    ensures
        text_view(r) == text_view(*value),
{
    match value {
        Some(v) => Some(v.clone()),
        None => None,
    }
}

/// The request for `url` under `token`.
fn request(token: &Option<String>, url: &str) -> (r: HttpRequest)
    ensures
        r@ == request_for(text_view(*token), url@),
{
    let mut headers: Vec<HttpHeader> = Vec::new();
    headers.push(
        HttpHeader {
            name: String::from_str("User-Agent"),
            value: String::from_str("corevsknots-data-loader"),
        },
    );
    headers.push(
        HttpHeader {
            name: String::from_str("Accept"),
            value: String::from_str("application/vnd.github.v3+json"),
        },
    );
    match token {
        Some(t) => {
            let mut value = String::from_str("token ");
            value.append(t.as_str());
            headers.push(HttpHeader { name: String::from_str("Authorization"), value });
        },
        None => {},
    }
    let r = HttpRequest { url: String::from_str(url), headers };
    assert(r@.headers =~= headers_for(text_view(*token)));
    r
}

/// What the caller of a fetch is to do next.
#[derive(Debug, PartialEq, Eq)]
pub enum FetchAction {
    /// Send this request and report what came back.
    Send(HttpRequest),
    /// Decode this body as a list of records and report them.
    Decode(String),
    /// Nothing more: take the result.
    Finish,
}

/// The mathematical value of a [`FetchAction`].
pub enum FetchActionView {
    Send(HttpRequestView),
    Decode(Seq<char>),
    Finish,
}

impl View for FetchAction {
    type V = FetchActionView;

    open spec fn view(&self) -> FetchActionView {
        match *self {
            FetchAction::Send(request) => FetchActionView::Send(request@),
            FetchAction::Decode(body) => FetchActionView::Decode(body@),
            FetchAction::Finish => FetchActionView::Finish,
        }
    }
}

/// Where a fetch stands.
#[derive(Debug, PartialEq, Eq)]
enum PagePhase {
    Request(String),
    Decode { body: String, next: Option<String> },
    Done,
    Failed(DataError),
}

/// Where a fetch stands, as a mathematical value.
pub enum PagePhaseView {
    /// The page at this URL is to be requested.
    Request(Seq<char>),
    /// This body is to be decoded; `next` is the page after it, if any.
    Decode { body: Seq<char>, next: Option<Seq<char>> },
    /// Every page is in.
    Done,
    /// The fetch has failed.
    Failed(DataErrorView),
}

/// A fetch of one listing, page by page.
#[derive(Debug, PartialEq, Eq)]
pub struct Pager<T> {
    token: Option<String>,
    phase: PagePhase,
    items: Vec<T>,
}

/// The mathematical value of a [`Pager`].
pub struct PagerView<T> {
    /// The credential that goes out with every request.
    pub token: Option<Seq<char>>,
    /// Where the fetch stands.
    pub phase: PagePhaseView,
    /// The records of the pages taken in so far, in the host's order.
    pub items: Seq<T>,
}

impl<T> View for Pager<T> {
    type V = PagerView<T>;

    closed spec fn view(&self) -> PagerView<T> {
        PagerView {
            token: text_view(self.token),
            phase: match self.phase {
                PagePhase::Request(url) => PagePhaseView::Request(url@),
                PagePhase::Decode { body, next } => PagePhaseView::Decode {
                    body: body@,
                    next: text_view(next),
                },
                PagePhase::Done => PagePhaseView::Done,
                PagePhase::Failed(e) => PagePhaseView::Failed(e@),
            },
            items: self.items@,
        }
    }
}

/// A fetch that has yet to request its first page, at `url`.
pub open spec fn start_of<T>(token: Option<Seq<char>>, url: Seq<char>) -> PagerView<T> {
    PagerView { token, phase: PagePhaseView::Request(url), items: Seq::empty() }
}

/// What a fetch asks of its caller.
pub open spec fn action_of<T>(p: PagerView<T>) -> FetchActionView {
    match p.phase {
        PagePhaseView::Request(url) => FetchActionView::Send(request_for(p.token, paged_url(url))),
        PagePhaseView::Decode { body, next } => FetchActionView::Decode(body),
        PagePhaseView::Done => FetchActionView::Finish,
        PagePhaseView::Failed(e) => FetchActionView::Finish,
    }
}

/// The fetch after what sending its request gave. Only a fetch that waits
/// for a reply takes one.
pub open spec fn after_reply<T>(p: PagerView<T>, sent: Result<HttpReplyView, Seq<char>>) -> PagerView<
    T,
> {
    match p.phase {
        PagePhaseView::Request(url) => match body_of(sent) {
            Err(e) => PagerView { phase: PagePhaseView::Failed(e), ..p },
            Ok(body) => PagerView {
                phase: PagePhaseView::Decode { body, next: next_of(sent->Ok_0.link) },
                ..p
            },
        },
        _ => p,
    }
}

/// The fetch after its caller decoded a body. An empty page ends the fetch
/// whatever the reply named as next; any other page is appended, and the
/// fetch goes on where the reply named a next page.
pub open spec fn after_decoded<T>(p: PagerView<T>, decoded: Result<Seq<T>, Seq<char>>) -> PagerView<
    T,
> {
    match p.phase {
        PagePhaseView::Decode { body, next } => match decoded {
            Err(complaint) => PagerView {
                phase: PagePhaseView::Failed(DataErrorView::JsonError(complaint)),
                ..p
            },
            Ok(items) => if items.len() == 0 {
                PagerView { phase: PagePhaseView::Done, ..p }
            } else {
                PagerView {
                    phase: match next {
                        Some(url) => PagePhaseView::Request(url),
                        None => PagePhaseView::Done,
                    },
                    items: p.items + items,
                    ..p
                }
            },
        },
        _ => p,
    }
}

/// What a fetch has to give: nothing while pages are outstanding.
pub open spec fn outcome_of<T>(p: PagerView<T>) -> Option<Result<Seq<T>, DataErrorView>> {
    match p.phase {
        PagePhaseView::Done => Some(Ok(p.items)),
        PagePhaseView::Failed(e) => Some(Err(e)),
        _ => None,
    }
}

/// The value of what decoding gave.
pub open spec fn decoded_view<T>(decoded: Result<Vec<T>, String>) -> Result<Seq<T>, Seq<char>> {
    match decoded {
        Ok(items) => Ok(items@),
        Err(complaint) => Err(complaint@),
    }
}

/// The value of what a fetch gave.
pub open spec fn outcome_view<T>(outcome: Option<Result<Vec<T>, DataError>>) -> Option<
    Result<Seq<T>, DataErrorView>,
> {
    match outcome {
        Some(Ok(items)) => Some(Ok(items@)),
        Some(Err(e)) => Some(Err(e@)),
        None => None,
    }
}

impl<T> Pager<T> {
    /// What the caller is to do next: send the request for the page that is
    /// due, with the page size in its query; decode the body that came; or
    /// take the result.
    pub fn action(&self) -> (a: FetchAction)
        ensures
            a@ == action_of(self@),
    {
        match &self.phase {
            PagePhase::Request(url) => {
                let full = with_page_size(url.as_str());
                FetchAction::Send(request(&self.token, full.as_str()))
            },
            PagePhase::Decode { body, next } => FetchAction::Decode(body.clone()),
            PagePhase::Done => FetchAction::Finish,
            PagePhase::Failed(e) => FetchAction::Finish,
        }
    }

    /// Takes in what sending the request gave.
    pub fn on_reply(self, sent: Result<HttpReply, String>) -> (r: Pager<T>)
        ensures
            r@ == after_reply(self@, sent_view(sent)),
    {
        match self.phase {
            PagePhase::Request(url) => {
                let next = match &sent {
                    Ok(reply) => match &reply.link {
                        Some(header) => parse_link_header(header.as_str()),
                        None => None,
                    },
                    Err(_) => None,
                };
                match reply_body(sent) {
                    Ok(body) => Pager {
                        token: self.token,
                        phase: PagePhase::Decode { body, next },
                        items: self.items,
                    },
                    Err(e) => Pager {
                        token: self.token,
                        phase: PagePhase::Failed(e),
                        items: self.items,
                    },
                }
            },
            _ => self,
        }
    }

    /// Takes in the records that the caller decoded from a body, or the
    /// decoder's complaint.
    pub fn on_decoded(self, decoded: Result<Vec<T>, String>) -> (r: Pager<T>)
        ensures
            r@ == after_decoded(self@, decoded_view(decoded)),
    {
        match self.phase {
            PagePhase::Decode { body, next } => match decoded {
                Err(complaint) => Pager {
                    token: self.token,
                    phase: PagePhase::Failed(DataError::JsonError(complaint)),
                    items: self.items,
                },
                Ok(page) => {
                    if page.len() == 0 {
                        Pager { token: self.token, phase: PagePhase::Done, items: self.items }
                    } else {
                        let mut items = self.items;
                        let mut page = page;
                        items.append(&mut page);
                        let phase = match next {
                            Some(url) => PagePhase::Request(url),
                            None => PagePhase::Done,
                        };
                        Pager { token: self.token, phase, items }
                    }
                },
            },
            _ => self,
        }
    }

    /// The records of the pages taken in so far, in the host's order. A
    /// caller that has seen enough may stop here and leave the fetch.
    pub fn collected(&self) -> (items: &Vec<T>)
        ensures
            items@ == self@.items,
    {
        &self.items
    }

    /// Every record of the listing once the fetch is done, the failure once
    /// it has failed, and `None` while pages are outstanding.
    pub fn into_result(self) -> (r: Option<Result<Vec<T>, DataError>>)
        ensures
            outcome_view(r) == outcome_of(self@),
    {
        match self.phase {
            PagePhase::Done => Some(Ok(self.items)),
            PagePhase::Failed(e) => Some(Err(e)),
            _ => None,
        }
    }
}

/// One page as the host serves it: the reply, and the records in its body.
pub struct PageView<T> {
    pub reply: HttpReplyView,
    pub items: Seq<T>,
}

/// Whether the page arrives as a readable, successful reply.
pub open spec fn served<T>(page: PageView<T>) -> bool {
    is_success_code(page.reply.status) && page.reply.body is Some
}

/// Whether another page follows: the page holds records and names a next
/// page.
pub open spec fn continues<T>(page: PageView<T>) -> bool {
    page.items.len() > 0 && next_of(page.reply.link) is Some
}

/// The fetch after one page was sent for and decoded.
pub open spec fn after_page<T>(p: PagerView<T>, page: PageView<T>) -> PagerView<T> {
    after_decoded(after_reply(p, Ok(page.reply)), Ok(page.items))
}

/// The fetch after `pages`, in order.
pub open spec fn after_pages<T>(p: PagerView<T>, pages: Seq<PageView<T>>) -> PagerView<T>
    decreases pages.len(),
{
    if pages.len() == 0 {
        p
    } else {
        after_page(after_pages(p, pages.drop_last()), pages.last())
    }
}

/// The records of `pages`, one page after the other.
pub open spec fn all_items<T>(pages: Seq<PageView<T>>) -> Seq<T>
    decreases pages.len(),
{
    if pages.len() == 0 {
        Seq::empty()
    } else {
        all_items(pages.drop_last()) + pages.last().items
    }
}

/// The URL of page `k` of a listing that starts at `url`.
pub open spec fn page_url<T>(url: Seq<char>, pages: Seq<PageView<T>>, k: int) -> Seq<char> {
    if k <= 0 {
        url
    } else {
        next_of(pages[k - 1].reply.link)->0
    }
}

/// While every page is served and names a successor, the fetch holds the
/// records so far and asks for the page that the last reply named.
pub proof fn lemma_pages_in_progress<T>(
    token: Option<Seq<char>>,
    url: Seq<char>,
    pages: Seq<PageView<T>>,
)
    requires
        forall|i: int| 0 <= i < pages.len() ==> served(#[trigger] pages[i]),
        forall|i: int| 0 <= i < pages.len() ==> continues(#[trigger] pages[i]),
    ensures
        after_pages(start_of(token, url), pages) == (PagerView {
            token,
            phase: PagePhaseView::Request(page_url(url, pages, pages.len() as int)),
            items: all_items(pages),
        }),
    decreases pages.len(),
{
    if pages.len() > 0 {
        let before = pages.drop_last();
        let last = pages.last();
        assert forall|i: int| 0 <= i < before.len() implies served(#[trigger] before[i])
            && continues(before[i]) by {
            assert(before[i] == pages[i]);
        }
        lemma_pages_in_progress(token, url, before);
        assert(served(last) && continues(last));
        if before.len() > 0 {
            assert(before[before.len() - 1] == pages[pages.len() - 2]);
        }
    }
}

/// Pagination is complete: a listing that the host serves as `pages`, each
/// but the last holding records and naming a successor, is fetched as the
/// records of all pages in the host's order. The fetch asks for page `k` at
/// the URL that page `k - 1` named, goes on after every page but the last,
/// and is done exactly after the last: the first page that is empty or
/// names no successor.
pub proof fn lemma_pagination_complete<T>(
    token: Option<Seq<char>>,
    url: Seq<char>,
    pages: Seq<PageView<T>>,
)
    requires
        pages.len() > 0,
        forall|i: int| 0 <= i < pages.len() ==> served(#[trigger] pages[i]),
        forall|i: int| 0 <= i < pages.len() - 1 ==> continues(#[trigger] pages[i]),
        !continues(pages.last()),
    ensures
        outcome_of(after_pages(start_of(token, url), pages)) == Some(
            Ok::<Seq<T>, DataErrorView>(all_items(pages)),
        ),
        forall|k: int|
            0 <= k < pages.len() ==> #[trigger] action_of(
                after_pages(start_of::<T>(token, url), pages.take(k)),
            ) == FetchActionView::Send(request_for(token, paged_url(page_url(url, pages, k)))),
{
    let before = pages.drop_last();
    let last = pages.last();
    assert forall|i: int| 0 <= i < before.len() implies served(#[trigger] before[i]) && continues(
        before[i],
    ) by {
        assert(before[i] == pages[i]);
    }
    lemma_pages_in_progress(token, url, before);
    assert(served(last));
    if last.items.len() == 0 {
        assert(all_items(before) + last.items =~= all_items(before));
    }
    assert forall|k: int| 0 <= k < pages.len() implies #[trigger] action_of(
        after_pages(start_of::<T>(token, url), pages.take(k)),
    ) == FetchActionView::Send(request_for(token, paged_url(page_url(url, pages, k)))) by {
        let prefix = pages.take(k);
        assert forall|i: int| 0 <= i < prefix.len() implies served(#[trigger] prefix[i])
            && continues(prefix[i]) by {
            assert(prefix[i] == pages[i]);
        }
        lemma_pages_in_progress(token, url, prefix);
        if k > 0 {
            assert(prefix[k - 1] == pages[k - 1]);
        }
    }
}

/// A fetch fails as a whole. Where the pages so far were taken in and the
/// next request fails in transport, is answered outside the 2xx range or
/// comes back unreadable, the fetch gives that failure and no records; so
/// it does where the body of the next page cannot be decoded.
pub proof fn lemma_failure_ends_fetch<T>(
    token: Option<Seq<char>>,
    url: Seq<char>,
    pages: Seq<PageView<T>>,
    sent: Result<HttpReplyView, Seq<char>>,
    complaint: Seq<char>,
)
    requires
        forall|i: int| 0 <= i < pages.len() ==> served(#[trigger] pages[i]),
        forall|i: int| 0 <= i < pages.len() ==> continues(#[trigger] pages[i]),
    ensures
        body_of(sent) matches Err(e) ==> outcome_of(
            after_reply(after_pages(start_of::<T>(token, url), pages), sent),
        ) == Some(Err::<Seq<T>, DataErrorView>(e)),
        body_of(sent) is Ok ==> outcome_of(
            after_decoded(
                after_reply(after_pages(start_of::<T>(token, url), pages), sent),
                Err(complaint),
            ),
        ) == Some(Err::<Seq<T>, DataErrorView>(DataErrorView::JsonError(complaint))),
{
    lemma_pages_in_progress(token, url, pages);
}

/// The client: the credential under which requests go out.
#[derive(Debug, PartialEq, Eq)]
pub struct GitHubClient {
    token: Option<String>,
}

impl GitHubClient {
    /// The credential, if there is one.
    pub closed spec fn credential(&self) -> Option<Seq<char>> {
        text_view(self.token)
    }

    /// A client that sends `token` with every request, or none.
    pub fn new(token: Option<String>) -> (client: GitHubClient)
        ensures
            client.credential() == text_view(token),
    {
        GitHubClient { token }
    }

    /// The request for `url`: the fixed headers, and the credential where
    /// there is one.
    pub fn get(&self, url: &str) -> (r: HttpRequest)
        ensures
            r@ == request_for(self.credential(), url@),
    {
        request(&self.token, url)
    }

    /// A fetch of the listing at `url`, about to request its first page.
    pub fn get_paginated<T>(&self, url: &str) -> (pager: Pager<T>)
        ensures
            pager@ == start_of::<T>(self.credential(), url@),
    {
        Pager {
            token: copy_text(&self.token),
            phase: PagePhase::Request(String::from_str(url)),
            items: Vec::new(),
        }
    }

    /// The request for the description of a repository.
    pub fn get_repo_info(&self, repo_owner: &str, repo_name: &str) -> (r: HttpRequest)
        ensures
            r@ == request_for(self.credential(), repo_url(repo_owner@, repo_name@, Seq::empty())),
    {
        let params: Vec<String> = Vec::new();
        let url = endpoint(repo_owner, repo_name, "", &params);
        proof {
            reveal_strlit("");
            assert(texts(params@).len() == 0);
            assert(url@ =~= repo_url(repo_owner@, repo_name@, Seq::empty()));
        }
        self.get(url.as_str())
    }

    /// A fetch of the commits of a repository, narrowed to those after
    /// `since`, before `until`, and reachable from `branch_or_sha` where
    /// these are given.
    pub fn get_commits(
        &self,
        repo_owner: &str,
        repo_name: &str,
        since: Option<String>,
        until: Option<String>,
        branch_or_sha: Option<String>,
    ) -> (pager: Pager<crate::records::GitHubCommit>)
        ensures
            pager@ == start_of::<crate::records::GitHubCommit>(
                self.credential(),
                commits_url(
                    repo_owner@,
                    repo_name@,
                    text_view(since),
                    text_view(until),
                    text_view(branch_or_sha),
                ),
            ),
    {
        let mut params: Vec<String> = Vec::new();
        assert(texts(params@) =~= Seq::<Seq<char>>::empty());
        push_param(&mut params, "since", since);
        push_param(&mut params, "until", until);
        push_param(&mut params, "sha", branch_or_sha);
        assert(texts(params@) =~= param("since"@, text_view(since)) + param(
            "until"@,
            text_view(until),
        ) + param("sha"@, text_view(branch_or_sha)));
        let url = endpoint(repo_owner, repo_name, "/commits", &params);
        self.get_paginated(url.as_str())
    }

    /// A fetch of the pull requests of a repository: those in `state`, or
    /// in any state where none is named.
    pub fn get_pull_requests(
        &self,
        repo_owner: &str,
        repo_name: &str,
        state: Option<String>,
        sort: Option<String>,
        direction: Option<String>,
    ) -> (pager: Pager<crate::records::GitHubPullRequest>)
        ensures
            pager@ == start_of::<crate::records::GitHubPullRequest>(
                self.credential(),
                pulls_url(
                    repo_owner@,
                    repo_name@,
                    text_view(state),
                    text_view(sort),
                    text_view(direction),
                ),
            ),
    {
        let mut params: Vec<String> = Vec::new();
        params.push(state_param(state));
        assert(texts(params@) =~= seq!["state="@ + or_text(text_view(state), "all"@)]);
        push_param(&mut params, "sort", sort);
        push_param(&mut params, "direction", direction);
        let url = endpoint(repo_owner, repo_name, "/pulls", &params);
        self.get_paginated(url.as_str())
    }

    /// A fetch of the issues of a repository: those in `state`, or in any
    /// state where none is named.
    pub fn get_issues(
        &self,
        repo_owner: &str,
        repo_name: &str,
        state: Option<String>,
        filter: Option<String>,
        since: Option<String>,
    ) -> (pager: Pager<crate::records::GitHubIssue>)
        ensures
            pager@ == start_of::<crate::records::GitHubIssue>(
                self.credential(),
                issues_url(
                    repo_owner@,
                    repo_name@,
                    text_view(state),
                    text_view(filter),
                    text_view(since),
                ),
            ),
    {
        let mut params: Vec<String> = Vec::new();
        params.push(state_param(state));
        assert(texts(params@) =~= seq!["state="@ + or_text(text_view(state), "all"@)]);
        push_param(&mut params, "filter", filter);
        push_param(&mut params, "since", since);
        let url = endpoint(repo_owner, repo_name, "/issues", &params);
        self.get_paginated(url.as_str())
    }

    /// A fetch of the contributors of a repository.
    pub fn get_contributors(&self, repo_owner: &str, repo_name: &str) -> (pager: Pager<
        crate::records::GitHubContributor,
    >)
        ensures
            pager@ == start_of::<crate::records::GitHubContributor>(
                self.credential(),
                repo_url(repo_owner@, repo_name@, "/contributors"@),
            ),
    {
        let params: Vec<String> = Vec::new();
        let url = endpoint(repo_owner, repo_name, "/contributors", &params);
        proof {
            assert(texts(params@).len() == 0);
            assert(url@ =~= repo_url(repo_owner@, repo_name@, "/contributors"@));
        }
        self.get_paginated(url.as_str())
    }
}

/// The `state` parameter: the named state, or every state.
fn state_param(state: Option<String>) -> (r: String)
    ensures
        r@ == "state="@ + or_text(text_view(state), "all"@),
{
    let mut r = String::from_str("state=");
    match state {
        Some(s) => r.append(s.as_str()),
        None => r.append("all"),
    }
    r
}

} // verus!
