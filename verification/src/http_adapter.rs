//! The notification endpoint's side of the wire: how a request is put
//! together and how a response is judged.

use vstd::prelude::*;
use vstd::string::StringExecFns;

verus! {

#[derive(Clone, Copy, Debug, PartialEq, Eq, Structural)]
pub enum HttpMethod {
    Get,
    Post,
    Put,
    Delete,
}

/// One header line.
#[derive(Debug, PartialEq, Eq)]
pub struct Header {
    pub name: String,
    pub value: String,
}

/// Header lines as pairs of name and value.
pub type HeaderLines = Seq<(Seq<char>, Seq<char>)>;

/// The lines that a vector of headers holds.
pub open spec fn lines_of(headers: Seq<Header>) -> HeaderLines {
    Seq::new(headers.len(), |i: int| (headers[i].name@, headers[i].value@))
}

/// No name occurs on two lines.
pub open spec fn distinct_names(lines: HeaderLines) -> bool {
    forall|i: int, j: int| 0 <= i < j < lines.len() ==> lines[i].0 != lines[j].0
}

/// The line on which `name` stands, the last such line if there are several.
pub open spec fn line_of(lines: HeaderLines, name: Seq<char>) -> Option<int>
    decreases lines.len(),
{
    if lines.len() == 0 {
        None
    } else if lines.last().0 == name {
        Some(lines.len() - 1)
    } else {
        line_of(lines.drop_last(), name)
    }
}

/// The value that `lines` gives to `name`, if any.
pub open spec fn lookup(lines: HeaderLines, name: Seq<char>) -> Option<Seq<char>> {
    match line_of(lines, name) {
        Some(i) => Some(lines[i].1),
        None => None,
    }
}

/// `lines` with `name` set to `value`: the line of that name is rewritten
/// where it stands, and a new name goes to the end.
pub open spec fn upsert(lines: HeaderLines, name: Seq<char>, value: Seq<char>) -> HeaderLines {
    match line_of(lines, name) {
        Some(i) => lines.update(i, (name, value)),
        None => lines.push((name, value)),
    }
}

/// `line_of` finds a line of the name wherever there is one.
pub proof fn lemma_line_of(lines: HeaderLines, name: Seq<char>)
    ensures
        line_of(lines, name) matches Some(i) ==> 0 <= i < lines.len() && lines[i].0 == name,
        line_of(lines, name) is None ==> forall|j: int|
            0 <= j < lines.len() ==> lines[j].0 != name,
    decreases lines.len(),
{
    if lines.len() > 0 && lines.last().0 != name {
        let front = lines.drop_last();
        lemma_line_of(front, name);
        if line_of(lines, name) is None {
            assert forall|j: int| 0 <= j < lines.len() implies lines[j].0 != name by {
                if j < front.len() {
                    assert(front[j] == lines[j]);
                }
            }
        }
    }
}

/// Which line a name stands on depends on the names alone.
pub proof fn lemma_line_of_names(a: HeaderLines, b: HeaderLines, name: Seq<char>)
    requires
        a.len() == b.len(),
        forall|j: int| 0 <= j < a.len() ==> a[j].0 == b[j].0,
    ensures
        line_of(a, name) == line_of(b, name),
    decreases a.len(),
{
    if a.len() > 0 && a.last().0 != name {
        lemma_line_of_names(a.drop_last(), b.drop_last(), name);
    }
}

/// Setting a name that stands on line `i` rewrites that line.
pub proof fn lemma_upsert_present(lines: HeaderLines, i: int, name: Seq<char>, value: Seq<char>)
    requires
        distinct_names(lines),
        0 <= i < lines.len(),
        lines[i].0 == name,
    ensures
        upsert(lines, name, value) == lines.update(i, (name, value)),
        distinct_names(upsert(lines, name, value)),
{
    lemma_line_of(lines, name);
}

/// Setting a name that stands on no line appends a line.
pub proof fn lemma_upsert_absent(lines: HeaderLines, name: Seq<char>, value: Seq<char>)
    requires
        distinct_names(lines),
        forall|i: int| 0 <= i < lines.len() ==> lines[i].0 != name,
    ensures
        upsert(lines, name, value) == lines.push((name, value)),
        distinct_names(upsert(lines, name, value)),
{
    lemma_line_of(lines, name);
}

/// After a name is set, it reads back as the value given and every other
/// name reads as before.
pub proof fn law_header_reads_back(
    lines: HeaderLines,
    name: Seq<char>,
    value: Seq<char>,
    other: Seq<char>,
)
    ensures
        lookup(upsert(lines, name, value), name) == Some(value),
        other != name ==> lookup(upsert(lines, name, value), other) == lookup(lines, other),
{
    lemma_line_of(lines, name);
    lemma_line_of(lines, other);
    match line_of(lines, name) {
        Some(i) => {
            let set = lines.update(i, (name, value));
            lemma_line_of_names(lines, set, name);
            lemma_line_of_names(lines, set, other);
        },
        None => {
            let set = lines.push((name, value));
            assert(set.drop_last() =~= lines);
        },
    }
}

/// A request, ready to be sent.
#[derive(Debug, PartialEq, Eq)]
pub struct HttpRequest {
    pub method: HttpMethod,
    pub url: String,
    pub headers: Vec<Header>,
    pub body: Option<String>,
}

pub ghost struct HttpRequestView {
    pub method: HttpMethod,
    pub url: Seq<char>,
    pub headers: HeaderLines,
    pub body: Option<Seq<char>>,
}

impl View for HttpRequest {
    type V = HttpRequestView;

    open spec fn view(&self) -> HttpRequestView {
        HttpRequestView {
            method: self.method,
            url: self.url@,
            headers: lines_of(self.headers@),
            body: match self.body {
                Some(b) => Some(b@),
                None => None,
            },
        }
    }
}

/// The text of `status` as the `http` crate prints a status code: the number
/// and the reason phrase that goes with it. `None` where the crate does not
/// take the number for a status code.
pub uninterp spec fn status_text(status: u16) -> Option<Seq<char>>;

/// Trusted: the `Display` of `reqwest::StatusCode`, reached through
/// `StatusCode::from_u16`. The text depends on the number alone, so it has a
/// name; `from_u16` takes exactly the numbers from 100 to 999.
#[verifier::external_body]
pub(crate) fn print_status(status: u16) -> (r: Option<String>)
    ensures
        r matches Some(text) ==> status_text(status) == Some(text@),
        r is None ==> status_text(status) is None,
        r is Some <==> 100 <= status < 1000,
{
    match reqwest::StatusCode::from_u16(status) {
        Ok(code) => Some(code.to_string()),
        Err(_) => None,
    }
}

/// A request that did not succeed.
#[derive(Clone, Copy, Debug, PartialEq, Eq, Structural)]
pub enum HttpError {
    /// No response came: the request could not be sent, or the response
    /// could not be read.
    Transport,
    /// The server answered with this status, which is outside 200 to 299.
    Status(u16),
}

impl HttpError {
    /// The sentence for this error, given the printed form of its status if
    /// it has one.
    pub open spec fn message_with(self, printed: Option<Seq<char>>) -> Seq<char> {
        match self {
            HttpError::Transport => "Failed to send request"@,
            HttpError::Status(_) => "Failed to send request, status code: "@ + match printed {
                Some(text) => text,
                None => "invalid status code"@,
            },
        }
    }

    /// The sentence for this error: for a status, the words about the failed
    /// request followed by the status as the `http` crate prints it.
    pub open spec fn message_spec(self) -> Seq<char> {
        match self {
            HttpError::Transport => self.message_with(None),
            HttpError::Status(status) => self.message_with(status_text(status)),
        }
    }

    /// The sentence for this error, given the printed form of its status.
    pub fn message_with_status(&self, printed: Option<String>) -> (r: String)
        ensures
            r@ == self.message_with(
                match printed {
                    Some(text) => Some(text@),
                    None => None,
                },
            ),
    {
        match self {
            HttpError::Transport => "Failed to send request".to_owned(),
            HttpError::Status(_) => {
                let mut sentence = "Failed to send request, status code: ".to_owned();
                match printed {
                    Some(text) => sentence.append(text.as_str()),
                    None => sentence.append("invalid status code"),
                }
                sentence
            },
        }
    }

    /// The sentence for this error.
    pub fn message(&self) -> (r: String)
        ensures
            r@ == self.message_spec(),
    {
        match self {
            HttpError::Transport => self.message_with_status(None),
            HttpError::Status(status) => self.message_with_status(print_status(*status)),
        }
    }
}

/// A status reports success when it lies in 200 to 299.
pub open spec fn is_success_spec(status: u16) -> bool {
    200 <= status < 300
}

pub fn is_success(status: u16) -> (r: bool)
    ensures
        r == is_success_spec(status),
{
    200 <= status && status < 300
}

/// The base address of an API and the headers that go with every request.
///
/// The headers are a map from name to value. They are held as lines, in the
/// order in which the names were first set, with no name on two lines:
/// setting a name again rewrites its line, as inserting into a map does, and
/// a request carries the lines in a fixed order.
#[derive(Debug, PartialEq, Eq)]
pub struct HttpAdapter {
    headers: Vec<Header>,
    base_url: String,
}

pub ghost struct HttpAdapterView {
    pub headers: HeaderLines,
    pub base_url: Seq<char>,
}

impl View for HttpAdapter {
    type V = HttpAdapterView;

    closed spec fn view(&self) -> HttpAdapterView {
        HttpAdapterView { headers: lines_of(self.headers@), base_url: self.base_url@ }
    }
}

impl HttpAdapterView {
    /// The request for `url`, which is taken relative to the base address.
    pub open spec fn request(
        self,
        method: HttpMethod,
        url: Seq<char>,
        body: Option<Seq<char>>,
    ) -> HttpRequestView {
        HttpRequestView { method, url: self.base_url + url, headers: self.headers, body }
    }
}

/// The view of an optional body.
pub open spec fn body_view(body: Option<&str>) -> Option<Seq<char>> {
    match body {
        Some(b) => Some(b@),
        None => None,
    }
}

/// What a response with `status` and `body` amounts to.
pub open spec fn read_response_spec(status: u16, body: Seq<char>) -> Result<Seq<char>, HttpError> {
    if is_success_spec(status) {
        Ok(body)
    } else {
        Err(HttpError::Status(status))
    }
}

fn copy_headers(headers: &Vec<Header>) -> (r: Vec<Header>)
    ensures
        lines_of(r@) == lines_of(headers@),
{
    let mut out: Vec<Header> = Vec::new();
    let mut i: usize = 0;
    while i < headers.len()
        invariant
            i <= headers.len(),
            out.len() == i,
            forall|j: int| 0 <= j < i ==> out[j].name@ == headers[j].name@ && out[j].value@
                == headers[j].value@,
        decreases headers.len() - i,
    {
        out.push(Header { name: headers[i].name.clone(), value: headers[i].value.clone() });
        i += 1;
    }
    assert(lines_of(out@) =~= lines_of(headers@));
    out
}

/// A copy of `headers` in which `key` is set to `value`.
fn set_line(headers: &Vec<Header>, key: &str, value: &str) -> (r: Vec<Header>)
    requires
        distinct_names(lines_of(headers@)),
    ensures
        lines_of(r@) == upsert(lines_of(headers@), key@, value@),
        distinct_names(lines_of(r@)),
{
    let ghost before = lines_of(headers@);
    let name = key.to_owned();
    let mut out: Vec<Header> = Vec::new();
    let mut found = false;
    let ghost mut at: int = 0;
    let mut i: usize = 0;
    while i < headers.len()
        invariant
            i <= headers.len(),
            out.len() == i,
            name@ == key@,
            found ==> 0 <= at < i && headers[at].name@ == key@,
            !found ==> forall|j: int| 0 <= j < i ==> headers[j].name@ != key@,
            forall|j: int| 0 <= j < i ==> out[j].name@ == headers[j].name@,
            forall|j: int|
                0 <= j < i ==> out[j].value@ == if headers[j].name@ == key@ {
                    value@
                } else {
                    headers[j].value@
                },
        decreases headers.len() - i,
    {
        if headers[i].name == name {
            out.push(Header { name: name.clone(), value: value.to_owned() });
            found = true;
            proof {
                at = i as int;
            }
        } else {
            out.push(Header { name: headers[i].name.clone(), value: headers[i].value.clone() });
        }
        i += 1;
    }
    if found {
        proof {
            lemma_upsert_present(before, at, key@, value@);
            let goal = before.update(at, (key@, value@));
            assert forall|j: int| 0 <= j < goal.len() implies lines_of(out@)[j] == goal[j] by {
                if j != at {
                    assert(before[j].0 != before[at].0);
                }
            }
            assert(lines_of(out@) =~= goal);
        }
    } else {
        out.push(Header { name, value: value.to_owned() });
        proof {
            assert forall|j: int| 0 <= j < before.len() implies before[j].0 != key@ by {
                assert(headers[j].name@ != key@);
            }
            lemma_upsert_absent(before, key@, value@);
            let goal = before.push((key@, value@));
            assert forall|j: int| 0 <= j < goal.len() implies lines_of(out@)[j] == goal[j] by {
                if j < before.len() {
                    assert(headers[j].name@ != key@);
                }
            }
            assert(lines_of(out@) =~= goal);
        }
    }
    out
}

impl HttpAdapter {
    #[verifier::type_invariant]
    spec fn names_distinct(self) -> bool {
        distinct_names(lines_of(self.headers@))
    }

    /// An adapter for the API at `base_url`, with no headers.
    pub fn new(base_url: String) -> (adapter: HttpAdapter)
        ensures
            adapter@ == (HttpAdapterView { headers: Seq::empty(), base_url: base_url@ }),
    {
        let headers: Vec<Header> = Vec::new();
        assert(lines_of(headers@) =~= Seq::empty());
        HttpAdapter { headers, base_url }
    }

    pub fn base_url(&self) -> (r: &str)
        ensures
            r@ == self@.base_url,
    {
        self.base_url.as_str()
    }

    /// Sets the header `key` to `value` for every later request. A header of
    /// that name set before is overwritten.
    pub fn add_header(&mut self, key: &str, value: &str)
        ensures
            final(self)@.base_url == old(self)@.base_url,
            final(self)@.headers == upsert(old(self)@.headers, key@, value@),
            distinct_names(final(self)@.headers),
    {
        proof {
            use_type_invariant(&*self);
        }
        let updated = set_line(&self.headers, key, value);
        self.headers = updated;
    }

    /// Puts the adapter's headers on `request`, in place of any it had.
    fn apply_headers(&self, request: HttpRequest) -> (r: HttpRequest)
        ensures
            r@ == (HttpRequestView { headers: self@.headers, ..request@ }),
    {
        HttpRequest {
            method: request.method,
            url: request.url,
            headers: copy_headers(&self.headers),
            body: request.body,
        }
    }

    /// Makes the request for `url` under the base address, with the
    /// adapter's headers.
    fn send_request(&self, method: HttpMethod, url: &str, body: Option<&str>) -> (r: HttpRequest)
        ensures
            r@ == self@.request(method, url@, body_view(body)),
            distinct_names(r@.headers),
    {
        proof {
            use_type_invariant(self);
        }
        let mut url_complete = self.base_url.clone();
        url_complete.append(url);
        let body = match body {
            Some(b) => Some(b.to_owned()),
            None => None,
        };
        let bare = HttpRequest { method, url: url_complete, headers: Vec::new(), body };
        self.apply_headers(bare)
    }

    /// A `GET` of `url`.
    pub fn get(&self, url: &str) -> (r: HttpRequest)
        ensures
            r@ == self@.request(HttpMethod::Get, url@, None),
            distinct_names(r@.headers),
    {
        self.send_request(HttpMethod::Get, url, None)
    }

    /// A `POST` to `url`.
    pub fn post(&self, url: &str, body: Option<&str>) -> (r: HttpRequest)
        ensures
            r@ == self@.request(HttpMethod::Post, url@, body_view(body)),
            distinct_names(r@.headers),
    {
        self.send_request(HttpMethod::Post, url, body)
    }

    /// A `PUT` to `url`.
    pub fn put(&self, url: &str, body: Option<&str>) -> (r: HttpRequest)
        ensures
            r@ == self@.request(HttpMethod::Put, url@, body_view(body)),
            distinct_names(r@.headers),
    {
        self.send_request(HttpMethod::Put, url, body)
    }

    /// A `DELETE` of `url`.
    pub fn delete(&self, url: &str) -> (r: HttpRequest)
        ensures
            r@ == self@.request(HttpMethod::Delete, url@, None),
            distinct_names(r@.headers),
    {
        self.send_request(HttpMethod::Delete, url, None)
    }

    /// Judges a response: its body on success, its status otherwise.
    pub fn read_response(status: u16, body: String) -> (r: Result<String, HttpError>)
        ensures
            r matches Ok(b) ==> read_response_spec(status, body@) == Ok::<Seq<char>, HttpError>(b@),
            r matches Err(e) ==> read_response_spec(status, body@) == Err::<Seq<char>, HttpError>(
                e,
            ),
    {
        if is_success(status) {
            Ok(body)
        } else {
            Err(HttpError::Status(status))
        }
    }
}

impl Clone for HttpAdapter {
    fn clone(&self) -> (r: HttpAdapter)
        ensures
            r@ == self@,
    {
        proof {
            use_type_invariant(self);
        }
        HttpAdapter { headers: copy_headers(&self.headers), base_url: self.base_url.clone() }
    }
}

} // verus!
