use vstd::prelude::*;

verus! {

/// The resolved build identity: an integer build number and the canonical
/// URL of that build.
#[derive(Debug)]
pub struct QueueItemExecutable {
    pub number: i32,
    pub url: String,
}

/// Mathematical image of a `QueueItemExecutable`.
pub struct ExecutableView {
    pub number: int,
    pub url: Seq<char>,
}

impl View for QueueItemExecutable {
    type V = ExecutableView;

    open spec fn view(&self) -> ExecutableView {
        ExecutableView { number: self.number as int, url: self.url@ }
    }
}

impl QueueItemExecutable {
    /// A copy whose abstract value is the same as this one's.
    pub fn duplicate(&self) -> (r: QueueItemExecutable)
        ensures
            r@ == self@,
    {
        QueueItemExecutable { number: self.number, url: self.url.clone() }
    }
}

/// A snapshot of the server's queue item: an optional human-readable reason
/// (`why`, present while still queued) and an optional `executable`
/// (present only once a build number has been assigned).
#[derive(Debug)]
pub struct QueueItemRes {
    pub why: Option<String>,
    pub executable: Option<QueueItemExecutable>,
}

/// Mathematical image of a `QueueItemRes`.
pub struct QueueItemResView {
    pub why: Option<Seq<char>>,
    pub executable: Option<ExecutableView>,
}

impl View for QueueItemRes {
    type V = QueueItemResView;

    open spec fn view(&self) -> QueueItemResView {
        QueueItemResView {
            why: match self.why {
                Some(ref w) => Some(w@),
                None => None,
            },
            executable: match self.executable {
                Some(ref e) => Some(e@),
                None => None,
            },
        }
    }
}

impl QueueItemRes {
    /// A copy whose abstract value is the same as this one's.
    pub fn duplicate(&self) -> (r: QueueItemRes)
        ensures
            r@ == self@,
    {
        QueueItemRes {
            why: match self.why {
                Some(ref w) => Some(w.clone()),
                None => None,
            },
            executable: match self.executable {
                Some(ref e) => Some(e.duplicate()),
                None => None,
            },
        }
    }
}

/// The closed error taxonomy of the client.
///
/// `APIError`: the server responded but violated the expected contract.
/// `QueueItemNotExists`: the queue item resource answered with a client
/// error while polling; the item already ran, was cancelled, or never
/// existed.  `NetworkError`: the transport failed; carries the transport's
/// own description.  `DecodeError`: a response body did not parse as the
/// expected JSON shape.  `Timeout`: a bounded polling session spent its
/// whole poll budget without a verdict.
#[derive(Debug)]
pub enum Error {
    APIError(String),
    QueueItemNotExists,
    NetworkError(String),
    DecodeError(String),
    Timeout,
}

/// Mathematical image of an `Error`.
pub enum ErrorView {
    APIError(Seq<char>),
    QueueItemNotExists,
    NetworkError(Seq<char>),
    DecodeError(Seq<char>),
    Timeout,
}

impl View for Error {
    type V = ErrorView;

    open spec fn view(&self) -> ErrorView {
        match self {
            Error::APIError(m) => ErrorView::APIError(m@),
            Error::QueueItemNotExists => ErrorView::QueueItemNotExists,
            Error::NetworkError(m) => ErrorView::NetworkError(m@),
            Error::DecodeError(m) => ErrorView::DecodeError(m@),
            Error::Timeout => ErrorView::Timeout,
        }
    }
}

/// What `describe` returns for each error variant.
pub open spec fn spec_error_message(e: ErrorView) -> Seq<char> {
    match e {
        ErrorView::APIError(m) => "API error: "@ + m,
        ErrorView::QueueItemNotExists => "Queue item not exists, maybe already running or finished"@,
        ErrorView::NetworkError(m) => "Network error: "@ + m,
        ErrorView::DecodeError(m) => "Decode error: "@ + m,
        ErrorView::Timeout => "Timeout: no build number within the poll budget"@,
    }
}

impl Error {
    /// A human-readable description of the error.
    pub fn describe(&self) -> (r: String)
        ensures
            r@ == spec_error_message(self@),
    {
        match self {
            Error::APIError(m) => {
                let mut s = "API error: ".to_owned();
                s.append(m.as_str());
                s
            },
            Error::QueueItemNotExists => {
                "Queue item not exists, maybe already running or finished".to_owned()
            },
            Error::NetworkError(m) => {
                let mut s = "Network error: ".to_owned();
                s.append(m.as_str());
                s
            },
            Error::DecodeError(m) => {
                let mut s = "Decode error: ".to_owned();
                s.append(m.as_str());
                s
            },
            Error::Timeout => {
                "Timeout: no build number within the poll budget".to_owned()
            },
        }
    }
}

/// Connection settings of the client: the server's base URL and the basic
/// auth credentials sent with every request.  Immutable after construction.
/// The HTTP transport that performs the requests lives outside the library
/// and reads these settings through the accessors.
pub struct Jenkins {
    url: String,
    user: String,
    password: String,
}

/// Mathematical image of a `Jenkins` client configuration.
pub struct JenkinsView {
    pub url: Seq<char>,
    pub user: Seq<char>,
    pub password: Seq<char>,
}

impl View for Jenkins {
    type V = JenkinsView;

    closed spec fn view(&self) -> JenkinsView {
        JenkinsView { url: self.url@, user: self.user@, password: self.password@ }
    }
}

impl Jenkins {
    /// Create a client configuration.
    ///
    /// `password` is the password or the API token of `user`.
    pub fn new(url: &str, user: &str, password: &str) -> (r: Jenkins)
        ensures
            r@.url == url@,
            r@.user == user@,
            r@.password == password@,
    {
        Jenkins { url: url.to_owned(), user: user.to_owned(), password: password.to_owned() }
    }

    /// The server's base URL.
    pub fn get_url(&self) -> (r: &str)
        ensures
            r@ == self@.url,
    {
        self.url.as_str()
    }

    /// The user the client authenticates as.
    pub fn get_user(&self) -> (r: &str)
        ensures
            r@ == self@.user,
    {
        self.user.as_str()
    }

    /// The secret credential sent with every request.
    pub fn get_password(&self) -> (r: &str)
        ensures
            r@ == self@.password,
    {
        self.password.as_str()
    }
}

} // verus!
