use vstd::prelude::*;

verus! {

/// Error states that can occur during geolocation.
#[derive(Clone, Debug, PartialEq)]
pub enum GeolocationError {
    /// User denied permission to access location
    PermissionDenied(String),
    /// Location information unavailable
    PositionUnavailable(String),
    /// Network timeout
    Timeout(String),
    /// Browser doesn't support geolocation
    Unsupported,
    /// Other error
    Other(String),
}

/// A geolocation error with its message as a character sequence.
pub enum GeolocationErrorView {
    PermissionDenied(Seq<char>),
    PositionUnavailable(Seq<char>),
    Timeout(Seq<char>),
    Unsupported,
    Other(Seq<char>),
}

impl View for GeolocationError {
    type V = GeolocationErrorView;

    open spec fn view(&self) -> GeolocationErrorView {
        match self {
            GeolocationError::PermissionDenied(m) => GeolocationErrorView::PermissionDenied(m@),
            GeolocationError::PositionUnavailable(m) => GeolocationErrorView::PositionUnavailable(m@),
            GeolocationError::Timeout(m) => GeolocationErrorView::Timeout(m@),
            GeolocationError::Unsupported => GeolocationErrorView::Unsupported,
            GeolocationError::Other(m) => GeolocationErrorView::Other(m@),
        }
    }
}

/// The error for a `GeolocationPositionError` with `code` and `message`.
pub open spec fn spec_error_from_code(code: u16, message: Seq<char>) -> GeolocationErrorView {
    if code == 1 {
        GeolocationErrorView::PermissionDenied(message)
    } else if code == 2 {
        GeolocationErrorView::PositionUnavailable(message)
    } else if code == 3 {
        GeolocationErrorView::Timeout(message)
    } else {
        GeolocationErrorView::Other(message)
    }
}

/// The message of the error when watching cannot start.
pub open spec fn watch_failed_message() -> Seq<char> {
    "Failed to watch position"@
}

impl GeolocationError {
    /// Classifies a position error by its code: 1 permission denied,
    /// 2 position unavailable, 3 timeout, anything else other.
    pub fn from_code(code: u16, message: String) -> (e: GeolocationError)
        ensures
            e@ == spec_error_from_code(code, message@),
    {
        match code {
            1 => GeolocationError::PermissionDenied(message),
            2 => GeolocationError::PositionUnavailable(message),
            3 => GeolocationError::Timeout(message),
            _ => GeolocationError::Other(message),
        }
    }
}

/// Options for configuring the geolocation request.
#[derive(Clone, Copy, Debug, PartialEq, Eq, Structural)]
pub struct GeolocationOptions {
    /// Is high accuracy enabled
    pub enable_high_accuracy: bool,
    /// Time in milliseconds that is allowed to return a position
    pub timeout: Option<i32>,
    /// Maximum age in milliseconds of a cached position
    pub maximum_age: Option<i32>,
    /// Whether to watch position continuously
    pub watch: bool,
}

impl Default for GeolocationOptions {
    fn default() -> (o: Self)
        ensures
            o == (GeolocationOptions { enable_high_accuracy: false, timeout: None, maximum_age: None, watch: false }),
    {
        GeolocationOptions { enable_high_accuracy: false, timeout: None, maximum_age: None, watch: false }
    }
}

/// Which call to make on the geolocation API.
#[derive(Clone, Copy, Debug, PartialEq, Eq, Structural)]
pub enum PositionRequest {
    /// Make no call
    Skip,
    /// Start watching the position
    Watch,
    /// Ask for the current position once
    Once,
}

/// The error view of an optional error.
pub open spec fn error_view(e: Option<GeolocationError>) -> Option<GeolocationErrorView> {
    match e {
        Some(err) => Some(err@),
        None => None,
    }
}

/// What a geolocation request knows apart from the coordinates: whether it is
/// loading, the last error, and the id of an active watch.
pub struct GeolocationTracker {
    pub is_loading: bool,
    pub error: Option<GeolocationError>,
    pub watch_id: Option<i32>,
}

impl GeolocationTracker {
    /// Not loading, no error, not watching.
    pub fn new() -> (t: Self)
        ensures
            !t.is_loading,
            t.error is None,
            t.watch_id is None,
    {
        GeolocationTracker { is_loading: false, error: None, watch_id: None }
    }

    /// Starts a request for the position. Without geolocation support the
    /// error is `Unsupported` and no call is made. Otherwise loading starts,
    /// the error clears, and a watch starts unless one is active already, or
    /// (without `watch`) the position is asked for once.
    pub fn request(&mut self, is_supported: bool, options: &GeolocationOptions) -> (req: PositionRequest)
        ensures
            !is_supported ==> {
                &&& req == PositionRequest::Skip
                &&& error_view(final(self).error) == Some(GeolocationErrorView::Unsupported)
                &&& final(self).is_loading == old(self).is_loading
                &&& final(self).watch_id == old(self).watch_id
            },
            is_supported ==> {
                &&& final(self).is_loading
                &&& final(self).error is None
                &&& final(self).watch_id == old(self).watch_id
                &&& req == if !options.watch {
                    PositionRequest::Once
                } else if old(self).watch_id is Some {
                    PositionRequest::Skip
                } else {
                    PositionRequest::Watch
                }
            },
    {
        if !is_supported {
            self.error = Some(GeolocationError::Unsupported);
            return PositionRequest::Skip;
        }
        self.is_loading = true;
        self.error = None;
        if options.watch {
            if self.watch_id.is_some() {
                return PositionRequest::Skip;
            }
            PositionRequest::Watch
        } else {
            PositionRequest::Once
        }
    }

    /// The outcome of starting a watch: its id, or `None` when it failed,
    /// which records an error and ends loading.
    pub fn watch_started(&mut self, id: Option<i32>)
        ensures
            id is Some ==> final(self).watch_id == id && final(self).is_loading == old(self).is_loading
                && error_view(final(self).error) == error_view(old(self).error),
            id is None ==> {
                &&& !final(self).is_loading
                &&& error_view(final(self).error) == Some(GeolocationErrorView::Other(watch_failed_message()))
                &&& final(self).watch_id == old(self).watch_id
            },
    {
        match id {
            Some(i) => {
                self.watch_id = Some(i);
            },
            None => {
                self.error = Some(GeolocationError::Other("Failed to watch position".to_string()));
                self.is_loading = false;
            },
        }
    }

    /// A position arrived: loading ends.
    pub fn position_received(&mut self)
        ensures
            !final(self).is_loading,
            error_view(final(self).error) == error_view(old(self).error),
            final(self).watch_id == old(self).watch_id,
    {
        self.is_loading = false;
    }

    /// The API reported an error with `code` and `message`: it is recorded and
    /// loading ends.
    pub fn error_received(&mut self, code: u16, message: String)
        ensures
            !final(self).is_loading,
            error_view(final(self).error) == Some(spec_error_from_code(code, message@)),
            final(self).watch_id == old(self).watch_id,
    {
        self.error = Some(GeolocationError::from_code(code, message));
        self.is_loading = false;
    }

    /// The watch to clear when the hook unmounts.
    pub fn teardown(&self) -> (clear: Option<i32>)
        ensures
            clear == self.watch_id,
    {
        self.watch_id
    }
}

/// The browser's error code alone picks the kind of error, and the message is
/// kept as given: 1 is a denied permission, 2 an unavailable position, 3 a
/// timeout, and every other code some other error; no code reads as
/// unsupported.
pub proof fn lemma_error_code_classes(code: u16, message: Seq<char>)
    ensures
        code == 1 ==> spec_error_from_code(code, message) == GeolocationErrorView::PermissionDenied(message),
        code == 2 ==> spec_error_from_code(code, message) == GeolocationErrorView::PositionUnavailable(message),
        code == 3 ==> spec_error_from_code(code, message) == GeolocationErrorView::Timeout(message),
        (code < 1 || code > 3) ==> spec_error_from_code(code, message) == GeolocationErrorView::Other(message),
        !(spec_error_from_code(code, message) is Unsupported),
{
}

} // verus!
