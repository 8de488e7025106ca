use vstd::prelude::*;

verus! {

/// A socket to an arbitrary streaming URL, holding its credentials and, once
/// connected, its stream of type `S`.
pub struct GeneralSocket<S> {
    app_id: String,
    access_token: String,
    stream: Option<S>,
}

impl<S> GeneralSocket<S> {
    /// Whether a stream is held.
    pub closed spec fn is_open(&self) -> bool {
        self.stream is Some
    }

    /// The identity and token the socket authenticates with.
    pub closed spec fn credentials_view(&self) -> (Seq<char>, Seq<char>) {
        (self.app_id@, self.access_token@)
    }

    /// A socket without a connection, for the given identity and token.
    pub fn new(app_id: String, access_token: String) -> (r: GeneralSocket<S>)
        ensures
            !r.is_open(),
            r.credentials_view() == (app_id@, access_token@),
    {
        GeneralSocket { app_id, access_token, stream: None }
    }
}

} // verus!
