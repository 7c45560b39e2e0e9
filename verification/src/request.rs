//! A playback request: one track asked for by one viewer.

use vstd::prelude::*;

verus! {

/// The viewer a request came from.
#[derive(Debug)]
pub struct User {
    /// The chat network's identifier for the viewer.
    pub id: String,
    /// The viewer's display name.
    pub name: String,
    /// The viewer's chat color, packed as `0x00RRGGBB`.
    pub color: u32,
}

/// The mathematical value of a `User`.
pub struct UserView {
    pub id: Seq<char>,
    pub name: Seq<char>,
    pub color: u32,
}

impl View for User {
    type V = UserView;

    open spec fn view(&self) -> UserView {
        UserView { id: self.id@, name: self.name@, color: self.color }
    }
}

impl Clone for User {
    fn clone(&self) -> (r: Self)
        ensures
            r@ == self@,
    {
        User { id: self.id.clone(), name: self.name.clone(), color: self.color }
    }
}

/// One playback request, consumed by the orchestrator exactly once.
#[derive(Debug)]
pub struct Request {
    /// The request's own identity, under which the store keys it.
    pub id: u128,
    /// The identifier of the requested track.
    pub track_id: u128,
    /// Who asked for it.
    pub user: User,
    /// When it arrived, in milliseconds since the epoch.
    pub added_on_ms: u64,
}

/// The mathematical value of a `Request`.
pub struct RequestView {
    pub id: u128,
    pub track_id: u128,
    pub user: UserView,
    pub added_on_ms: u64,
}

impl View for Request {
    type V = RequestView;

    open spec fn view(&self) -> RequestView {
        RequestView {
            id: self.id,
            track_id: self.track_id,
            user: self.user@,
            added_on_ms: self.added_on_ms,
        }
    }
}

impl Clone for Request {
    fn clone(&self) -> (r: Self)
        ensures
            r@ == self@,
    {
        Request {
            id: self.id,
            track_id: self.track_id,
            user: self.user.clone(),
            added_on_ms: self.added_on_ms,
        }
    }
}

} // verus!
