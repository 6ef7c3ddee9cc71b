//! What the relay knows of one connection: who it claims to be and which
//! room it is in.
//!
//! A connection is anonymous until it identifies. Only an identified
//! connection can be in a room, and it is in at most one.

use crate::protocol::text_opt;
use vstd::prelude::*;

verus! {

/// The identity a connection has claimed. Nothing checks the claim, and
/// several connections may hold the same user identifier.
#[derive(Debug, PartialEq, Eq)]
pub struct Identity {
    pub user_id: String,
    pub name: String,
    pub avatar: String,
}

pub struct IdentityView {
    pub user_id: Seq<char>,
    pub name: Seq<char>,
    pub avatar: Seq<char>,
}

impl View for Identity {
    type V = IdentityView;

    open spec fn view(&self) -> IdentityView {
        IdentityView { user_id: self.user_id@, name: self.name@, avatar: self.avatar@ }
    }
}

impl Clone for Identity {
    fn clone(&self) -> (copy: Self)
        ensures
            copy@ == self@,
    {
        Identity {
            user_id: self.user_id.clone(),
            name: self.name.clone(),
            avatar: self.avatar.clone(),
        }
    }
}

/// The state of one connection.
#[derive(Debug, PartialEq, Eq)]
pub enum Session {
    /// No identity claimed yet.
    Anonymous,
    /// An identity, and no room.
    Identified { identity: Identity },
    /// An identity and the room the connection is in.
    InRoom { identity: Identity, room: String },
}

pub enum SessionView {
    Anonymous,
    Identified { identity: IdentityView },
    InRoom { identity: IdentityView, room: Seq<char> },
}

impl SessionView {
    /// The identity bound to the connection, if any.
    pub open spec fn identity(self) -> Option<IdentityView> {
        match self {
            SessionView::Anonymous => None,
            SessionView::Identified { identity } => Some(identity),
            SessionView::InRoom { identity, .. } => Some(identity),
        }
    }

    /// The room the connection is in, if any.
    pub open spec fn room(self) -> Option<Seq<char>> {
        match self {
            SessionView::InRoom { room, .. } => Some(room),
            _ => None,
        }
    }

    /// The session after it claims `identity`: the claim replaces any
    /// earlier one and leaves the room as it is.
    pub open spec fn rebound(self, identity: IdentityView) -> SessionView {
        match self {
            SessionView::InRoom { room, .. } => SessionView::InRoom { identity, room },
            _ => SessionView::Identified { identity },
        }
    }

    /// The session after its room is set to `room`: an identified session
    /// enters it, or is in none if `room` is `None`. An anonymous session
    /// stays as it is.
    pub open spec fn moved(self, room: Option<Seq<char>>) -> SessionView {
        match (self.identity(), room) {
            (None, _) => SessionView::Anonymous,
            (Some(identity), None) => SessionView::Identified { identity },
            (Some(identity), Some(room)) => SessionView::InRoom { identity, room },
        }
    }
}

impl View for Session {
    type V = SessionView;

    open spec fn view(&self) -> SessionView {
        match *self {
            Session::Anonymous => SessionView::Anonymous,
            Session::Identified { identity } => SessionView::Identified { identity: identity@ },
            Session::InRoom { identity, room } => SessionView::InRoom {
                identity: identity@,
                room: room@,
            },
        }
    }
}

impl Clone for Session {
    fn clone(&self) -> (copy: Self)
        ensures
            copy@ == self@,
    {
        match self {
            Session::Anonymous => Session::Anonymous,
            Session::Identified { identity } => Session::Identified { identity: identity.clone() },
            Session::InRoom { identity, room } => Session::InRoom {
                identity: identity.clone(),
                room: room.clone(),
            },
        }
    }
}

/// The view of an optional identity.
pub open spec fn identity_opt(value: Option<&Identity>) -> Option<IdentityView> {
    match value {
        Some(identity) => Some(identity@),
        None => None,
    }
}

/// The view of an optional borrowed string.
pub open spec fn text_ref_opt(value: Option<&String>) -> Option<Seq<char>> {
    match value {
        Some(text) => Some(text@),
        None => None,
    }
}

impl Session {
    /// The identity bound to the connection, if any.
    pub fn identity(&self) -> (found: Option<&Identity>)
        ensures
            identity_opt(found) == self@.identity(),
    {
        match self {
            Session::Anonymous => None,
            Session::Identified { identity } => Some(identity),
            Session::InRoom { identity, .. } => Some(identity),
        }
    }

    /// The room the connection is in, if any.
    pub fn room(&self) -> (found: Option<&String>)
        ensures
            text_ref_opt(found) == self@.room(),
    {
        match self {
            Session::InRoom { room, .. } => Some(room),
            _ => None,
        }
    }

    /// The session after it claims `identity`.
    pub fn rebound(&self, identity: Identity) -> (next: Session)
        ensures
            next@ == self@.rebound(identity@),
    {
        match self {
            Session::InRoom { room, .. } => Session::InRoom { identity, room: room.clone() },
            _ => Session::Identified { identity },
        }
    }

    /// The session after its room is set to `room`.
    pub fn moved(&self, room: Option<String>) -> (next: Session)
        ensures
            next@ == self@.moved(text_opt(room)),
    {
        match self.identity() {
            None => Session::Anonymous,
            Some(identity) => match room {
                None => Session::Identified { identity: identity.clone() },
                Some(room) => Session::InRoom { identity: identity.clone(), room },
            },
        }
    }
}

} // verus!
