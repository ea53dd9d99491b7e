use vstd::prelude::*;

verus! {

/// A relay the pool talks to: its address and the directions in which it is used.
#[derive(Debug)]
pub struct UserRelay {
    pub url: String,
    pub read: bool,
    pub write: bool,
}

/// The mathematical value of a [`UserRelay`].
pub struct EndpointView {
    pub url: Seq<char>,
    pub read: bool,
    pub write: bool,
}

impl View for UserRelay {
    type V = EndpointView;

    open spec fn view(&self) -> EndpointView {
        EndpointView { url: self.url@, read: self.read, write: self.write }
    }
}

/// Where a kind of record is kept in the local key/value store: the database,
/// its schema version, the store inside it, and the field that keys a record.
#[derive(Debug)]
pub struct IdbStoreConfig {
    pub db_name: &'static str,
    pub db_version: u32,
    pub store_name: &'static str,
    pub document_key: &'static str,
}

impl UserRelay {
    pub fn duplicate(&self) -> (r: UserRelay)
        ensures
            r@ == self@,
    {
        UserRelay { url: self.url.clone(), read: self.read, write: self.write }
    }

    /// Where relay endpoints are stored: keyed by their address.
    pub fn config() -> (r: IdbStoreConfig)
        ensures
            r.db_name@ == "test_db_relays"@,
            r.db_version == 1,
            r.store_name@ == "user_relays"@,
            r.document_key@ == "url"@,
    {
        IdbStoreConfig {
            db_version: 1,
            db_name: "test_db_relays",
            store_name: "user_relays",
            document_key: "url",
        }
    }

    /// The key of this endpoint's record: its address.
    pub fn key(&self) -> (r: String)
        ensures
            r@ == self.url@,
    {
        self.url.clone()
    }
}

/// A signed message as it travels between the pool and its relays.
///
/// The pool reads only `id`; the other fields are carried unchanged.
#[derive(Debug)]
pub struct Note {
    pub id: Option<String>,
    pub pubkey: String,
    pub created_at: i64,
    pub kind: u32,
    pub tags: Vec<Vec<String>>,
    pub content: String,
    pub sig: Option<String>,
}

pub struct NoteView {
    pub id: Option<Seq<char>>,
    pub pubkey: Seq<char>,
    pub created_at: i64,
    pub kind: u32,
    pub tags: Seq<Seq<Seq<char>>>,
    pub content: Seq<char>,
    pub sig: Option<Seq<char>>,
}

impl View for Note {
    type V = NoteView;

    open spec fn view(&self) -> NoteView {
        NoteView {
            id: self.id.deep_view(),
            pubkey: self.pubkey@,
            created_at: self.created_at,
            kind: self.kind,
            tags: self.tags.deep_view(),
            content: self.content@,
            sig: self.sig.deep_view(),
        }
    }
}

impl Note {
    pub fn duplicate(&self) -> (r: Note)
        ensures
            r@ == self@,
    {
        let tags = self.tags.clone();
        proof {
            broadcast use vstd::std_specs::vec::vec_clone_deep_view_proof;
        }
        Note {
            id: self.id.clone(),
            pubkey: self.pubkey.clone(),
            created_at: self.created_at,
            kind: self.kind,
            tags,
            content: self.content.clone(),
            sig: self.sig.clone(),
        }
    }
}

/// A standing query: an identifier chosen by the caller and a filter that the
/// pool hands to the relays without reading it.
#[derive(Debug)]
pub struct Subscription {
    pub id: String,
    pub filter: String,
}

/// Why a relay's handle was given up, or why an event from it was dropped.
#[derive(Debug, Clone, Copy, PartialEq, Eq, Structural)]
pub enum FailureKind {
    /// The relay could not be reached, or its address was refused.
    Unreachable,
    /// An open connection broke.
    ConnectionLost,
    /// Forwarding a message to the relay failed.
    SendFailed,
    /// The relay sent an event that could not be used.
    Malformed,
    /// The relay did not acknowledge a close request in time.
    CloseTimedOut,
}

/// What a relay reports to the pool, or what the pool records about a relay.
#[derive(Debug)]
pub enum RelayEvent {
    /// A note matching the subscription `subscription`.
    Delivery { subscription: String, note: Note },
    /// The relay's answer to a published note.
    Accepted { event_id: String, accepted: bool, message: String },
    /// All stored notes for `subscription` have been sent.
    EndOfStored { subscription: String },
    /// The relay ended `subscription` on its side.
    Closed { subscription: String },
    /// A human-readable message from the relay.
    Notice { message: String },
    /// Any other frame (a ping, for instance).
    Other,
    /// The handle failed; the pool drops it from the active set.
    Failure(FailureKind),
}

pub enum RelayEventView {
    Delivery { subscription: Seq<char>, note: NoteView },
    Accepted { event_id: Seq<char>, accepted: bool, message: Seq<char> },
    EndOfStored { subscription: Seq<char> },
    Closed { subscription: Seq<char> },
    Notice { message: Seq<char> },
    Other,
    Failure(FailureKind),
}

impl View for RelayEvent {
    type V = RelayEventView;

    open spec fn view(&self) -> RelayEventView {
        match self {
            RelayEvent::Delivery { subscription, note } => RelayEventView::Delivery {
                subscription: subscription@,
                note: note@,
            },
            RelayEvent::Accepted { event_id, accepted, message } => RelayEventView::Accepted {
                event_id: event_id@,
                accepted: *accepted,
                message: message@,
            },
            RelayEvent::EndOfStored { subscription } => RelayEventView::EndOfStored {
                subscription: subscription@,
            },
            RelayEvent::Closed { subscription } => RelayEventView::Closed {
                subscription: subscription@,
            },
            RelayEvent::Notice { message } => RelayEventView::Notice { message: message@ },
            RelayEvent::Other => RelayEventView::Other,
            RelayEvent::Failure(k) => RelayEventView::Failure(*k),
        }
    }
}

/// One entry of the raw event stream: an event and the relay it concerns.
#[derive(Debug)]
pub struct RawEvent {
    pub relay: String,
    pub event: RelayEvent,
}

pub struct RawEventView {
    pub relay: Seq<char>,
    pub event: RelayEventView,
}

impl View for RawEvent {
    type V = RawEventView;

    open spec fn view(&self) -> RawEventView {
        RawEventView { relay: self.relay@, event: self.event@ }
    }
}

/// A message from the pool to one relay.
#[derive(Debug)]
pub enum ClientMessage {
    Publish(Note),
    Subscribe { id: String, filter: String },
    Cancel { id: String },
}

pub enum ClientMessageView {
    Publish(NoteView),
    Subscribe { id: Seq<char>, filter: Seq<char> },
    Cancel { id: Seq<char> },
}

impl View for ClientMessage {
    type V = ClientMessageView;

    open spec fn view(&self) -> ClientMessageView {
        match self {
            ClientMessage::Publish(n) => ClientMessageView::Publish(n@),
            ClientMessage::Subscribe { id, filter } => ClientMessageView::Subscribe {
                id: id@,
                filter: filter@,
            },
            ClientMessage::Cancel { id } => ClientMessageView::Cancel { id: id@ },
        }
    }
}

/// Work that the dispatch loop asks its runner to perform on a relay handle.
#[derive(Debug)]
pub enum RelayCommand {
    Send { relay: String, message: ClientMessage },
    Close { relay: String },
}

pub enum RelayCommandView {
    Send { relay: Seq<char>, message: ClientMessageView },
    Close { relay: Seq<char> },
}

impl View for RelayCommand {
    type V = RelayCommandView;

    open spec fn view(&self) -> RelayCommandView {
        match self {
            RelayCommand::Send { relay, message } => RelayCommandView::Send {
                relay: relay@,
                message: message@,
            },
            RelayCommand::Close { relay } => RelayCommandView::Close { relay: relay@ },
        }
    }
}

} // verus!
