//! The commands the actor accepts, which handler serves each, and when a
//! command may be served at all.
use vstd::prelude::*;
use vstd::string::StringExecFns;
use crate::error::AppError;

verus! {

/// Options of a chat with a peer.
#[derive(Clone, Debug, Default)]
pub struct ChatOpts {
    pub session_id: Option<String>,
    pub peer_target: Option<String>,
}

/// The kinds of command the actor accepts.
#[derive(Clone, Copy, Debug, PartialEq, Eq)]
pub enum CmdKind {
    Connect,
    Disconnect,
    Refresh,
    ListPeers,
    GetPeer,
    SetPeerMetadata,
    SetPeerConfig,
    GetPeerCard,
    SetPeerCard,
    GetPeerRepresentation,
    GetPeerContext,
    ListPeerSessions,
    ListSessions,
    GetSession,
    SetSessionMetadata,
    SetSessionConfig,
    GetSessionSummaries,
    CloneSession,
    DeleteSession,
    GetSessionContext,
    ListSessionPeers,
    AddSessionPeer,
    RemoveSessionPeer,
    GetSessionPeerConfig,
    SetSessionPeerConfig,
    ListMessages,
    GetMessage,
    UpdateMessageMetadata,
    ListWorkspaces,
    DeleteWorkspace,
    GetWorkspaceMetadata,
    SetWorkspaceMetadata,
    GetWorkspaceConfig,
    SetWorkspaceConfig,
    ListConclusions,
    QueryConclusions,
    DeleteConclusion,
    GetConclusionRepresentation,
    Chat,
    StreamChat,
    CreateConclusion,
    UploadFile,
    UploadFileToMultiplePeers,
    ScheduleDream,
    QueueStatus,
    Search,
}

/// The handlers of a connected actor.
#[derive(Clone, Copy, Debug, PartialEq, Eq)]
pub enum Handler {
    /// Re-checks the connection.
    Refresh,
    Peer,
    Session,
    SessionPeer,
    Message,
    Workspace,
    Conclusion,
    Upload,
    /// A command that the connected actor does not serve (connect and
    /// disconnect are handled before routing).
    Unexpected,
}

/// The handler that serves each kind of command.
pub open spec fn handler_of(k: CmdKind) -> Handler {
    match k {
        CmdKind::Refresh => Handler::Refresh,
        CmdKind::ListPeers | CmdKind::GetPeer | CmdKind::SetPeerMetadata | CmdKind::SetPeerConfig
        | CmdKind::GetPeerCard | CmdKind::SetPeerCard | CmdKind::GetPeerRepresentation
        | CmdKind::GetPeerContext | CmdKind::ListPeerSessions | CmdKind::Chat
        | CmdKind::StreamChat => Handler::Peer,
        CmdKind::ListSessions | CmdKind::GetSession | CmdKind::SetSessionMetadata
        | CmdKind::SetSessionConfig | CmdKind::GetSessionSummaries | CmdKind::CloneSession
        | CmdKind::DeleteSession | CmdKind::GetSessionContext => Handler::Session,
        CmdKind::ListSessionPeers | CmdKind::AddSessionPeer | CmdKind::RemoveSessionPeer
        | CmdKind::GetSessionPeerConfig | CmdKind::SetSessionPeerConfig => Handler::SessionPeer,
        CmdKind::ListMessages | CmdKind::GetMessage | CmdKind::UpdateMessageMetadata => {
            Handler::Message
        },
        CmdKind::ListWorkspaces | CmdKind::DeleteWorkspace | CmdKind::GetWorkspaceMetadata
        | CmdKind::SetWorkspaceMetadata | CmdKind::GetWorkspaceConfig
        | CmdKind::SetWorkspaceConfig | CmdKind::ScheduleDream | CmdKind::QueueStatus
        | CmdKind::Search => Handler::Workspace,
        CmdKind::ListConclusions | CmdKind::QueryConclusions | CmdKind::DeleteConclusion
        | CmdKind::CreateConclusion | CmdKind::GetConclusionRepresentation => Handler::Conclusion,
        CmdKind::UploadFile | CmdKind::UploadFileToMultiplePeers => Handler::Upload,
        CmdKind::Connect | CmdKind::Disconnect => Handler::Unexpected,
    }
}

/// Whether a command opens or closes the connection.
pub open spec fn is_connection_cmd(k: CmdKind) -> bool {
    k == CmdKind::Connect || k == CmdKind::Disconnect
}

/// The handler that serves a command.
pub fn route(k: CmdKind) -> (r: Handler)
    ensures
        r == handler_of(k),
{
    match k {
        CmdKind::Refresh => Handler::Refresh,
        CmdKind::ListPeers | CmdKind::GetPeer | CmdKind::SetPeerMetadata | CmdKind::SetPeerConfig
        | CmdKind::GetPeerCard | CmdKind::SetPeerCard | CmdKind::GetPeerRepresentation
        | CmdKind::GetPeerContext | CmdKind::ListPeerSessions | CmdKind::Chat
        | CmdKind::StreamChat => Handler::Peer,
        CmdKind::ListSessions | CmdKind::GetSession | CmdKind::SetSessionMetadata
        | CmdKind::SetSessionConfig | CmdKind::GetSessionSummaries | CmdKind::CloneSession
        | CmdKind::DeleteSession | CmdKind::GetSessionContext => Handler::Session,
        CmdKind::ListSessionPeers | CmdKind::AddSessionPeer | CmdKind::RemoveSessionPeer
        | CmdKind::GetSessionPeerConfig | CmdKind::SetSessionPeerConfig => Handler::SessionPeer,
        CmdKind::ListMessages | CmdKind::GetMessage | CmdKind::UpdateMessageMetadata => {
            Handler::Message
        },
        CmdKind::ListWorkspaces | CmdKind::DeleteWorkspace | CmdKind::GetWorkspaceMetadata
        | CmdKind::SetWorkspaceMetadata | CmdKind::GetWorkspaceConfig
        | CmdKind::SetWorkspaceConfig | CmdKind::ScheduleDream | CmdKind::QueueStatus
        | CmdKind::Search => Handler::Workspace,
        CmdKind::ListConclusions | CmdKind::QueryConclusions | CmdKind::DeleteConclusion
        | CmdKind::CreateConclusion | CmdKind::GetConclusionRepresentation => Handler::Conclusion,
        CmdKind::UploadFile | CmdKind::UploadFileToMultiplePeers => Handler::Upload,
        CmdKind::Connect | CmdKind::Disconnect => Handler::Unexpected,
    }
}

/// The routing table: each command goes to the handler of the resource it
/// acts on. Peer commands (chat included) go to the peer handler; session,
/// session-peer and message commands to theirs; workspace commands, dreams,
/// the queue and search to the workspace handler; every conclusion command to
/// the conclusion handler; uploads to the upload handler; connect and
/// disconnect to none of them.
pub proof fn lemma_routing_table()
    ensures
        handler_of(CmdKind::Refresh) == Handler::Refresh,
        handler_of(CmdKind::ListPeers) == Handler::Peer,
        handler_of(CmdKind::GetPeer) == Handler::Peer,
        handler_of(CmdKind::SetPeerMetadata) == Handler::Peer,
        handler_of(CmdKind::SetPeerConfig) == Handler::Peer,
        handler_of(CmdKind::GetPeerCard) == Handler::Peer,
        handler_of(CmdKind::SetPeerCard) == Handler::Peer,
        handler_of(CmdKind::GetPeerRepresentation) == Handler::Peer,
        handler_of(CmdKind::GetPeerContext) == Handler::Peer,
        handler_of(CmdKind::ListPeerSessions) == Handler::Peer,
        handler_of(CmdKind::Chat) == Handler::Peer,
        handler_of(CmdKind::StreamChat) == Handler::Peer,
        handler_of(CmdKind::ListSessions) == Handler::Session,
        handler_of(CmdKind::GetSession) == Handler::Session,
        handler_of(CmdKind::SetSessionMetadata) == Handler::Session,
        handler_of(CmdKind::SetSessionConfig) == Handler::Session,
        handler_of(CmdKind::GetSessionSummaries) == Handler::Session,
        handler_of(CmdKind::CloneSession) == Handler::Session,
        handler_of(CmdKind::DeleteSession) == Handler::Session,
        handler_of(CmdKind::GetSessionContext) == Handler::Session,
        handler_of(CmdKind::ListSessionPeers) == Handler::SessionPeer,
        handler_of(CmdKind::AddSessionPeer) == Handler::SessionPeer,
        handler_of(CmdKind::RemoveSessionPeer) == Handler::SessionPeer,
        handler_of(CmdKind::GetSessionPeerConfig) == Handler::SessionPeer,
        handler_of(CmdKind::SetSessionPeerConfig) == Handler::SessionPeer,
        handler_of(CmdKind::ListMessages) == Handler::Message,
        handler_of(CmdKind::GetMessage) == Handler::Message,
        handler_of(CmdKind::UpdateMessageMetadata) == Handler::Message,
        handler_of(CmdKind::ListWorkspaces) == Handler::Workspace,
        handler_of(CmdKind::DeleteWorkspace) == Handler::Workspace,
        handler_of(CmdKind::GetWorkspaceMetadata) == Handler::Workspace,
        handler_of(CmdKind::SetWorkspaceMetadata) == Handler::Workspace,
        handler_of(CmdKind::GetWorkspaceConfig) == Handler::Workspace,
        handler_of(CmdKind::SetWorkspaceConfig) == Handler::Workspace,
        handler_of(CmdKind::ScheduleDream) == Handler::Workspace,
        handler_of(CmdKind::QueueStatus) == Handler::Workspace,
        handler_of(CmdKind::Search) == Handler::Workspace,
        handler_of(CmdKind::ListConclusions) == Handler::Conclusion,
        handler_of(CmdKind::QueryConclusions) == Handler::Conclusion,
        handler_of(CmdKind::DeleteConclusion) == Handler::Conclusion,
        handler_of(CmdKind::CreateConclusion) == Handler::Conclusion,
        handler_of(CmdKind::GetConclusionRepresentation) == Handler::Conclusion,
        handler_of(CmdKind::UploadFile) == Handler::Upload,
        handler_of(CmdKind::UploadFileToMultiplePeers) == Handler::Upload,
        handler_of(CmdKind::Connect) == Handler::Unexpected,
        handler_of(CmdKind::Disconnect) == Handler::Unexpected,
{
}

/// Every command other than connect and disconnect has a handler of its own.
pub proof fn lemma_every_command_is_served(k: CmdKind)
    ensures
        (handler_of(k) == Handler::Unexpected) <==> is_connection_cmd(k),
{
}

/// What the actor does with a command.
#[derive(Clone, Copy, Debug, PartialEq, Eq)]
pub enum ActorAction {
    /// Refuse to connect again: a connection is already open.
    RefuseAlreadyConnected,
    /// Build a client and check that the workspace answers.
    Connect,
    /// Drop the client and confirm.
    Disconnect,
    /// Answer that there is no connection.
    ReplyNotConnected,
    /// Serve the command with this handler.
    Dispatch(Handler),
}

/// What happened to a connection attempt or a disconnection.
#[derive(Clone, Copy, Debug, PartialEq, Eq)]
pub enum ActorEvent {
    /// The client was built and the workspace answered; `reply_delivered`
    /// tells whether the requester was still waiting for the answer.
    Connected { reply_delivered: bool },
    /// Building the client or reaching the workspace failed.
    ConnectFailed,
    /// The client was dropped.
    Disconnected,
}

/// Whether the actor holds a client.
#[derive(Clone, Copy, Debug, PartialEq, Eq)]
pub struct ActorState {
    pub connected: bool,
}

/// What the actor does with a command of kind `k` when `connected` tells
/// whether it holds a client.
pub open spec fn action_for(connected: bool, k: CmdKind) -> ActorAction {
    match k {
        CmdKind::Connect => if connected {
            ActorAction::RefuseAlreadyConnected
        } else {
            ActorAction::Connect
        },
        CmdKind::Disconnect => ActorAction::Disconnect,
        _ => if connected {
            ActorAction::Dispatch(handler_of(k))
        } else {
            ActorAction::ReplyNotConnected
        },
    }
}

/// Whether the actor holds a client after an event.
pub open spec fn connected_after(connected: bool, ev: ActorEvent) -> bool {
    match ev {
        ActorEvent::Connected { reply_delivered } => connected || reply_delivered,
        ActorEvent::ConnectFailed => connected,
        ActorEvent::Disconnected => false,
    }
}

impl ActorState {
    /// An actor without a client.
    pub fn new() -> (r: Self)
        ensures
            !r.connected,
    {
        ActorState { connected: false }
    }

    /// What to do with a command of kind `k`.
    pub fn decide(&self, k: CmdKind) -> (r: ActorAction)
        ensures
            r == action_for(self.connected, k),
    {
        match k {
            CmdKind::Connect => if self.connected {
                ActorAction::RefuseAlreadyConnected
            } else {
                ActorAction::Connect
            },
            CmdKind::Disconnect => ActorAction::Disconnect,
            _ => if self.connected {
                ActorAction::Dispatch(route(k))
            } else {
                ActorAction::ReplyNotConnected
            },
        }
    }

    /// Records what happened to a connection attempt or a disconnection. A
    /// client is kept only when the requester received the answer.
    pub fn on_event(&mut self, ev: ActorEvent)
        ensures
            final(self).connected == connected_after(old(self).connected, ev),
    {
        match ev {
            ActorEvent::Connected { reply_delivered } => {
                if reply_delivered {
                    self.connected = true;
                }
            },
            ActorEvent::ConnectFailed => {},
            ActorEvent::Disconnected => {
                self.connected = false;
            },
        }
    }
}

/// The answer to a connect request while a connection is open.
pub fn already_connected_error() -> (r: AppError)
    ensures
        r matches AppError::Validation(m) && m@ == "already connected \u{2014} disconnect first"@,
{
    AppError::Validation(String::from_str("already connected \u{2014} disconnect first"))
}

/// The answer to a connection command that reached a handler of a connected
/// actor.
pub fn unexpected_command_error() -> (r: AppError)
    ensures
        r matches AppError::Validation(m) && m@ == "unexpected command in dispatch"@,
{
    AppError::Validation(String::from_str("unexpected command in dispatch"))
}

/// Without a connection, every command other than connect and disconnect is
/// answered that there is no connection.
pub proof fn lemma_disconnected_refuses(k: CmdKind)
    requires
        !is_connection_cmd(k),
    ensures
        action_for(false, k) == ActorAction::ReplyNotConnected,
{
}

/// With a connection, every command other than connect and disconnect goes to
/// its own handler, never to the one for unexpected commands.
pub proof fn lemma_connected_dispatches(k: CmdKind)
    requires
        !is_connection_cmd(k),
    ensures
        action_for(true, k) == ActorAction::Dispatch(handler_of(k)),
        handler_of(k) != Handler::Unexpected,
{
}

/// A second connect is refused and leaves the connection open; the actor
/// connects only when it has no connection.
pub proof fn lemma_connect_only_when_disconnected(connected: bool)
    ensures
        connected ==> action_for(connected, CmdKind::Connect)
            == ActorAction::RefuseAlreadyConnected,
        !connected ==> action_for(connected, CmdKind::Connect) == ActorAction::Connect,
{
}

/// A disconnect request is carried out whether or not a connection is open,
/// and it leaves the actor without a client.
pub proof fn lemma_disconnect_always_obeyed(connected: bool)
    ensures
        action_for(connected, CmdKind::Disconnect) == ActorAction::Disconnect,
        !connected_after(connected, ActorEvent::Disconnected),
{
}

/// After a disconnection the actor holds no client, whatever it held before;
/// a failed attempt changes nothing; a successful one whose answer was
/// delivered leaves a connection.
pub proof fn lemma_connection_events(connected: bool)
    ensures
        !connected_after(connected, ActorEvent::Disconnected),
        connected_after(connected, ActorEvent::ConnectFailed) == connected,
        connected_after(connected, ActorEvent::Connected { reply_delivered: true }),
        connected_after(false, ActorEvent::Connected { reply_delivered: false }) == false,
{
}

} // verus!
