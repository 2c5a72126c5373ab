//! What is selected in each section of the inspector.
use vstd::prelude::*;

verus! {

/// Per-section selection state. Each section has its own selected item; a
/// session belongs to a peer, and messages and conclusions to a session, so
/// choosing an outer item clears the inner ones.
#[derive(Clone, Debug, PartialEq, Eq)]
pub struct Selection {
    pub peer_id: Option<String>,
    pub session_id: Option<String>,
    pub message_id: Option<String>,
    pub conclusion_id: Option<String>,
}

impl Selection {
    /// A selection of the given items.
    pub fn new(
        peer_id: Option<String>,
        session_id: Option<String>,
        message_id: Option<String>,
        conclusion_id: Option<String>,
    ) -> (r: Self)
        ensures
            r == (Selection { peer_id, session_id, message_id, conclusion_id }),
    {
        Self { peer_id, session_id, message_id, conclusion_id }
    }

    /// Selects a peer; the session, message and conclusion are cleared.
    pub fn select_peer(&mut self, id: Option<String>)
        ensures
            *final(self) == (Selection {
                peer_id: id,
                session_id: None,
                message_id: None,
                conclusion_id: None,
            }),
    {
        self.peer_id = id;
        self.session_id = None;
        self.message_id = None;
        self.conclusion_id = None;
    }

    /// Selects a session of the selected peer; the message and conclusion are
    /// cleared.
    pub fn select_session(&mut self, id: Option<String>)
        ensures
            *final(self) == (Selection {
                peer_id: old(self).peer_id,
                session_id: id,
                message_id: None,
                conclusion_id: None,
            }),
    {
        self.session_id = id;
        self.message_id = None;
        self.conclusion_id = None;
    }

    /// Selects a message; nothing else changes.
    pub fn select_message(&mut self, id: Option<String>)
        ensures
            *final(self) == (Selection { message_id: id, ..*old(self) }),
    {
        self.message_id = id;
    }

    /// Selects a conclusion; nothing else changes.
    pub fn select_conclusion(&mut self, id: Option<String>)
        ensures
            *final(self) == (Selection { conclusion_id: id, ..*old(self) }),
    {
        self.conclusion_id = id;
    }

    /// Clears every selection.
    pub fn clear(&mut self)
        ensures
            *final(self) == (Selection {
                peer_id: None,
                session_id: None,
                message_id: None,
                conclusion_id: None,
            }),
    {
        self.peer_id = None;
        self.session_id = None;
        self.message_id = None;
        self.conclusion_id = None;
    }
}

impl Default for Selection {
    fn default() -> (r: Self)
        ensures
            r == (Selection {
                peer_id: None,
                session_id: None,
                message_id: None,
                conclusion_id: None,
            }),
    {
        Self { peer_id: None, session_id: None, message_id: None, conclusion_id: None }
    }
}

/// The sections of the inspector.
#[derive(Clone, Copy, Debug, PartialEq, Eq)]
pub enum InspectorSection {
    Peers,
    Sessions,
    Messages,
    Conclusions,
    Workspaces,
    RawJson,
}

/// The title of a section.
pub open spec fn section_label(s: InspectorSection) -> Seq<char> {
    match s {
        InspectorSection::Peers => "Peers"@,
        InspectorSection::Sessions => "Sessions"@,
        InspectorSection::Messages => "Messages"@,
        InspectorSection::Conclusions => "Conclusions"@,
        InspectorSection::Workspaces => "Workspaces"@,
        InspectorSection::RawJson => "Raw JSON"@,
    }
}

impl InspectorSection {
    /// Every section, in the order of the navigation bar.
    pub const ALL: [Self; 6] = [
        Self::Peers,
        Self::Sessions,
        Self::Messages,
        Self::Conclusions,
        Self::Workspaces,
        Self::RawJson,
    ];

    /// The title of the section.
    pub fn label(self) -> (r: &'static str)
        ensures
            r@ == section_label(self),
    {
        match self {
            Self::Peers => "Peers",
            Self::Sessions => "Sessions",
            Self::Messages => "Messages",
            Self::Conclusions => "Conclusions",
            Self::Workspaces => "Workspaces",
            Self::RawJson => "Raw JSON",
        }
    }
}

impl Default for InspectorSection {
    fn default() -> (r: Self)
        ensures
            r == InspectorSection::Peers,
    {
        InspectorSection::Peers
    }
}

} // verus!
