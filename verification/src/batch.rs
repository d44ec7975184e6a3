//! The rows that one tick of the change feed inserts, table by table.

use vstd::prelude::*;

verus! {

/// A row of a reference table: it gives an entity its display name.
#[derive(Debug, Clone, PartialEq, Eq)]
pub struct ReferenceRow {
    pub entity_id: u64,
    pub name: String,
}

/// The mathematical value of a [`ReferenceRow`].
pub struct ReferenceRowView {
    pub entity_id: u64,
    pub name: Seq<char>,
}

impl View for ReferenceRow {
    type V = ReferenceRowView;

    open spec fn view(&self) -> ReferenceRowView {
        ReferenceRowView { entity_id: self.entity_id, name: self.name@ }
    }
}

/// The channels whose chat is relayed, and one variant for all the others.
#[derive(Debug, Clone, Copy, PartialEq, Eq, Structural)]
pub enum ChatChannel {
    EmpireInternal,
    EmpirePublic,
    Claim,
    Region,
    Other,
}

/// The numbers under which the change feed names the relayed channels.
#[derive(Debug, Clone, Copy, PartialEq, Eq, Structural)]
pub struct ChannelCodes {
    pub empire_internal: i32,
    pub empire_public: i32,
    pub claim: i32,
    pub region: i32,
}

/// The channel that a channel number stands for. A number that is none of
/// the four codes is `Other`.
pub open spec fn channel_of(codes: ChannelCodes, channel_id: i32) -> ChatChannel {
    if channel_id == codes.empire_internal {
        ChatChannel::EmpireInternal
    } else if channel_id == codes.empire_public {
        ChatChannel::EmpirePublic
    } else if channel_id == codes.claim {
        ChatChannel::Claim
    } else if channel_id == codes.region {
        ChatChannel::Region
    } else {
        ChatChannel::Other
    }
}

impl ChannelCodes {
    /// Tells which channel a channel number stands for.
    pub fn classify(&self, channel_id: i32) -> (channel: ChatChannel)
        ensures
            channel == channel_of(*self, channel_id),
    {
        if channel_id == self.empire_internal {
            ChatChannel::EmpireInternal
        } else if channel_id == self.empire_public {
            ChatChannel::EmpirePublic
        } else if channel_id == self.claim {
            ChatChannel::Claim
        } else if channel_id == self.region {
            ChatChannel::Region
        } else {
            ChatChannel::Other
        }
    }
}

/// A row of the chat table: one message that a player wrote.
#[derive(Debug, Clone, PartialEq, Eq)]
pub struct ChatRow {
    /// The number of the channel the message was written in.
    pub channel_id: i32,
    /// The empire or claim the channel belongs to, where it belongs to one.
    pub target_id: u64,
    pub username: String,
    pub text: String,
    /// When the message was written, in seconds since the Unix epoch. It is
    /// carried along and plays no part in the notification.
    pub timestamp: i64,
}

/// The mathematical value of a [`ChatRow`].
pub struct ChatRowView {
    pub channel_id: i32,
    pub target_id: u64,
    pub username: Seq<char>,
    pub text: Seq<char>,
    pub timestamp: i64,
}

impl View for ChatRow {
    type V = ChatRowView;

    open spec fn view(&self) -> ChatRowView {
        ChatRowView {
            channel_id: self.channel_id,
            target_id: self.target_id,
            username: self.username@,
            text: self.text@,
            timestamp: self.timestamp,
        }
    }
}

/// What a moderation action forbids, and whether for good.
#[derive(Debug, Clone, Copy, PartialEq, Eq, Structural)]
pub enum ModerationPolicy {
    PermanentBlockLogin,
    TemporaryBlockLogin,
    BlockChat,
    BlockConstruct,
}

/// A row of the moderation table: one ban.
#[derive(Debug, Clone, Copy, PartialEq, Eq, Structural)]
pub struct ModerationRow {
    pub target_entity_id: u64,
    pub policy: ModerationPolicy,
    /// When the ban ends, in microseconds since the Unix epoch.
    pub expiration_time: i64,
}

/// All rows that one tick inserted. Each table's rows are in the order in
/// which the feed gave them.
#[derive(Debug, Clone, PartialEq, Eq)]
pub struct UpdateBatch {
    pub claims: Vec<ReferenceRow>,
    pub empires: Vec<ReferenceRow>,
    pub players: Vec<ReferenceRow>,
    pub chats: Vec<ChatRow>,
    pub moderations: Vec<ModerationRow>,
}

/// The mathematical value of an [`UpdateBatch`].
pub struct UpdateBatchView {
    pub claims: Seq<ReferenceRowView>,
    pub empires: Seq<ReferenceRowView>,
    pub players: Seq<ReferenceRowView>,
    pub chats: Seq<ChatRowView>,
    pub moderations: Seq<ModerationRow>,
}

/// The values of a sequence of reference rows, in order.
pub open spec fn reference_views(rows: Seq<ReferenceRow>) -> Seq<ReferenceRowView> {
    rows.map_values(|r: ReferenceRow| r@)
}

/// The values of a sequence of chat rows, in order.
pub open spec fn chat_views(rows: Seq<ChatRow>) -> Seq<ChatRowView> {
    rows.map_values(|r: ChatRow| r@)
}

impl View for UpdateBatch {
    type V = UpdateBatchView;

    open spec fn view(&self) -> UpdateBatchView {
        UpdateBatchView {
            claims: reference_views(self.claims@),
            empires: reference_views(self.empires@),
            players: reference_views(self.players@),
            chats: chat_views(self.chats@),
            moderations: self.moderations@,
        }
    }
}

impl UpdateBatch {
    /// A tick in which nothing was inserted.
    pub fn new() -> (batch: UpdateBatch)
        ensures
            batch@ == (UpdateBatchView {
                claims: Seq::empty(),
                empires: Seq::empty(),
                players: Seq::empty(),
                chats: Seq::empty(),
                moderations: Seq::empty(),
            }),
    {
        let batch = UpdateBatch {
            claims: Vec::new(),
            empires: Vec::new(),
            players: Vec::new(),
            chats: Vec::new(),
            moderations: Vec::new(),
        };
        assert(batch@.claims =~= Seq::empty());
        assert(batch@.empires =~= Seq::empty());
        assert(batch@.players =~= Seq::empty());
        assert(batch@.chats =~= Seq::empty());
        batch
    }
}

} // verus!
