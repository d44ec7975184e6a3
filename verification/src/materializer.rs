//! The materializer: it keeps the name caches up to date and turns the chat
//! and moderation rows of each tick into notifications.
//!
//! A name that is not in the cache is no fault. A chat row whose empire or
//! claim has no cached name gets no notification, and nothing is reported. A
//! moderation row whose player has no cached name speaks of the player by a
//! label made of the id in braces.

use vstd::prelude::*;
use vstd::string::*;
use crate::batch::{
    channel_of, chat_views, ChannelCodes, ChatChannel, ChatRow, ChatRowView, ModerationPolicy,
    ModerationRow, ReferenceRowView, UpdateBatch, UpdateBatchView,
};
use crate::cache::{
    absorb, is_last_naming, lemma_absorb_domain, lemma_absorb_last_wins,
    lemma_absorb_repeated_row, lemma_absorb_twice, names_entity, NameCache,
};
use crate::message::{
    as_expiry, expiry_phrase, message_views, moderation_content, moderation_sender,
    tagged_username, Message, MessageView,
};
use crate::text::{decimal, u64_to_decimal};

verus! {

/// The state of a materializer: one name cache for each reference table, and
/// the channel numbers it was made with.
pub struct MaterializerView {
    pub claims: Map<u64, Seq<char>>,
    pub empires: Map<u64, Seq<char>>,
    pub players: Map<u64, Seq<char>>,
    pub codes: ChannelCodes,
}

/// The state after the reference rows of a tick have been taken in.
pub open spec fn absorb_batch(state: MaterializerView, batch: UpdateBatchView) -> MaterializerView {
    MaterializerView {
        claims: absorb(state.claims, batch.claims),
        empires: absorb(state.empires, batch.empires),
        players: absorb(state.players, batch.players),
        codes: state.codes,
    }
}

/// The label that stands for an entity whose name is not known: its id in
/// braces.
pub open spec fn fallback_label(id: u64) -> Seq<char> {
    "{"@ + decimal(id as nat) + "}"@
}

/// The name under which a moderation notice speaks of a player: the cached
/// name, or the fallback label where the cache has none.
pub open spec fn player_label(players: Map<u64, Seq<char>>, id: u64) -> Seq<char> {
    if players.contains_key(id) {
        players[id]
    } else {
        fallback_label(id)
    }
}

/// What a policy bans a user from.
pub open spec fn policy_action(policy: ModerationPolicy) -> Seq<char> {
    match policy {
        ModerationPolicy::PermanentBlockLogin => "logging in"@,
        ModerationPolicy::TemporaryBlockLogin => "logging in"@,
        ModerationPolicy::BlockChat => "chatting"@,
        ModerationPolicy::BlockConstruct => "building"@,
    }
}

/// For how long a policy bans, given the row's expiry in microseconds.
pub open spec fn policy_expiry(policy: ModerationPolicy, micros: int) -> Seq<char> {
    match policy {
        ModerationPolicy::PermanentBlockLogin => "permanently"@,
        _ => expiry_phrase(micros),
    }
}

/// The notification for a chat row, if it gets one: none for a channel that
/// is not relayed, and none where the empire or claim has no cached name.
pub open spec fn chat_notification(state: MaterializerView, row: ChatRowView) -> Option<
    MessageView,
> {
    match channel_of(state.codes, row.channel_id) {
        ChatChannel::EmpireInternal | ChatChannel::EmpirePublic => {
            if state.empires.contains_key(row.target_id) {
                Some(
                    MessageView::Chat {
                        username: tagged_username(row.username, state.empires[row.target_id]),
                        content: row.text,
                    },
                )
            } else {
                None
            }
        },
        ChatChannel::Claim => {
            if state.claims.contains_key(row.target_id) {
                Some(
                    MessageView::Chat {
                        username: tagged_username(row.username, state.claims[row.target_id]),
                        content: row.text,
                    },
                )
            } else {
                None
            }
        },
        ChatChannel::Region => Some(
            MessageView::Chat { username: row.username, content: row.text },
        ),
        ChatChannel::Other => None,
    }
}

/// The notifications for a sequence of chat rows, in the rows' order.
pub open spec fn chat_notifications(state: MaterializerView, rows: Seq<ChatRowView>) -> Seq<
    MessageView,
>
    decreases rows.len(),
{
    if rows.len() == 0 {
        Seq::empty()
    } else {
        let before = chat_notifications(state, rows.drop_last());
        match chat_notification(state, rows.last()) {
            Some(m) => before.push(m),
            None => before,
        }
    }
}

/// The notification for a moderation row. Every row gets one.
pub open spec fn moderation_notification(
    players: Map<u64, Seq<char>>,
    row: ModerationRow,
) -> MessageView {
    MessageView::Chat {
        username: moderation_sender(),
        content: moderation_content(
            player_label(players, row.target_entity_id),
            policy_action(row.policy),
            policy_expiry(row.policy, row.expiration_time as int),
        ),
    }
}

/// The notifications for a sequence of moderation rows, in the rows' order.
pub open spec fn moderation_notifications(
    players: Map<u64, Seq<char>>,
    rows: Seq<ModerationRow>,
) -> Seq<MessageView> {
    rows.map_values(|row: ModerationRow| moderation_notification(players, row))
}

/// What one tick emits: the notifications of its chat rows, then those of
/// its moderation rows, all resolved against the caches as they are after
/// the tick's own reference rows.
pub open spec fn tick_output(state: MaterializerView, batch: UpdateBatchView) -> Seq<MessageView> {
    let after = absorb_batch(state, batch);
    chat_notifications(after, batch.chats) + moderation_notifications(
        after.players,
        batch.moderations,
    )
}

/// The three name caches and the rules that turn rows into notifications.
pub struct Materializer {
    claims: NameCache,
    empires: NameCache,
    players: NameCache,
    codes: ChannelCodes,
}

impl View for Materializer {
    type V = MaterializerView;

    closed spec fn view(&self) -> MaterializerView {
        MaterializerView {
            claims: self.claims@,
            empires: self.empires@,
            players: self.players@,
            codes: self.codes,
        }
    }
}

/// Makes an owned copy of a cached name.
fn owned_name(name: Option<&String>) -> (r: Option<String>)
    ensures
        name is Some <==> r is Some,
        name matches Some(n) ==> r->Some_0@ == n@,
{
    match name {
        Some(n) => Some(n.clone()),
        None => None,
    }
}

impl Materializer {
    /// A materializer with empty caches.
    pub fn new(codes: ChannelCodes) -> (m: Materializer)
        ensures
            m@ == (MaterializerView {
                claims: Map::empty(),
                empires: Map::empty(),
                players: Map::empty(),
                codes: codes,
            }),
    {
        Materializer {
            claims: NameCache::new(),
            empires: NameCache::new(),
            players: NameCache::new(),
            codes,
        }
    }

    /// The cached name of a claim.
    pub fn claim_name(&self, id: u64) -> (name: Option<String>)
        ensures
            name is Some <==> self@.claims.contains_key(id),
            name matches Some(n) ==> n@ == self@.claims[id],
    {
        owned_name(self.claims.get(id))
    }

    /// The cached name of an empire.
    pub fn empire_name(&self, id: u64) -> (name: Option<String>)
        ensures
            name is Some <==> self@.empires.contains_key(id),
            name matches Some(n) ==> n@ == self@.empires[id],
    {
        owned_name(self.empires.get(id))
    }

    /// The cached name of a player.
    pub fn player_name(&self, id: u64) -> (name: Option<String>)
        ensures
            name is Some <==> self@.players.contains_key(id),
            name matches Some(n) ==> n@ == self@.players[id],
    {
        owned_name(self.players.get(id))
    }

    /// Resolves one chat row against the caches.
    pub fn resolve_chat(&self, row: &ChatRow) -> (r: Option<Message>)
        ensures
            match r {
                Some(m) => chat_notification(self@, row@) == Some(m@),
                None => chat_notification(self@, row@) is None,
            },
    {
        match self.codes.classify(row.channel_id) {
            ChatChannel::EmpireInternal | ChatChannel::EmpirePublic => {
                match self.empires.get(row.target_id) {
                    Some(empire) => Some(
                        Message::empire(row.username.clone(), empire.as_str(), row.text.clone()),
                    ),
                    None => None,
                }
            },
            ChatChannel::Claim => {
                match self.claims.get(row.target_id) {
                    Some(claim) => Some(
                        Message::claim(row.username.clone(), claim.as_str(), row.text.clone()),
                    ),
                    None => None,
                }
            },
            ChatChannel::Region => Some(Message::chat(row.username.clone(), row.text.clone())),
            ChatChannel::Other => None,
        }
    }

    /// Resolves one moderation row against the player cache. A player
    /// without a cached name appears under the fallback label.
    pub fn resolve_moderation(&self, row: &ModerationRow) -> (m: Message)
        ensures
            m@ == moderation_notification(self@.players, *row),
    {
        let user = match self.players.get(row.target_entity_id) {
            Some(name) => name.clone(),
            None => {
                let mut label = String::from_str("{");
                let digits = u64_to_decimal(row.target_entity_id);
                label.append(digits.as_str());
                label.append("}");
                label
            },
        };
        match row.policy {
            ModerationPolicy::PermanentBlockLogin => Message::moderation(
                user,
                "logging in",
                "permanently",
            ),
            ModerationPolicy::TemporaryBlockLogin => {
                let expiry = as_expiry(row.expiration_time);
                Message::moderation(user, "logging in", expiry.as_str())
            },
            ModerationPolicy::BlockChat => {
                let expiry = as_expiry(row.expiration_time);
                Message::moderation(user, "chatting", expiry.as_str())
            },
            ModerationPolicy::BlockConstruct => {
                let expiry = as_expiry(row.expiration_time);
                Message::moderation(user, "building", expiry.as_str())
            },
        }
    }

    /// Takes in one tick: first all its reference rows, then its chat rows,
    /// then its moderation rows. Returns the notifications to enqueue, in
    /// order.
    pub fn apply(&mut self, batch: &UpdateBatch) -> (out: Vec<Message>)
        ensures
            final(self)@ == absorb_batch(old(self)@, batch@),
            message_views(out@) == tick_output(old(self)@, batch@),
    {
        self.claims.absorb_rows(&batch.claims);
        self.empires.absorb_rows(&batch.empires);
        self.players.absorb_rows(&batch.players);
        let ghost after = self@;
        let ghost chats = chat_views(batch.chats@);
        let mut out: Vec<Message> = Vec::new();
        let mut i: usize = 0;
        while i < batch.chats.len()
            invariant
                i <= batch.chats.len(),
                self@ == after,
                chats == chat_views(batch.chats@),
                message_views(out@) == chat_notifications(after, chats.take(i as int)),
            decreases batch.chats.len() - i,
        {
            proof {
                assert(chats.take(i as int + 1).drop_last() =~= chats.take(i as int));
            }
            if let Some(m) = self.resolve_chat(&batch.chats[i]) {
                out.push(m);
            }
            i = i + 1;
        }
        let ghost chat_part = out@;
        let mut j: usize = 0;
        proof {
            assert(chats.take(i as int) =~= chats);
        }
        while j < batch.moderations.len()
            invariant
                j <= batch.moderations.len(),
                self@ == after,
                message_views(out@) == message_views(chat_part) + moderation_notifications(
                    after.players,
                    batch.moderations@.take(j as int),
                ),
            decreases batch.moderations.len() - j,
        {
            let ghost before = out@;
            let m = self.resolve_moderation(&batch.moderations[j]);
            out.push(m);
            proof {
                assert(message_views(out@) =~= message_views(before).push(m@));
            }
            j = j + 1;
        }
        out
    }
}

/// Whether the reference rows of `batch` name the group that the chat row
/// `row` speaks in: the empire for the two empire channels, the claim for the
/// claim channel.
pub open spec fn names_group_of(
    codes: ChannelCodes,
    batch: UpdateBatchView,
    row: ChatRowView,
) -> bool {
    match channel_of(codes, row.channel_id) {
        ChatChannel::EmpireInternal | ChatChannel::EmpirePublic => names_entity(
            batch.empires,
            row.target_id,
        ),
        ChatChannel::Claim => names_entity(batch.claims, row.target_id),
        _ => false,
    }
}

/// A reference row that a tick holds twice in a row counts once: the caches
/// and the notifications of the tick are the same, whichever of the three
/// reference tables the row belongs to and wherever among its rows the row
/// stands.
pub proof fn lemma_repeated_reference_row(
    state: MaterializerView,
    batch: UpdateBatchView,
    before: Seq<ReferenceRowView>,
    row: ReferenceRowView,
    after: Seq<ReferenceRowView>,
)
    ensures
        ({
            let once = UpdateBatchView { claims: before.push(row) + after, ..batch };
            let twice = UpdateBatchView { claims: before.push(row).push(row) + after, ..batch };
            absorb_batch(state, twice) == absorb_batch(state, once) && tick_output(state, twice)
                == tick_output(state, once)
        }),
        ({
            let once = UpdateBatchView { empires: before.push(row) + after, ..batch };
            let twice = UpdateBatchView { empires: before.push(row).push(row) + after, ..batch };
            absorb_batch(state, twice) == absorb_batch(state, once) && tick_output(state, twice)
                == tick_output(state, once)
        }),
        ({
            let once = UpdateBatchView { players: before.push(row) + after, ..batch };
            let twice = UpdateBatchView { players: before.push(row).push(row) + after, ..batch };
            absorb_batch(state, twice) == absorb_batch(state, once) && tick_output(state, twice)
                == tick_output(state, once)
        }),
{
    lemma_absorb_repeated_row(state.claims, before, row, after);
    lemma_absorb_repeated_row(state.empires, before, row, after);
    lemma_absorb_repeated_row(state.players, before, row, after);
}

/// A tick that is taken in a second time leaves the caches as they are and
/// gives the same notifications again.
pub proof fn lemma_tick_reapplied(state: MaterializerView, batch: UpdateBatchView)
    ensures
        absorb_batch(absorb_batch(state, batch), batch) == absorb_batch(state, batch),
        tick_output(absorb_batch(state, batch), batch) == tick_output(state, batch),
{
    lemma_absorb_twice(state.claims, batch.claims);
    lemma_absorb_twice(state.empires, batch.empires);
    lemma_absorb_twice(state.players, batch.players);
}

/// A notification that a chat row gets is among those of any sequence of
/// rows that holds the row.
pub proof fn lemma_chat_notification_emitted(
    state: MaterializerView,
    rows: Seq<ChatRowView>,
    k: int,
)
    requires
        0 <= k < rows.len(),
        chat_notification(state, rows[k]) is Some,
    ensures
        chat_notifications(state, rows).contains(chat_notification(state, rows[k])->Some_0),
    decreases rows.len(),
{
    let m = chat_notification(state, rows[k])->Some_0;
    let front = rows.drop_last();
    let before = chat_notifications(state, front);
    let all = chat_notifications(state, rows);
    if k == rows.len() - 1 {
        assert(all[all.len() - 1] == m);
    } else {
        lemma_chat_notification_emitted(state, front, k);
        let at = choose|at: int| 0 <= at < before.len() && before[at] == m;
        assert(all[at] == m);
    }
}

/// A chat row whose empire or claim is named by a reference row of the same
/// tick is resolved: the tick emits its notification, although the caches
/// did not know the name before the tick.
pub proof fn lemma_same_tick_chat_resolves(
    state: MaterializerView,
    batch: UpdateBatchView,
    k: int,
)
    requires
        0 <= k < batch.chats.len(),
        names_group_of(state.codes, batch, batch.chats[k]),
    ensures
        chat_notification(absorb_batch(state, batch), batch.chats[k]) is Some,
        tick_output(state, batch).contains(
            chat_notification(absorb_batch(state, batch), batch.chats[k])->Some_0,
        ),
{
    let after = absorb_batch(state, batch);
    let row = batch.chats[k];
    lemma_absorb_domain(state.empires, batch.empires, row.target_id);
    lemma_absorb_domain(state.claims, batch.claims, row.target_id);
    lemma_chat_notification_emitted(after, batch.chats, k);
    let m = chat_notification(after, row)->Some_0;
    let chat_part = chat_notifications(after, batch.chats);
    let at = choose|at: int| 0 <= at < chat_part.len() && chat_part[at] == m;
    assert(tick_output(state, batch)[at] == m);
}

/// The name that such a chat row is resolved with is that of the last
/// reference row of the tick that names its group.
pub proof fn lemma_same_tick_chat_name(
    state: MaterializerView,
    batch: UpdateBatchView,
    k: int,
    i: int,
)
    requires
        0 <= k < batch.chats.len(),
        match channel_of(state.codes, batch.chats[k].channel_id) {
            ChatChannel::EmpireInternal | ChatChannel::EmpirePublic => is_last_naming(
                batch.empires,
                batch.chats[k].target_id,
                i,
            ),
            ChatChannel::Claim => is_last_naming(batch.claims, batch.chats[k].target_id, i),
            _ => false,
        },
    ensures
        chat_notification(absorb_batch(state, batch), batch.chats[k]) == Some(
            MessageView::Chat {
                username: tagged_username(
                    batch.chats[k].username,
                    if channel_of(state.codes, batch.chats[k].channel_id) is Claim {
                        batch.claims[i].name
                    } else {
                        batch.empires[i].name
                    },
                ),
                content: batch.chats[k].text,
            },
        ),
{
    let row = batch.chats[k];
    if channel_of(state.codes, row.channel_id) is Claim {
        lemma_absorb_last_wins(state.claims, batch.claims, row.target_id, i);
    } else {
        lemma_absorb_last_wins(state.empires, batch.empires, row.target_id, i);
    }
}

/// A moderation row whose player is named by a reference row of the same
/// tick speaks of the player by that name, not by the fallback label, and
/// the tick emits that notice.
pub proof fn lemma_same_tick_player_resolves(
    state: MaterializerView,
    batch: UpdateBatchView,
    k: int,
    i: int,
)
    requires
        0 <= k < batch.moderations.len(),
        is_last_naming(batch.players, batch.moderations[k].target_entity_id, i),
    ensures
        player_label(absorb_batch(state, batch).players, batch.moderations[k].target_entity_id)
            == batch.players[i].name,
        tick_output(state, batch).contains(
            moderation_notification(absorb_batch(state, batch).players, batch.moderations[k]),
        ),
{
    let after = absorb_batch(state, batch);
    let row = batch.moderations[k];
    lemma_absorb_last_wins(state.players, batch.players, row.target_entity_id, i);
    let chat_part = chat_notifications(after, batch.chats);
    let notices = moderation_notifications(after.players, batch.moderations);
    assert(tick_output(state, batch)[chat_part.len() + k] == notices[k]);
}

} // verus!
