//! The chat-bot bookkeeping: the update records a bot receives, and the
//! verified part of polling them — filtering updates by sender and
//! advancing the read offset. Sending and receiving over the network is
//! the caller's business; this module only decides what to keep and where
//! to resume.

use vstd::prelude::*;
use vstd::seq_lib::*;

verus! {

/// The sender of a chat message.
#[derive(Debug)]
pub struct TelegramSource {
    /// The sender's numeric account id.
    pub id: u32,
    /// Whether the sender is itself a bot.
    pub is_bot: bool,
    /// The sender's first name.
    pub first_name: String,
    /// The sender's last name.
    pub last_name: String,
    /// The sender's account name.
    pub username: String,
    /// The sender's language code.
    pub language_code: String,
}

/// The chat a message was posted in.
#[derive(Debug)]
pub struct TelegramChat {
    /// The chat's numeric id.
    pub id: u32,
    /// First name of the chat partner.
    pub first_name: String,
    /// Last name of the chat partner.
    pub last_name: String,
    /// Account name of the chat partner.
    pub username: String,
    /// The chat's kind, as the service names it.
    pub kind: String,
}

/// One chat message.
#[derive(Debug)]
pub struct TelegramMessage {
    /// The message's id within its chat.
    pub message_id: u32,
    /// Who sent it.
    pub from: TelegramSource,
    /// Where it was posted.
    pub chat: TelegramChat,
    /// When it was posted, in seconds since the epoch.
    pub date: u64,
    /// The message text.
    pub text: String,
}

/// One update delivered to the bot: a message with a global update id.
#[derive(Debug)]
pub struct TelegramBotUpdate {
    /// The service-wide, strictly increasing update id.
    pub update_id: u32,
    /// The delivered message.
    pub message: TelegramMessage,
}

/// One poll answer: a status flag and the delivered updates.
#[derive(Debug)]
pub struct TelegramResult {
    /// Whether the service reported success.
    pub ok: bool,
    /// The delivered updates, oldest first.
    pub result: Vec<TelegramBotUpdate>,
}

/// Whether an update passes the bot's sender filter: with no filter every
/// update is kept, otherwise only those from the configured account.
pub open spec fn spec_update_wanted(filter: Option<u32>, u: TelegramBotUpdate) -> bool {
    match filter {
        Option::None => true,
        Option::Some(id) => u.message.from.id == id,
    }
}

/// The sender filter as a predicate over updates.
pub open spec fn spec_wanted_pred(filter: Option<u32>) -> spec_fn(TelegramBotUpdate) -> bool {
    |u: TelegramBotUpdate| spec_update_wanted(filter, u)
}

/// The read offset after keeping `kept`: one past the last kept update's
/// id, saturating at the largest id, or the previous offset when nothing
/// was kept.
pub open spec fn spec_next_offset(prev: u32, kept: Seq<TelegramBotUpdate>) -> u32 {
    if kept.len() == 0 {
        prev
    } else if kept[kept.len() - 1].update_id == u32::MAX {
        u32::MAX
    } else {
        (kept[kept.len() - 1].update_id + 1) as u32
    }
}

/// The bot's identity and polling state: its credentials, the chat it
/// serves, the next update offset, and an optional sender filter.
pub struct TelegramBot {
    /// The bot's access token.
    pub bot_token: String,
    /// The id of the chat the bot posts to.
    pub chat_id: String,
    /// The offset the next poll resumes from.
    pub last_read_upd: u32,
    /// Keep only updates from this account, when set.
    pub from_usr_id: Option<u32>,
}

impl TelegramBot {
    /// A bot that has read nothing yet.
    pub fn new(bot_token: String, chat_id: String, from_usr_id: Option<u32>) -> (r: TelegramBot)
        ensures
            r.bot_token@ == bot_token@,
            r.chat_id@ == chat_id@,
            r.last_read_upd == 0,
            r.from_usr_id == from_usr_id,
    {
        TelegramBot { bot_token, chat_id, last_read_upd: 0, from_usr_id }
    }

    /// Keeps the updates that pass the sender filter, in order, and
    /// advances the read offset to one past the last kept update.
    pub fn process_updates(&mut self, updates: Vec<TelegramBotUpdate>) -> (r: Vec<
        TelegramBotUpdate,
    >)
        ensures
            r@ == updates@.filter(spec_wanted_pred(old(self).from_usr_id)),
            final(self).bot_token == old(self).bot_token,
            final(self).chat_id == old(self).chat_id,
            final(self).from_usr_id == old(self).from_usr_id,
            final(self).last_read_upd == spec_next_offset(old(self).last_read_upd, r@),
    {
        let ghost orig = updates@;
        let ghost pred = spec_wanted_pred(self.from_usr_id);
        let mut updates = updates;
        let mut kept: Vec<TelegramBotUpdate> = Vec::new();
        let ghost mut k: int = 0;
        proof {
            assert(orig.take(0).filter(pred) =~= Seq::<TelegramBotUpdate>::empty());
            assert(orig.skip(0) =~= orig);
        }
        while updates.len() > 0
            invariant
                0 <= k <= orig.len(),
                updates@ =~= orig.skip(k),
                kept@ == orig.take(k).filter(pred),
                pred == spec_wanted_pred(self.from_usr_id),
                self == old(self),
            decreases updates@.len(),
        {
            let u = updates.remove(0);
            proof {
                assert(orig.skip(k).remove(0) =~= orig.skip(k + 1));
                assert(u == orig[k]);
                orig.lemma_take_succ_push(k);
                orig.take(k).lemma_filter_push(orig[k], pred);
                assert(orig.take(k + 1).filter(pred) == orig.take(k).push(orig[k]).filter(pred));
            }
            let keep = match self.from_usr_id {
                Option::Some(id) => u.message.from.id == id,
                Option::None => true,
            };
            if keep {
                kept.push(u);
            }
            proof {
                k = k + 1;
            }
        }
        proof {
            assert(k == orig.len());
            orig.lemma_take_len();
        }
        if kept.len() > 0 {
            let last_id = kept[kept.len() - 1].update_id;
            self.last_read_upd = if last_id == u32::MAX {
                u32::MAX
            } else {
                last_id + 1
            };
        }
        kept
    }
}

} // verus!
