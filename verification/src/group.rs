//! Classification of group messages: comments relayed back to their true
//! author, the mute and ban commands, and the removal of messages from
//! authors outside the target board.

use vstd::prelude::*;
use crate::config::{Config, Template};
use crate::entity::{
    media_to_content, spec_invoke_author, spec_media_to_content, Content, MessageModel,
    UpdateModel,
};
use crate::flags::{flag_set, ONLY_SUBSCRIBERS};

verus! {

/// The service account the platform relays channel posts through.
pub const TELEGRAM_SERVICE_USER: u64 = 777000;

/// The identity behind anonymous group admins.
pub const ANONYMOUS_ADMIN_USER: u64 = 1087968824;

/// The identity behind posts sent as a channel.
pub const CHANNEL_BOT_USER: u64 = 136817688;

/// Whether a user id is the platform's own relay identity.
pub open spec fn spec_is_telegram(user: u64) -> bool {
    user == TELEGRAM_SERVICE_USER
}

pub open spec fn spec_is_anonymous(user: u64) -> bool {
    user == ANONYMOUS_ADMIN_USER
}

pub open spec fn spec_is_channel(user: u64) -> bool {
    user == CHANNEL_BOT_USER
}

/// What a group message asks for.
#[derive(Clone, Debug, PartialEq, Eq)]
pub enum GroupMessageKind {
    /// A comment in a post's reply thread; `replied_author` is the true
    /// author the thread points back to.
    Comment { thread: i32, replied_author: u64 },
    /// An admin command to mute this user.
    Mute(u64),
    /// An admin command to ban this user.
    Ban(u64),
    /// Nothing this library acts on.
    Dumb,
}

/// A classified group message.
#[derive(Clone, Debug, PartialEq, Eq)]
pub struct GroupMessage {
    pub id: i32,
    pub chat_id: i64,
    pub sender_chat_id: Option<i64>,
    pub url: String,
    pub author: u64,
    pub kind: GroupMessageKind,
}

/// The text the mute command is compared against, lowercased by the
/// platform's folding; named because the folding itself is outside this
/// library.
pub uninterp spec fn lower_of(s: Seq<char>) -> Seq<char>;

/// Relies on str::to_lowercase: the result depends on the characters
/// alone.
#[verifier::external_body]
fn lowercase(s: &str) -> (r: String)
    ensures
        r@ == lower_of(s@),
{
    s.to_lowercase()
}

/// Whether a text matches a command template, compared lowercased.
pub fn matches_command(text: &str, template: &str) -> (r: bool)
    ensures
        r == (lower_of(text@) == lower_of(template@)),
{
    let a = lowercase(text);
    let b = lowercase(template);
    a.eq(&b)
}

/// What `GroupMessage::from_message` returns: the faithful reading of the
/// message's metadata against the tenant's command templates.
pub open spec fn spec_from_message(
    msg: MessageModel,
    mute_cmd: Seq<char>,
    ban_cmd: Seq<char>,
) -> Option<GroupMessage> {
    match (msg.url, msg.common) {
        (Some(url), Some(common)) => {
            match common.from {
                Some(author) => {
                    match common.reply {
                        Some(reply) => {
                            match spec_media_to_content(common.media) {
                                Some(content) => {
                                    if reply.is_common {
                                        match reply.from {
                                            Some(replied_author) => {
                                                match spec_reply_kind(
                                                    content,
                                                    reply.id,
                                                    replied_author,
                                                    reply.media,
                                                    mute_cmd,
                                                    ban_cmd,
                                                ) {
                                                    Some(kind) => Some(
                                                        GroupMessage {
                                                            id: msg.id,
                                                            chat_id: msg.chat_id,
                                                            sender_chat_id: common.sender_chat_id,
                                                            url,
                                                            author,
                                                            kind,
                                                        },
                                                    ),
                                                    None => None,
                                                }
                                            },
                                            None => None,
                                        }
                                    } else {
                                        None
                                    }
                                },
                                None => None,
                            }
                        },
                        None => Some(
                            GroupMessage {
                                id: msg.id,
                                chat_id: msg.chat_id,
                                sender_chat_id: common.sender_chat_id,
                                url,
                                author,
                                kind: GroupMessageKind::Dumb,
                            },
                        ),
                    }
                },
                None => None,
            }
        },
        _ => None,
    }
}

/// How a reply chain is classified: behind the platform's relay identity
/// the thread's true author is resolved from the relayed post's
/// attribution; otherwise the reply target is taken as is, and the mute
/// and ban command texts are compared lowercased.
pub open spec fn spec_reply_kind(
    content: Content,
    thread: i32,
    replied_author: u64,
    replied_media: crate::entity::MediaKind,
    mute_cmd: Seq<char>,
    ban_cmd: Seq<char>,
) -> Option<GroupMessageKind> {
    if spec_is_telegram(replied_author) {
        match spec_media_to_content(replied_media) {
            Some(replied_content) => match spec_invoke_author(replied_content) {
                Some(true_author) => match spec_text_of(content) {
                    Some(t) => if lower_of(t) == lower_of(ban_cmd) {
                        Some(GroupMessageKind::Ban(true_author))
                    } else {
                        Some(GroupMessageKind::Comment { thread, replied_author: true_author })
                    },
                    None => None,
                },
                None => None,
            },
            None => None,
        }
    } else {
        match spec_text_of(content) {
            Some(t) => if lower_of(t) == lower_of(mute_cmd) {
                Some(GroupMessageKind::Mute(replied_author))
            } else if lower_of(t) == lower_of(ban_cmd) {
                Some(GroupMessageKind::Ban(replied_author))
            } else {
                Some(GroupMessageKind::Dumb)
            },
            None => None,
        }
    }
}

/// The plain text of a content, as `Content::text` reads it.
pub open spec fn spec_text_of(c: Content) -> Option<Seq<char>> {
    match c {
        Content::Text(t) => Some(t.text@),
        _ => None,
    }
}

impl GroupMessage {
    /// Classifies a raw group update; only ordinary messages qualify.
    pub fn from_update(u: UpdateModel, conf: &Config) -> (r: Option<GroupMessage>)
        requires
            conf.wf(),
        ensures
            r == match u {
                UpdateModel::Message(msg) => spec_from_message(
                    msg,
                    conf.templates@[Template::MuteCommand.spec_index()]@,
                    conf.templates@[Template::BanCommand.spec_index()]@,
                ),
                _ => None::<GroupMessage>,
            },
    {
        match u {
            UpdateModel::Message(msg) => Self::from_message(msg, conf),
            _ => None,
        }
    }

    /// Classifies one group message against the tenant's command
    /// templates.
    pub fn from_message(msg: MessageModel, conf: &Config) -> (r: Option<GroupMessage>)
        requires
            conf.wf(),
        ensures
            r == spec_from_message(
                msg,
                conf.templates@[Template::MuteCommand.spec_index()]@,
                conf.templates@[Template::BanCommand.spec_index()]@,
            ),
    {
        let url = match msg.url {
            Some(url) => url,
            None => {
                return None;
            },
        };
        let common = match msg.common {
            Some(c) => c,
            None => {
                return None;
            },
        };
        let author = match common.from {
            Some(a) => a,
            None => {
                return None;
            },
        };
        let kind = match common.reply {
            Some(reply) => {
                let content = match media_to_content(common.media) {
                    Some(c) => c,
                    None => {
                        return None;
                    },
                };
                if !reply.is_common {
                    return None;
                }
                let replied_author = match reply.from {
                    Some(a) => a,
                    None => {
                        return None;
                    },
                };
                if replied_author == TELEGRAM_SERVICE_USER {
                    let replied_content = match media_to_content(reply.media) {
                        Some(c) => c,
                        None => {
                            return None;
                        },
                    };
                    let true_author = match crate::entity::invoke_author(&replied_content) {
                        Some(a) => a,
                        None => {
                            return None;
                        },
                    };
                    let text = match content.text() {
                        Some(t) => t,
                        None => {
                            return None;
                        },
                    };
                    if matches_command(text, conf.template(Template::BanCommand)) {
                        GroupMessageKind::Ban(true_author)
                    } else {
                        GroupMessageKind::Comment { thread: reply.id, replied_author: true_author }
                    }
                } else {
                    let text = match content.text() {
                        Some(t) => t,
                        None => {
                            return None;
                        },
                    };
                    if matches_command(text, conf.template(Template::MuteCommand)) {
                        GroupMessageKind::Mute(replied_author)
                    } else if matches_command(text, conf.template(Template::BanCommand)) {
                        GroupMessageKind::Ban(replied_author)
                    } else {
                        GroupMessageKind::Dumb
                    }
                }
            },
            None => GroupMessageKind::Dumb,
        };
        Some(
            GroupMessage {
                id: msg.id,
                chat_id: msg.chat_id,
                sender_chat_id: common.sender_chat_id,
                url,
                author,
                kind,
            },
        )
    }
}

/// Whether a group message's author is an outsider to the target board:
/// the platform's own identities never are, a channel-sent post is alien
/// unless it comes from the linked channel itself, anyone else is alien
/// when not currently a member.
pub open spec fn spec_is_alien(
    author: u64,
    sender_chat_id: Option<i64>,
    channel: i64,
    is_member: bool,
) -> bool {
    if spec_is_telegram(author) || spec_is_anonymous(author) {
        false
    } else if spec_is_channel(author) {
        sender_chat_id != Some(channel)
    } else {
        !is_member
    }
}

pub fn is_alien(author: u64, sender_chat_id: Option<i64>, channel: i64, is_member: bool) -> (r:
    bool)
    ensures
        r == spec_is_alien(author, sender_chat_id, channel, is_member),
{
    if author == TELEGRAM_SERVICE_USER || author == ANONYMOUS_ADMIN_USER {
        false
    } else if author == CHANNEL_BOT_USER {
        match sender_chat_id {
            Some(c) => c != channel,
            None => true,
        }
    } else {
        !is_member
    }
}

/// What the runtime must do with a classified group message.
#[derive(Clone, Debug, PartialEq, Eq)]
pub enum GroupDirective {
    /// Delete the message: its author is outside the board and the tenant
    /// admits subscribers only.
    Delete,
    /// Tell the thread's true author about the new comment.
    NotifyAuthor { author: u64, thread: i32 },
    /// Restrict the user for two weeks.
    Restrict(u64),
    /// Ban the user from the board and from the group.
    BanBoth(u64),
    /// Tell the sender that only admins may do that.
    AdminsOnly,
    Nothing,
}

/// What `group_step` decides.
pub open spec fn spec_group_step(
    conf: Config,
    msg: GroupMessage,
    author_is_member: bool,
) -> GroupDirective {
    if spec_is_alien(msg.author, msg.sender_chat_id, conf.channel, author_is_member) && flag_set(
        conf.flags,
        ONLY_SUBSCRIBERS,
    ) {
        GroupDirective::Delete
    } else {
        match msg.kind {
            GroupMessageKind::Comment { thread, replied_author } => {
                if replied_author != msg.author {
                    GroupDirective::NotifyAuthor { author: replied_author, thread }
                } else {
                    GroupDirective::Nothing
                }
            },
            GroupMessageKind::Mute(user) => if conf.spec_is_admin(msg.author) {
                GroupDirective::Restrict(user)
            } else {
                GroupDirective::AdminsOnly
            },
            GroupMessageKind::Ban(user) => if conf.spec_is_admin(msg.author) {
                GroupDirective::BanBoth(user)
            } else {
                GroupDirective::AdminsOnly
            },
            GroupMessageKind::Dumb => GroupDirective::Nothing,
        }
    }
}

/// Decides what to do with one classified group message: outsiders'
/// messages are deleted when the tenant admits subscribers only; comments
/// notify the thread's true author unless they reply to themselves; the
/// mute and ban commands act only for admins and are otherwise refused.
pub fn group_step(conf: &Config, msg: &GroupMessage, author_is_member: bool) -> (r: GroupDirective)
    ensures
        r == spec_group_step(*conf, *msg, author_is_member),
{
    if is_alien(msg.author, msg.sender_chat_id, conf.channel, author_is_member)
        && conf.only_subscribers() {
        return GroupDirective::Delete;
    }
    match &msg.kind {
        GroupMessageKind::Comment { thread, replied_author } => {
            if *replied_author != msg.author {
                GroupDirective::NotifyAuthor { author: *replied_author, thread: *thread }
            } else {
                GroupDirective::Nothing
            }
        },
        GroupMessageKind::Mute(user) => if conf.is_admin(msg.author) {
            GroupDirective::Restrict(*user)
        } else {
            GroupDirective::AdminsOnly
        },
        GroupMessageKind::Ban(user) => if conf.is_admin(msg.author) {
            GroupDirective::BanBoth(*user)
        } else {
            GroupDirective::AdminsOnly
        },
        GroupMessageKind::Dumb => GroupDirective::Nothing,
    }
}

} // verus!
