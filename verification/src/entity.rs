//! The events a conversation is driven by: button callbacks, user and admin
//! actions, and message content, together with the plain-value model of the
//! message metadata the library reads.

use vstd::prelude::*;
use crate::parse::{digits_val, parse_u32, parse_u64, parses_as_u32, parses_as_u64};
use crate::res;
use crate::util::str_eq;

verus! {

/// What a classified ad is for.
#[derive(Clone, Copy, Debug, PartialEq, Eq)]
pub enum Target {
    Buy,
    Sell,
    Ask,
    Recommend,
}

/// The payload of an inline button, round-tripped through the compact
/// callback encoding.
#[derive(Clone, Debug, PartialEq, Eq)]
pub enum CallbackResponse {
    Yes,
    No,
    Target(Target),
    User(u64),
    Remove(Vec<i32>),
    AdminToRemove(u64),
    AddTag(String, i32),
    RemoveTag(String, i32),
    ApproveSubscribe(u64, i64),
    DeclineSubscribe(u64),
    BanSubscribe(u64),
}

/// A text entity attached to a message: only attribution links and direct
/// mentions matter to this library.
#[derive(Clone, Debug, PartialEq, Eq)]
pub enum EntityKind {
    /// A link; `query` is the query part of its address, if it has one.
    TextLink { query: Option<String> },
    /// A direct mention of a user.
    TextMention { user: u64 },
    Other,
}

/// A text with its entities.
#[derive(Clone, Debug, PartialEq, Eq)]
pub struct MediaText {
    pub text: String,
    pub entities: Vec<EntityKind>,
}

/// One size variant of a photo.
#[derive(Clone, Debug, PartialEq, Eq)]
pub struct PhotoSize {
    pub height: u32,
    pub file_id: String,
}

/// The media of an incoming message, as far as this library reads it.
#[derive(Clone, Debug, PartialEq, Eq)]
pub enum MediaKind {
    Photo { sizes: Vec<PhotoSize>, caption: Option<String>, caption_entities: Vec<EntityKind> },
    Text(MediaText),
    Other,
}

/// The content of a common message, after commands have been filtered out.
#[derive(Clone, Debug, PartialEq, Eq)]
pub enum Content {
    Text(MediaText),
    Photo(String),
    TextAndPhoto(MediaText, String),
}

/// A command a user typed or pressed.
#[derive(Clone, Copy, Debug, PartialEq, Eq)]
pub enum Command {
    Help,
    Create,
    Publish,
    Ban,
    Unban,
    AddAdmin,
    RemoveAdmin,
}

/// An action any user may request.
#[derive(Clone, Debug, PartialEq, Eq)]
pub enum UserAction {
    Help,
    Target(Target),
    Create,
    Publish,
    Yes,
    No,
    Remove(Vec<i32>),
    AddTag(String, i32),
    RemoveTag(String, i32),
}

/// An action only an admin may perform.
#[derive(Clone, Debug, PartialEq, Eq)]
pub enum AdminAction {
    Ban,
    Unban,
    UserToUnban(u64),
    AddAdmin,
    RemoveAdmin,
    AdminToRemove(u64),
    ApproveSubscribe(u64, i64),
    DeclineSubscribe(u64),
    BanSubscribe(u64),
}

/// The tagged form a raw update is reduced to before the state machine
/// sees it.
#[derive(Clone, Debug, PartialEq, Eq)]
pub enum SignalKind {
    UserAction(UserAction),
    AdminAction(AdminAction),
    Content(Content),
}

/// A signal bound to the chat it arrived in.
#[derive(Clone, Debug, PartialEq, Eq)]
pub struct Signal {
    pub chat_id: i64,
    pub kind: SignalKind,
}

impl Signal {
    pub fn chat_id(&self) -> (r: i64)
        ensures
            r == self.chat_id,
    {
        self.chat_id
    }

    pub fn filter_user_action(self) -> (r: Option<UserAction>)
        ensures
            r == match self.kind {
                SignalKind::UserAction(a) => Some(a),
                _ => None::<UserAction>,
            },
    {
        match self.kind {
            SignalKind::UserAction(action) => Some(action),
            _ => None,
        }
    }

    pub fn filter_admin_action(self) -> (r: Option<AdminAction>)
        ensures
            r == match self.kind {
                SignalKind::AdminAction(a) => Some(a),
                _ => None::<AdminAction>,
            },
    {
        match self.kind {
            SignalKind::AdminAction(action) => Some(action),
            _ => None,
        }
    }

    pub fn filter_content(self) -> (r: Option<Content>)
        ensures
            r == match self.kind {
                SignalKind::Content(c) => Some(c),
                _ => None::<Content>,
            },
    {
        match self.kind {
            SignalKind::Content(c) => Some(c),
            _ => None,
        }
    }
}

/// Which command a text stands for, if any.
pub open spec fn spec_command(s: Seq<char>) -> Option<Command> {
    if s == "/help"@ || s == "/start"@ {
        Some(Command::Help)
    } else if s == "/create"@ || s == res::CREATE@ {
        Some(Command::Create)
    } else if s == "/publish"@ || s == res::PUBLISH@ {
        Some(Command::Publish)
    } else if s == "/ban"@ || s == res::BAN@ {
        Some(Command::Ban)
    } else if s == "/unban"@ || s == res::UNBAN@ {
        Some(Command::Unban)
    } else if s == res::ADD_ADMIN@ {
        Some(Command::AddAdmin)
    } else if s == res::REMOVE_ADMIN@ {
        Some(Command::RemoveAdmin)
    } else {
        None
    }
}

impl Command {
    pub fn from_str(s: &str) -> (r: Option<Command>)
        ensures
            r == spec_command(s@),
    {
        if str_eq(s, "/help") || str_eq(s, "/start") {
            Some(Command::Help)
        } else if str_eq(s, "/create") || str_eq(s, res::CREATE) {
            Some(Command::Create)
        } else if str_eq(s, "/publish") || str_eq(s, res::PUBLISH) {
            Some(Command::Publish)
        } else if str_eq(s, "/ban") || str_eq(s, res::BAN) {
            Some(Command::Ban)
        } else if str_eq(s, "/unban") || str_eq(s, res::UNBAN) {
            Some(Command::Unban)
        } else if str_eq(s, res::ADD_ADMIN) {
            Some(Command::AddAdmin)
        } else if str_eq(s, res::REMOVE_ADMIN) {
            Some(Command::RemoveAdmin)
        } else {
            None
        }
    }

    /// Which signal a command turns into.
    pub fn signal_kind(self) -> (r: SignalKind)
        ensures
            r == match self {
                Command::Ban => SignalKind::AdminAction(AdminAction::Ban),
                Command::Unban => SignalKind::AdminAction(AdminAction::Unban),
                Command::AddAdmin => SignalKind::AdminAction(AdminAction::AddAdmin),
                Command::RemoveAdmin => SignalKind::AdminAction(AdminAction::RemoveAdmin),
                Command::Help => SignalKind::UserAction(UserAction::Help),
                Command::Create => SignalKind::UserAction(UserAction::Create),
                Command::Publish => SignalKind::UserAction(UserAction::Publish),
            },
    {
        match self {
            Command::Ban => SignalKind::AdminAction(AdminAction::Ban),
            Command::Unban => SignalKind::AdminAction(AdminAction::Unban),
            Command::AddAdmin => SignalKind::AdminAction(AdminAction::AddAdmin),
            Command::RemoveAdmin => SignalKind::AdminAction(AdminAction::RemoveAdmin),
            Command::Help => SignalKind::UserAction(UserAction::Help),
            Command::Create => SignalKind::UserAction(UserAction::Create),
            Command::Publish => SignalKind::UserAction(UserAction::Publish),
        }
    }
}

impl CallbackResponse {
    /// Which signal a decoded callback turns into.
    pub fn signal_kind(self) -> (r: SignalKind)
        ensures
            r == spec_callback_signal_kind(self),
    {
        match self {
            CallbackResponse::Yes => SignalKind::UserAction(UserAction::Yes),
            CallbackResponse::No => SignalKind::UserAction(UserAction::No),
            CallbackResponse::User(u) => SignalKind::AdminAction(AdminAction::UserToUnban(u)),
            CallbackResponse::AdminToRemove(u) => SignalKind::AdminAction(
                AdminAction::AdminToRemove(u),
            ),
            CallbackResponse::Remove(msgs) => SignalKind::UserAction(UserAction::Remove(msgs)),
            CallbackResponse::Target(target) => SignalKind::UserAction(UserAction::Target(target)),
            CallbackResponse::AddTag(tag, msg_id) => SignalKind::UserAction(
                UserAction::AddTag(tag, msg_id),
            ),
            CallbackResponse::RemoveTag(tag, msg_id) => SignalKind::UserAction(
                UserAction::RemoveTag(tag, msg_id),
            ),
            CallbackResponse::ApproveSubscribe(id, chat_id) => SignalKind::AdminAction(
                AdminAction::ApproveSubscribe(id, chat_id),
            ),
            CallbackResponse::DeclineSubscribe(id) => SignalKind::AdminAction(
                AdminAction::DeclineSubscribe(id),
            ),
            CallbackResponse::BanSubscribe(id) => SignalKind::AdminAction(
                AdminAction::BanSubscribe(id),
            ),
        }
    }
}

pub open spec fn spec_callback_signal_kind(c: CallbackResponse) -> SignalKind {
    match c {
        CallbackResponse::Yes => SignalKind::UserAction(UserAction::Yes),
        CallbackResponse::No => SignalKind::UserAction(UserAction::No),
        CallbackResponse::User(u) => SignalKind::AdminAction(AdminAction::UserToUnban(u)),
        CallbackResponse::AdminToRemove(u) => SignalKind::AdminAction(AdminAction::AdminToRemove(u)),
        CallbackResponse::Remove(msgs) => SignalKind::UserAction(UserAction::Remove(msgs)),
        CallbackResponse::Target(target) => SignalKind::UserAction(UserAction::Target(target)),
        CallbackResponse::AddTag(tag, msg_id) => SignalKind::UserAction(UserAction::AddTag(tag, msg_id)),
        CallbackResponse::RemoveTag(tag, msg_id) => SignalKind::UserAction(UserAction::RemoveTag(tag, msg_id)),
        CallbackResponse::ApproveSubscribe(id, chat_id) => SignalKind::AdminAction(AdminAction::ApproveSubscribe(id, chat_id)),
        CallbackResponse::DeclineSubscribe(id) => SignalKind::AdminAction(AdminAction::DeclineSubscribe(id)),
        CallbackResponse::BanSubscribe(id) => SignalKind::AdminAction(AdminAction::BanSubscribe(id)),
    }
}

impl Content {
    /// The price a content stands for: the whole text read as a base-ten
    /// number, and nothing for media without plain text.
    pub fn price(&self) -> (r: Option<u32>)
        ensures
            match self {
                Content::Text(t) => (r is Some <==> parses_as_u32(t.text@)) && (r is Some
                    ==> r->0 == digits_val(t.text@)),
                _ => r is None,
            },
    {
        match self {
            Content::Text(txt) => parse_u32(txt.text.as_str()),
            _ => None,
        }
    }

    pub fn command(&self) -> (r: Option<Command>)
        ensures
            r == match self {
                Content::Text(t) => spec_command(t.text@),
                _ => None::<Command>,
            },
    {
        match self {
            Content::Text(txt) => Command::from_str(txt.text.as_str()),
            _ => None,
        }
    }

    /// The plain text of a content; a photo with a caption has no plain
    /// text.
    pub fn text(&self) -> (r: Option<&str>)
        ensures
            match self {
                Content::Text(t) => r is Some && r->0@ == t.text@,
                _ => r is None,
            },
    {
        match self {
            Content::Text(text) => Some(text.text.as_str()),
            _ => None,
        }
    }
}

/// The photo size a photo message is reduced to: the size of greatest
/// height, the later one when several tie.
pub open spec fn spec_best_size(sizes: Seq<PhotoSize>) -> PhotoSize
    recommends
        sizes.len() > 0,
    decreases sizes.len(),
{
    if sizes.len() <= 1 {
        sizes[0]
    } else {
        let rest = spec_best_size(sizes.drop_last());
        if sizes.last().height >= rest.height {
            sizes.last()
        } else {
            rest
        }
    }
}

fn best_size(sizes: &Vec<PhotoSize>) -> (r: String)
    requires
        sizes@.len() > 0,
    ensures
        r == spec_best_size(sizes@).file_id,
{
    let mut best: usize = 0;
    let mut i: usize = 1;
    while i < sizes.len()
        invariant
            sizes@.len() > 0,
            best < i <= sizes@.len(),
            sizes@[best as int] == spec_best_size(sizes@.take(i as int)),
        decreases sizes.len() - i,
    {
        proof {
            assert(sizes@.take(i + 1).drop_last() =~= sizes@.take(i as int));
        }
        if sizes[i].height >= sizes[best].height {
            best = i;
        }
        i += 1;
    }
    proof {
        assert(sizes@.take(sizes@.len() as int) =~= sizes@);
    }
    sizes[best].file_id.clone()
}

/// What `media_to_content` returns for a given media.
pub open spec fn spec_media_to_content(media: MediaKind) -> Option<Content> {
    match media {
        MediaKind::Photo { sizes, caption, caption_entities } => {
            if sizes.len() == 0 {
                None
            } else {
                let best = spec_best_size(sizes@).file_id;
                match caption {
                    Some(text) => Some(
                        Content::TextAndPhoto(MediaText { text, entities: caption_entities }, best),
                    ),
                    None => Some(Content::Photo(best)),
                }
            }
        },
        MediaKind::Text(m) => Some(Content::Text(m)),
        MediaKind::Other => None,
    }
}

/// Reduces a message's media to content: a photo keeps only its largest
/// size, anything that is neither text nor photo is dropped.
pub fn media_to_content(media: MediaKind) -> (r: Option<Content>)
    ensures
        r == spec_media_to_content(media),
{
    match media {
        MediaKind::Photo { sizes, caption, caption_entities } => {
            if sizes.len() == 0 {
                return None;
            }
            let best = best_size(&sizes);
            match caption {
                Some(text) => Some(
                    Content::TextAndPhoto(MediaText { text, entities: caption_entities }, best),
                ),
                None => Some(Content::Photo(best)),
            }
        },
        MediaKind::Text(m) => Some(Content::Text(m)),
        MediaKind::Other => None,
    }
}

/// The author a forwarded post's text resolves to: the user id carried in
/// the query of the leading attribution link, or, failing that, the user
/// directly mentioned by the trailing entity.
pub open spec fn spec_invoke_author(content: Content) -> Option<u64> {
    match content {
        Content::Text(t) => spec_invoke_author_text(t),
        Content::TextAndPhoto(t, _) => spec_invoke_author_text(t),
        Content::Photo(_) => None,
    }
}

pub open spec fn spec_invoke_author_text(t: MediaText) -> Option<u64> {
    if t.entities@.len() == 0 {
        None
    } else {
        let from_link = match t.entities@[0] {
            EntityKind::TextLink { query: Some(q) } => if parses_as_u64(q@) {
                Some(digits_val(q@) as u64)
            } else {
                None
            },
            _ => None,
        };
        if from_link is Some {
            from_link
        } else {
            match t.entities@.last() {
                EntityKind::TextMention { user } => Some(user),
                _ => None,
            }
        }
    }
}

pub fn invoke_author(content: &Content) -> (r: Option<u64>)
    ensures
        r == spec_invoke_author(*content),
{
    let text = match content {
        Content::Text(text) => text,
        Content::TextAndPhoto(text, _) => text,
        _ => {
            return None;
        },
    };
    if text.entities.len() == 0 {
        return None;
    }
    match &text.entities[0] {
        EntityKind::TextLink { query: Some(q) } => {
            if let Some(user_id) = parse_u64(q.as_str()) {
                return Some(user_id);
            }
        },
        _ => {},
    }
    match &text.entities[text.entities.len() - 1] {
        EntityKind::TextMention { user } => Some(*user),
        _ => None,
    }
}


/// The metadata of one incoming message, reduced to the plain values this
/// library reads.
#[derive(Clone, Debug, PartialEq, Eq)]
pub struct MessageModel {
    pub id: i32,
    pub chat_id: i64,
    pub chat_is_private: bool,
    /// The message's public link, when the chat has one.
    pub url: Option<String>,
    /// Present for ordinary messages; absent for service messages.
    pub common: Option<MsgCommon>,
}

/// The common part of an ordinary message.
#[derive(Clone, Debug, PartialEq, Eq)]
pub struct MsgCommon {
    pub from: Option<u64>,
    pub sender_chat_id: Option<i64>,
    pub media: MediaKind,
    pub reply: Option<ReplyModel>,
    /// The user an attached forward came from, with a display name.
    pub forward_from: Option<(u64, String)>,
}

/// The message a group message replies to, as far as classification reads
/// it.
#[derive(Clone, Debug, PartialEq, Eq)]
pub struct ReplyModel {
    pub id: i32,
    /// Whether the replied-to message is an ordinary message.
    pub is_common: bool,
    pub from: Option<u64>,
    pub media: MediaKind,
}

/// One raw update, reduced to the plain values this library reads.
#[derive(Clone, Debug, PartialEq, Eq)]
pub enum UpdateModel {
    Message(MessageModel),
    EditedMessage(MessageModel),
    CallbackQuery { chat_id: Option<i64>, chat_is_private: Option<bool>, data: Option<String> },
    JoinRequest { user_id: u64 },
    Other,
}

/// The signal a message content stands for: a recognized command, or the
/// content itself.
pub open spec fn spec_content_signal_kind(c: Content) -> SignalKind {
    match c {
        Content::Text(t) => match spec_command(t.text@) {
            Some(cmd) => spec_command_signal_kind(cmd),
            None => SignalKind::Content(Content::Text(t)),
        },
        other => SignalKind::Content(other),
    }
}

pub open spec fn spec_command_signal_kind(cmd: Command) -> SignalKind {
    match cmd {
        Command::Ban => SignalKind::AdminAction(AdminAction::Ban),
        Command::Unban => SignalKind::AdminAction(AdminAction::Unban),
        Command::AddAdmin => SignalKind::AdminAction(AdminAction::AddAdmin),
        Command::RemoveAdmin => SignalKind::AdminAction(AdminAction::RemoveAdmin),
        Command::Help => SignalKind::UserAction(UserAction::Help),
        Command::Create => SignalKind::UserAction(UserAction::Create),
        Command::Publish => SignalKind::UserAction(UserAction::Publish),
    }
}

impl Signal {
    /// Reduces a raw update to the signal the state machine consumes:
    /// ordinary and edited messages become commands or content, button
    /// presses are decoded from their payload, and anything malformed is
    /// dropped, never an error.
    pub fn from_update(u: UpdateModel) -> (r: Option<Signal>)
        ensures
            from_update_rel(u, r),
    {
        match u {
            UpdateModel::Message(msg) | UpdateModel::EditedMessage(msg) => {
                let chat_id = msg.chat_id;
                match msg.common {
                    Some(common) => {
                        match media_to_content(common.media) {
                            Some(content) => {
                                match content.command() {
                                    Some(cmd) => Some(
                                        Signal { chat_id, kind: cmd.signal_kind() },
                                    ),
                                    None => Some(
                                        Signal { chat_id, kind: SignalKind::Content(content) },
                                    ),
                                }
                            },
                            None => None,
                        }
                    },
                    None => None,
                }
            },
            UpdateModel::CallbackQuery { chat_id: Some(chat_id), data: Some(data), .. } => {
                match CallbackResponse::from_mst_text(data.as_str()) {
                    Some(response) => Some(Signal { chat_id, kind: response.signal_kind() }),
                    None => None,
                }
            },
            _ => None,
        }
    }
}

/// What `from_update` promises, case by case; a decoded button press is
/// pinned through the callback codec's own specification.
pub open spec fn from_update_rel(u: UpdateModel, r: Option<Signal>) -> bool {
    match u {
        UpdateModel::Message(msg) | UpdateModel::EditedMessage(msg) => match msg.common {
            Some(common) => match spec_media_to_content(common.media) {
                Some(content) => r == Some(
                    Signal { chat_id: msg.chat_id, kind: spec_content_signal_kind(content) },
                ),
                None => r is None,
            },
            None => r is None,
        },
        UpdateModel::CallbackQuery { chat_id: Some(chat_id), data: Some(data), .. } => {
            match crate::codec::spec_decode(crate::codec::b91_bytes_of(data@)) {
                Some(v) => r matches Some(sig) && sig.chat_id == chat_id
                    && kind_matches_callback(v, sig.kind),
                None => r is None,
            }
        },
        _ => r is None,
    }
}

/// The signal kind a decoded callback value stands for, compared up to
/// copies of its strings.
pub open spec fn kind_matches_callback(v: crate::codec::CallbackV, k: SignalKind) -> bool {
    match v {
        crate::codec::CallbackV::Yes => k == SignalKind::UserAction(UserAction::Yes),
        crate::codec::CallbackV::No => k == SignalKind::UserAction(UserAction::No),
        crate::codec::CallbackV::Target(t) => k == SignalKind::UserAction(UserAction::Target(t)),
        crate::codec::CallbackV::User(u) => k == SignalKind::AdminAction(
            AdminAction::UserToUnban(u),
        ),
        crate::codec::CallbackV::Remove(ids) => k matches SignalKind::UserAction(
            UserAction::Remove(v2),
        ) && v2@ == ids,
        crate::codec::CallbackV::AdminToRemove(u) => k == SignalKind::AdminAction(
            AdminAction::AdminToRemove(u),
        ),
        crate::codec::CallbackV::AddTag(tag, m) => k matches SignalKind::UserAction(
            UserAction::AddTag(t2, m2),
        ) && t2@ == tag && m2 == m,
        crate::codec::CallbackV::RemoveTag(tag, m) => k matches SignalKind::UserAction(
            UserAction::RemoveTag(t2, m2),
        ) && t2@ == tag && m2 == m,
        crate::codec::CallbackV::ApproveSubscribe(u, c) => k == SignalKind::AdminAction(
            AdminAction::ApproveSubscribe(u, c),
        ),
        crate::codec::CallbackV::DeclineSubscribe(u) => k == SignalKind::AdminAction(
            AdminAction::DeclineSubscribe(u),
        ),
        crate::codec::CallbackV::BanSubscribe(u) => k == SignalKind::AdminAction(
            AdminAction::BanSubscribe(u),
        ),
    }
}

/// Whether an update arrived in a private conversation.
pub fn filter_private(u: &UpdateModel) -> (r: bool)
    ensures
        r == match u {
            UpdateModel::Message(m) => m.chat_is_private,
            UpdateModel::EditedMessage(m) => m.chat_is_private,
            UpdateModel::CallbackQuery { chat_is_private, .. } => chat_is_private == Some(true),
            _ => false,
        },
{
    match u {
        UpdateModel::Message(m) => m.chat_is_private,
        UpdateModel::EditedMessage(m) => m.chat_is_private,
        UpdateModel::CallbackQuery { chat_is_private: Some(p), .. } => *p,
        _ => false,
    }
}

} // verus!
