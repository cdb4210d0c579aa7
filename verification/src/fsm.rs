//! The per-chat conversation state machine: the ad-posting funnel and the
//! admin moderation flows, as one total transition function.

use vstd::prelude::*;
use crate::ad::{ad_like, spec_add_tag_rel, spec_fill_rel, spec_remove_tag_rel, Ad};
use crate::config::{banned_list_rel, admins_list_rel, spec_keyboard, Config, Template};
use crate::entity::{spec_invoke_author, AdminAction, Content, SignalKind, Target, UserAction};
use crate::flags::{flag_set, APPROVE_SUBSCRIBE, ONLY_SUBSCRIBERS};
use crate::kvlist::{spec_get, spec_insert, spec_remove};
use crate::parse::{digits_val, parses_as_u32};
use crate::persistent::BanInfo;
use crate::res;

verus! {

/// Where one chat's conversation stands. Each chat is in exactly one state
/// at a time; a chat the library has never seen is `Ready`.
#[derive(Clone, Debug, PartialEq, Eq)]
pub enum State {
    Ready,
    ActionWaiting,
    PriceWaiting(Target),
    Filling(Ad),
    Preview(Ad),
    WaitForward,
    WaitCause(u64),
    WaitSelectBanned,
    WaitForwardForAdmin,
    Subscribing,
}

impl Default for State {
    fn default() -> (r: Self)
        ensures
            r == State::Ready,
    {
        State::Ready
    }
}

impl State {
    /// A valid state: the draft a filling or previewing chat carries is
    /// itself valid.
    pub open spec fn wf(self) -> bool {
        match self {
            State::Filling(ad) => ad.wf(),
            State::Preview(ad) => ad.wf(),
            _ => true,
        }
    }
}

/// What the runtime learnt about the acting user before handing the signal
/// to the state machine: probes of the chat platform that the library
/// cannot make itself.
pub struct SignalCtx {
    /// The acting user; in a private conversation the chat id and the user
    /// id coincide.
    pub user_id: u64,
    /// Whether that user is currently a member of the target board.
    pub is_member: bool,
    /// The attributed author of a forwarded message carried by the raw
    /// update, with a display name, if the update had one.
    pub forward_author: Option<(u64, String)>,
    /// The display name resolved for the user a ban would be written for.
    pub suspect_name: String,
}

/// What the caller must do after a transition; prompts name the template
/// to send, the rest carry the data the action needs.
#[derive(Debug, PartialEq, Eq)]
pub enum Response {
    Empty,
    /// Send the text of this template.
    Prompt(Template),
    /// Tell a banned user why: the stored cause.
    BannedNotice(String),
    /// Send the help text with this reply keyboard.
    Help(Vec<Vec<String>>),
    /// Ask which target the ad is for, offering all four.
    RequestTarget,
    /// Turn the user away as a non-subscriber; offer a join-request invite
    /// link when asked to.
    NotSubscriber { invite: bool },
    /// Ask for content and show the tag keyboard for this draft.
    FillRequest(Ad),
    /// Refresh the tag keyboard under the given message for this draft.
    UpdateTagMarkup(i32, Ad),
    /// Render the draft to its author as a preview, then report back
    /// through `preview_shown`.
    ShowPreview(Ad),
    /// Post the draft to the target board, then report back through
    /// `ad_published`.
    ConfirmPublish(Ad),
    /// Delete these published board messages and acknowledge ephemerally.
    RemoveMessages(Vec<i32>),
    /// Offer the listed banned users for amnesty.
    ListBanned(Vec<(u64, BanInfo)>),
    /// Offer the listed admins for demotion.
    ListAdmins(Vec<(u64, String)>),
    /// Ask the admin to forward the offending post.
    AskForwardSuspect,
    /// Ask the admin for the cause of the ban.
    AskCause,
    /// Tell the admin the cause must be plain text.
    AskCauseAsText,
    /// Confirm that the ban was written.
    BanApplied,
    /// Confirm that the user was unbanned.
    UnbanApplied,
    /// Ask the admin to forward a message from the candidate.
    AskForwardForAdmin,
    /// Confirm that the admin was added.
    AdminAdded,
    /// Tell the admin the forwarded content resolves to no author.
    NotAPost,
    /// Tell the admin the update carries no forwarded author.
    NotAForward,
    /// Confirm a demotion, naming the removed admin.
    AdminRemoved(String),
    /// Tell the author the post could not be placed.
    PostFailed,
    /// Approve this user's join request for the given chat.
    ApproveJoin(u64, i64),
    /// Decline this user's join request.
    DeclineJoin(u64),
    /// Decline this user's join request and record the ban.
    BanJoin(u64),
    /// Forward the subscription request to the admins.
    ForwardToAdmins,
}

impl State {
    /// One transition of the conversation: from the current state and one
    /// incoming signal to the next state and the side effect owed, with
    /// the tenant configuration updated and the durable mutations queued.
    ///
    /// The transition is total: every state admits every signal, and a
    /// chat in the ban set is turned away and reset no matter what it
    /// sent.
    pub fn process(self, conf: &mut Config, signal: SignalKind, ctx: &SignalCtx) -> (r: (
        State,
        Response,
    ))
        requires
            old(conf).wf(),
            self.wf(),
        ensures
            conf_wf_and_frame(*old(conf), *final(conf)),
            r.0.wf(),
            transition_rel(*old(conf), *final(conf), self, signal, ctx, r.0, r.1),
    {
        let user_id = ctx.user_id;
        if let Some(info) = conf.is_banned(user_id) {
            let cause = clone_str(&info.cause);
            return (State::Ready, Response::BannedNotice(cause));
        }
        match signal {
            SignalKind::UserAction(action) => self.process_user(conf, action, ctx),
            SignalKind::AdminAction(action) => self.process_admin(conf, action, ctx),
            SignalKind::Content(content) => self.process_content(conf, content, ctx),
        }
    }

    fn process_user(self, conf: &mut Config, action: UserAction, ctx: &SignalCtx) -> (r: (
        State,
        Response,
    ))
        requires
            old(conf).wf(),
            self.wf(),
            spec_get(old(conf).banned@, ctx.user_id) is None,
        ensures
            conf_wf_and_frame(*old(conf), *final(conf)),
            r.0.wf(),
            user_rel(*old(conf), *final(conf), self, action, ctx, r.0, r.1),
    {
        match action {
            UserAction::Help => {
                let rows = conf.keyboard(ctx.user_id);
                (self, Response::Help(rows))
            },
            UserAction::Create => {
                if conf.only_subscribers() && !ctx.is_member {
                    let invite = conf.approve_subscribe();
                    (self, Response::NotSubscriber { invite })
                } else {
                    (State::ActionWaiting, Response::RequestTarget)
                }
            },
            UserAction::Publish => {
                match self {
                    State::Filling(ad) => {
                        let p = ad.duplicate();
                        (State::Filling(ad), Response::ShowPreview(p))
                    },
                    State::Preview(ad) => (State::Preview(ad), Response::Prompt(
                        Template::CheckPreview,
                    )),
                    State::PriceWaiting(t) => (State::PriceWaiting(t), Response::Prompt(
                        Template::RequestPrice,
                    )),
                    other => (other, Response::Prompt(Template::FirstCreate)),
                }
            },
            UserAction::Yes => {
                match self {
                    State::Preview(ad) => {
                        let p = ad.duplicate();
                        (State::Preview(ad), Response::ConfirmPublish(p))
                    },
                    other => (other, Response::Empty),
                }
            },
            UserAction::No => {
                match self {
                    State::Preview(ad) => (State::Filling(ad), Response::Prompt(
                        Template::ContinueFilling,
                    )),
                    other => (other, Response::Empty),
                }
            },
            UserAction::Remove(ids) => (self, Response::RemoveMessages(ids)),
            UserAction::Target(target) => {
                match self {
                    State::ActionWaiting => {
                        match target {
                            Target::Ask | Target::Recommend => {
                                let ad = Ad::new(target, 0);
                                let p = ad.duplicate();
                                (State::Filling(ad), Response::FillRequest(p))
                            },
                            t => (State::PriceWaiting(t), Response::Prompt(Template::RequestPrice)),
                        }
                    },
                    other => (other, Response::Empty),
                }
            },
            UserAction::AddTag(tag, message_id) => {
                match self {
                    State::Filling(mut ad) => {
                        ad.add_tag(tag);
                        let p = ad.duplicate();
                        (State::Filling(ad), Response::UpdateTagMarkup(message_id, p))
                    },
                    other => (other, Response::Empty),
                }
            },
            UserAction::RemoveTag(tag, message_id) => {
                match self {
                    State::Filling(mut ad) => {
                        ad.remove_tag(tag.as_str());
                        let p = ad.duplicate();
                        (State::Filling(ad), Response::UpdateTagMarkup(message_id, p))
                    },
                    other => (other, Response::Empty),
                }
            },
        }
    }

    fn process_admin(self, conf: &mut Config, action: AdminAction, ctx: &SignalCtx) -> (r: (
        State,
        Response,
    ))
        requires
            old(conf).wf(),
            self.wf(),
            spec_get(old(conf).banned@, ctx.user_id) is None,
        ensures
            conf_wf_and_frame(*old(conf), *final(conf)),
            r.0.wf(),
            admin_rel(*old(conf), *final(conf), self, action, ctx, r.0, r.1),
    {
        if !conf.is_admin(ctx.user_id) {
            return (self, Response::Prompt(Template::AdminsOnly));
        }
        match action {
            AdminAction::Ban => (State::WaitForward, Response::AskForwardSuspect),
            AdminAction::Unban => {
                let list = conf.banned_users();
                (State::WaitSelectBanned, Response::ListBanned(list))
            },
            AdminAction::UserToUnban(user_id) => {
                conf.unban(user_id);
                (State::Ready, Response::UnbanApplied)
            },
            AdminAction::AddAdmin => (State::WaitForwardForAdmin, Response::AskForwardForAdmin),
            AdminAction::RemoveAdmin => {
                let list = conf.admins();
                (self, Response::ListAdmins(list))
            },
            AdminAction::AdminToRemove(user_id) => {
                match conf.remove_admin(user_id) {
                    Some(name) => (self, Response::AdminRemoved(name)),
                    None => (self, Response::Empty),
                }
            },
            AdminAction::ApproveSubscribe(user_id, chat_id) => (
                self,
                Response::ApproveJoin(user_id, chat_id),
            ),
            AdminAction::DeclineSubscribe(user_id) => (self, Response::DeclineJoin(user_id)),
            AdminAction::BanSubscribe(user_id) => {
                let info = BanInfo {
                    name: clone_str(&ctx.suspect_name),
                    cause: res::SUBSCRIBE_BAN_CAUSE.to_owned(),
                };
                proof {
                    lemma_ban_insert(conf.banned@, user_id, info);
                }
                conf.ban(user_id, info);
                (self, Response::BanJoin(user_id))
            },
        }
    }

    fn process_content(self, conf: &mut Config, content: Content, ctx: &SignalCtx) -> (r: (
        State,
        Response,
    ))
        requires
            old(conf).wf(),
            self.wf(),
            spec_get(old(conf).banned@, ctx.user_id) is None,
        ensures
            conf_wf_and_frame(*old(conf), *final(conf)),
            r.0.wf(),
            content_rel(*old(conf), *final(conf), self, content, ctx, r.0, r.1),
    {
        let is_admin = conf.is_admin(ctx.user_id);
        match self {
            State::PriceWaiting(target) => {
                match content.price() {
                    Some(price) => {
                        let ad = Ad::new(target, price);
                        let p = ad.duplicate();
                        (State::Filling(ad), Response::FillRequest(p))
                    },
                    None => (State::PriceWaiting(target), Response::Prompt(Template::NotAPrice)),
                }
            },
            State::Filling(mut ad) => {
                ad.fill(content);
                (State::Filling(ad), Response::Prompt(Template::ContinueFilling))
            },
            State::WaitForward => {
                if is_admin {
                    match crate::entity::invoke_author(&content) {
                        Some(user_id) => (State::WaitCause(user_id), Response::AskCause),
                        None => (State::WaitForward, Response::NotAPost),
                    }
                } else {
                    (State::WaitForward, Response::Prompt(Template::WrongMessage))
                }
            },
            State::WaitCause(user_id) => {
                if is_admin {
                    match content {
                        Content::Text(text) => {
                            let info = BanInfo {
                                name: clone_str(&ctx.suspect_name),
                                cause: text.text,
                            };
                            proof {
                                lemma_ban_insert(conf.banned@, user_id, info);
                            }
                            conf.ban(user_id, info);
                            (State::Ready, Response::BanApplied)
                        },
                        _ => (State::WaitCause(user_id), Response::AskCauseAsText),
                    }
                } else {
                    (State::WaitCause(user_id), Response::Prompt(Template::WrongMessage))
                }
            },
            State::WaitForwardForAdmin => {
                if is_admin {
                    match &ctx.forward_author {
                        Some((user_id, name)) => {
                            let name_copy = clone_str(name);
                            proof {
                                lemma_admin_insert_like(conf.admins@, *user_id, *name, name_copy);
                            }
                            conf.add_admin(*user_id, name_copy);
                            (State::Ready, Response::AdminAdded)
                        },
                        None => (State::WaitForwardForAdmin, Response::NotAForward),
                    }
                } else {
                    (State::WaitForwardForAdmin, Response::Prompt(Template::WrongMessage))
                }
            },
            State::Subscribing => (State::Ready, Response::ForwardToAdmins),
            State::Ready => (State::Ready, Response::Prompt(Template::FirstCreate)),
            other => (other, Response::Prompt(Template::WrongMessage)),
        }
    }
}

/// Reports the outcome of rendering the preview: only a successful render
/// moves the draft to `Preview`; a failed one is surfaced and the chat
/// keeps filling.
pub fn preview_shown(ad: Ad, ok: bool) -> (r: (State, Response))
    ensures
        ok ==> r == (State::Preview(ad), Response::Prompt(Template::IsAllCorrect)),
        !ok ==> r == (State::Filling(ad), Response::PostFailed),
{
    if ok {
        (State::Preview(ad), Response::Prompt(Template::IsAllCorrect))
    } else {
        (State::Filling(ad), Response::PostFailed)
    }
}

/// Reports the outcome of posting the confirmed ad to the target board:
/// success finishes the conversation, failure keeps the preview so the
/// author can try again.
pub fn ad_published(ad: Ad, ok: bool) -> (r: (State, Response))
    ensures
        ok ==> r == (State::Ready, Response::Prompt(Template::Published)),
        !ok ==> r == (State::Preview(ad), Response::PostFailed),
{
    if ok {
        (State::Ready, Response::Prompt(Template::Published))
    } else {
        (State::Preview(ad), Response::PostFailed)
    }
}

/// Handles a join request for the target board: a banned user is told the
/// cause and nothing else happens; anyone else is moved to `Subscribing`
/// and told how to apply.
pub fn process_join_request(conf: &Config, user_id: u64) -> (r: (Option<State>, Response))
    requires
        conf.wf(),
    ensures
        match spec_get(conf.banned@, user_id) {
            Some(info) => r.0 is None && (r.1 matches Response::BannedNotice(c) && c@
                == info.cause@),
            None => r == (
                Some(State::Subscribing),
                Response::Prompt(Template::SubscribeInfo),
            ),
        },
{
    match conf.is_banned(user_id) {
        Some(info) => {
            let cause = clone_str(&info.cause);
            (None, Response::BannedNotice(cause))
        },
        None => (Some(State::Subscribing), Response::Prompt(Template::SubscribeInfo)),
    }
}

/// Whether an update from this user may enter the admin flows.
pub fn filter_admin(conf: &Config, user_id: u64) -> (r: bool)
    ensures
        r == conf.spec_is_admin(user_id),
{
    conf.is_admin(user_id)
}

fn clone_str(s: &String) -> (r: String)
    ensures
        r@ == s@,
{
    s.clone()
}

/// The configuration stays valid, and a transition touches nothing but
/// the admin set, the ban set and the mutation queue.
pub open spec fn conf_wf_and_frame(pre: Config, post: Config) -> bool {
    &&& pre.wf() ==> post.wf()
    &&& post.token == pre.token
    &&& post.channel == pre.channel
    &&& post.global_admin == pre.global_admin
    &&& post.tags == pre.tags
    &&& post.templates == pre.templates
    &&& post.flags == pre.flags
    &&& post.queue.closed == pre.queue.closed
}

/// The whole transition table: what `process` promises, case by case.
pub open spec fn transition_rel(
    pre: Config,
    post: Config,
    state: State,
    signal: SignalKind,
    ctx: &SignalCtx,
    next: State,
    resp: Response,
) -> bool {
    match spec_get(pre.banned@, ctx.user_id) {
        Some(info) => {
            &&& next == State::Ready
            &&& resp matches Response::BannedNotice(c) && c@ == info.cause@
            &&& post == pre
        },
        None => match signal {
            SignalKind::UserAction(action) => user_rel(pre, post, state, action, ctx, next, resp),
            SignalKind::AdminAction(action) => admin_rel(pre, post, state, action, ctx, next, resp),
            SignalKind::Content(content) => content_rel(pre, post, state, content, ctx, next, resp),
        },
    }
}

/// The rows of the table driven by plain user actions. None of them
/// touches the configuration.
pub open spec fn user_rel(
    pre: Config,
    post: Config,
    state: State,
    action: UserAction,
    ctx: &SignalCtx,
    next: State,
    resp: Response,
) -> bool {
    &&& post == pre
    &&& match action {
        UserAction::Help => next == state && (resp matches Response::Help(rows) && rows.deep_view()
            == spec_keyboard(pre.spec_is_admin(ctx.user_id))),
        UserAction::Create => {
            if flag_set(pre.flags, ONLY_SUBSCRIBERS) && !ctx.is_member {
                next == state && resp == (Response::NotSubscriber {
                    invite: flag_set(pre.flags, APPROVE_SUBSCRIBE),
                })
            } else {
                next == State::ActionWaiting && resp == Response::RequestTarget
            }
        },
        UserAction::Publish => match state {
            State::Filling(ad) => next == State::Filling(ad) && (
            resp matches Response::ShowPreview(p) && ad_like(p, ad)),
            State::Preview(ad) => next == State::Preview(ad) && resp == Response::Prompt(
                Template::CheckPreview,
            ),
            State::PriceWaiting(t) => next == State::PriceWaiting(t) && resp == Response::Prompt(
                Template::RequestPrice,
            ),
            other => next == other && resp == Response::Prompt(Template::FirstCreate),
        },
        UserAction::Yes => match state {
            State::Preview(ad) => next == State::Preview(ad) && (
            resp matches Response::ConfirmPublish(p) && ad_like(p, ad)),
            other => next == other && resp == Response::Empty,
        },
        UserAction::No => match state {
            State::Preview(ad) => next == State::Filling(ad) && resp == Response::Prompt(
                Template::ContinueFilling,
            ),
            other => next == other && resp == Response::Empty,
        },
        UserAction::Remove(ids) => next == state && resp == Response::RemoveMessages(ids),
        UserAction::Target(target) => match state {
            State::ActionWaiting => match target {
                Target::Ask | Target::Recommend => {
                    &&& next matches State::Filling(ad) && ad.target == target && ad.price == 0
                        && ad.text@.len() == 0 && ad.photos@.len() == 0 && ad.tags@.len() == 0
                    &&& resp matches Response::FillRequest(p) && p.target == target
                },
                t => next == State::PriceWaiting(t) && resp == Response::Prompt(
                    Template::RequestPrice,
                ),
            },
            other => next == other && resp == Response::Empty,
        },
        UserAction::AddTag(tag, message_id) => match state {
            State::Filling(ad) => {
                &&& next matches State::Filling(ad2) && spec_add_tag_rel(ad, tag, ad2)
                &&& resp matches Response::UpdateTagMarkup(m, p) && m == message_id && (
                next matches State::Filling(ad2) && ad_like(p, ad2))
            },
            other => next == other && resp == Response::Empty,
        },
        UserAction::RemoveTag(tag, message_id) => match state {
            State::Filling(ad) => {
                &&& next matches State::Filling(ad2) && spec_remove_tag_rel(ad, tag@, ad2)
                &&& resp matches Response::UpdateTagMarkup(m, p) && m == message_id && (
                next matches State::Filling(ad2) && ad_like(p, ad2))
            },
            other => next == other && resp == Response::Empty,
        },
    }
}

/// The rows of the table driven by admin actions; a non-admin is turned
/// away without a state change.
pub open spec fn admin_rel(
    pre: Config,
    post: Config,
    state: State,
    action: AdminAction,
    ctx: &SignalCtx,
    next: State,
    resp: Response,
) -> bool {
    if !pre.spec_is_admin(ctx.user_id) {
        post == pre && next == state && resp == Response::Prompt(Template::AdminsOnly)
    } else {
        match action {
            AdminAction::Ban => post == pre && next == State::WaitForward && resp
                == Response::AskForwardSuspect,
            AdminAction::Unban => {
                &&& post == pre
                &&& next == State::WaitSelectBanned
                &&& resp matches Response::ListBanned(list) && banned_list_rel(pre.banned@, list@)
            },
            AdminAction::UserToUnban(user_id) => {
                &&& post.banned@ == spec_remove(pre.banned@, user_id)
                &&& post.admins == pre.admins
                &&& post.queue.events@ == pre.queue.events@.push(
                    crate::persistent::DBAction::Unban(user_id),
                )
                &&& next == State::Ready
                &&& resp == Response::UnbanApplied
            },
            AdminAction::AddAdmin => post == pre && next == State::WaitForwardForAdmin && resp
                == Response::AskForwardForAdmin,
            AdminAction::RemoveAdmin => {
                &&& post == pre
                &&& next == state
                &&& resp matches Response::ListAdmins(list) && admins_list_rel(pre.admins@, list@)
            },
            AdminAction::AdminToRemove(user_id) => {
                &&& post.admins@ == spec_remove(pre.admins@, user_id)
                &&& post.banned == pre.banned
                &&& post.queue.events@ == pre.queue.events@.push(
                    crate::persistent::DBAction::RemoveAdmin(user_id),
                )
                &&& next == state
                &&& match spec_get(pre.admins@, user_id) {
                    Some(name) => resp matches Response::AdminRemoved(n) && n@ == name@,
                    None => resp == Response::Empty,
                }
            },
            AdminAction::ApproveSubscribe(user_id, chat_id) => post == pre && next == state && resp
                == Response::ApproveJoin(user_id, chat_id),
            AdminAction::DeclineSubscribe(user_id) => post == pre && next == state && resp
                == Response::DeclineJoin(user_id),
            AdminAction::BanSubscribe(user_id) => {
                &&& ban_written(pre, post, user_id, ctx.suspect_name@, res::SUBSCRIBE_BAN_CAUSE@)
                &&& next == state
                &&& resp == Response::BanJoin(user_id)
            },
        }
    }
}

/// The rows of the table driven by message content.
pub open spec fn content_rel(
    pre: Config,
    post: Config,
    state: State,
    content: Content,
    ctx: &SignalCtx,
    next: State,
    resp: Response,
) -> bool {
    match state {
        State::PriceWaiting(target) => {
            &&& post == pre
            &&& match content {
                Content::Text(t) => {
                    if parses_as_u32(t.text@) {
                        &&& next matches State::Filling(ad) && ad.target == target && ad.price
                            == digits_val(t.text@) && ad.text@.len() == 0 && ad.photos@.len() == 0
                            && ad.tags@.len() == 0
                        &&& resp matches Response::FillRequest(p) && p.target == target
                    } else {
                        next == State::PriceWaiting(target) && resp == Response::Prompt(
                            Template::NotAPrice,
                        )
                    }
                },
                _ => next == State::PriceWaiting(target) && resp == Response::Prompt(
                    Template::NotAPrice,
                ),
            }
        },
        State::Filling(ad) => {
            &&& post == pre
            &&& next matches State::Filling(ad2) && spec_fill_rel(ad, content, ad2)
            &&& resp == Response::Prompt(Template::ContinueFilling)
        },
        State::WaitForward => {
            if pre.spec_is_admin(ctx.user_id) {
                &&& post == pre
                &&& match spec_invoke_author(content) {
                    Some(user_id) => next == State::WaitCause(user_id) && resp
                        == Response::AskCause,
                    None => next == State::WaitForward && resp == Response::NotAPost,
                }
            } else {
                fallback_rel(pre, post, state, next, resp)
            }
        },
        State::WaitCause(user_id) => {
            if pre.spec_is_admin(ctx.user_id) {
                match content {
                    Content::Text(t) => {
                        &&& ban_written(pre, post, user_id, ctx.suspect_name@, t.text@)
                        &&& next == State::Ready
                        &&& resp == Response::BanApplied
                    },
                    _ => post == pre && next == State::WaitCause(user_id) && resp
                        == Response::AskCauseAsText,
                }
            } else {
                fallback_rel(pre, post, state, next, resp)
            }
        },
        State::WaitForwardForAdmin => {
            if pre.spec_is_admin(ctx.user_id) {
                match ctx.forward_author {
                    Some((user_id, name)) => {
                        &&& admins_list_rel(spec_insert(pre.admins@, user_id, name), post.admins@)
                        &&& post.banned == pre.banned
                        &&& post.queue.events@.drop_last() == pre.queue.events@
                        &&& post.queue.events@.len() == pre.queue.events@.len() + 1
                        &&& crate::config::is_add_admin_event(
                            post.queue.events@.last(),
                            user_id,
                            name@,
                        )
                        &&& next == State::Ready
                        &&& resp == Response::AdminAdded
                    },
                    None => post == pre && next == State::WaitForwardForAdmin && resp
                        == Response::NotAForward,
                }
            } else {
                fallback_rel(pre, post, state, next, resp)
            }
        },
        State::Subscribing => post == pre && next == State::Ready && resp
            == Response::ForwardToAdmins,
        State::Ready => post == pre && next == State::Ready && resp == Response::Prompt(
            Template::FirstCreate,
        ),
        _ => fallback_rel(pre, post, state, next, resp),
    }
}

/// The ban short-circuit: whatever state a banned chat's conversation is
/// in and whatever it sent, the transition answers with the stored cause
/// and resets the conversation, touching nothing else.
pub proof fn lemma_ban_short_circuit(
    pre: Config,
    post: Config,
    state: State,
    signal: SignalKind,
    ctx: &SignalCtx,
    next: State,
    resp: Response,
)
    requires
        spec_get(pre.banned@, ctx.user_id) is Some,
        transition_rel(pre, post, state, signal, ctx, next, resp),
    ensures
        next == State::Ready,
        resp matches Response::BannedNotice(c) && c@ == spec_get(
            pre.banned@,
            ctx.user_id,
        )->0.cause@,
        post == pre,
{
}

/// The default row: nothing changes and the user is told the message was
/// wrong.
pub open spec fn fallback_rel(
    pre: Config,
    post: Config,
    state: State,
    next: State,
    resp: Response,
) -> bool {
    post == pre && next == state && resp == Response::Prompt(Template::WrongMessage)
}

/// A ban of `user_id` was recorded in memory and queued durably, with
/// this name and cause.
pub open spec fn ban_written(
    pre: Config,
    post: Config,
    user_id: u64,
    name: Seq<char>,
    cause: Seq<char>,
) -> bool {
    &&& post.admins == pre.admins
    &&& banned_list_rel_one(pre.banned@, post.banned@, user_id, name, cause)
    &&& post.queue.events@.drop_last() == pre.queue.events@
    &&& post.queue.events@.len() == pre.queue.events@.len() + 1
    &&& crate::config::is_ban_event(post.queue.events@.last(), user_id, name, cause)
}

/// Writing a ban by insert-or-replace yields exactly the pointwise
/// description `banned_list_rel_one` gives.
proof fn lemma_ban_insert(pre: Seq<(u64, BanInfo)>, user_id: u64, info: BanInfo)
    ensures
        banned_list_rel_one(pre, spec_insert(pre, user_id, info), user_id, info.name@, info.cause@),
{
    crate::kvlist::lemma_key_index(pre, user_id);
}

/// Inserting a copy of a name gives the same admin list up to copies.
proof fn lemma_admin_insert_like(pre: Seq<(u64, String)>, user_id: u64, a: String, b: String)
    requires
        a@ == b@,
    ensures
        admins_list_rel(spec_insert(pre, user_id, a), spec_insert(pre, user_id, b)),
{
    crate::kvlist::lemma_key_index(pre, user_id);
}

/// The ban list after writing one ban: the same entries, except that
/// `user_id` now carries this name and cause.
pub open spec fn banned_list_rel_one(
    pre: Seq<(u64, BanInfo)>,
    post: Seq<(u64, BanInfo)>,
    user_id: u64,
    name: Seq<char>,
    cause: Seq<char>,
) -> bool {
    &&& match crate::kvlist::key_index(pre, user_id) {
        Some(i) => post.len() == pre.len() && (forall|j: int|
            0 <= j < pre.len() && j != i ==> post[j] == pre[j]) && post[i].0 == user_id
            && post[i].1.name@ == name && post[i].1.cause@ == cause,
        None => post.len() == pre.len() + 1 && (forall|j: int|
            0 <= j < pre.len() ==> post[j] == pre[j]) && post.last().0 == user_id
            && post.last().1.name@ == name && post.last().1.cause@ == cause,
    }
}

} // verus!
