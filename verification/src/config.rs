//! The in-memory configuration of one running tenant: admins, bans, tags,
//! message templates and feature flags, together with the queue of mutation
//! events not yet handed to the persistence worker.

use vstd::prelude::*;
use crate::flags::{Flags, FeatureFlags, flag_set, APPROVE_SUBSCRIBE, ONLY_SUBSCRIBERS, WITHOUT_DONATE};
use crate::kvlist::{has_key, kv_contains, kv_get, kv_insert, kv_remove, spec_get, spec_insert, spec_remove, unique_keys};
use crate::persistent::{BanInfo, BulletinConfig, DBAction, MutationQueue};
use crate::res;

verus! {

/// How many kinds of message text a tenant can override.
pub const TEMPLATE_COUNT: usize = 31;

/// Every message text the library chooses by kind; overrides are stored
/// under the kind's position in this list.
#[derive(Clone, Copy, Debug, PartialEq, Eq)]
pub enum Template {
    Help,
    RequestPrice,
    NotAPrice,
    FillRequest,
    ContinueFilling,
    Published,
    RemoveAd,
    WrongMessage,
    IsAllCorrect,
    CheckPreview,
    FirstCreate,
    AdRemoved,
    CannotRemoveAd,
    NewComment,
    MuteCommand,
    RequestTarget,
    AdminsOnly,
    Currency,
    BuyText,
    SellText,
    AskText,
    RecommendText,
    WantBuy,
    WantSell,
    WantAsk,
    WantRecommend,
    UserIsNotSubscriber,
    SubscribeInfo,
    JoinApproved,
    JoinDeclined,
    BanCommand,
}

impl Template {
    /// The position a template kind is stored under.
    pub open spec fn spec_index(self) -> int {
        match self {
            Template::Help => 0,
            Template::RequestPrice => 1,
            Template::NotAPrice => 2,
            Template::FillRequest => 3,
            Template::ContinueFilling => 4,
            Template::Published => 5,
            Template::RemoveAd => 6,
            Template::WrongMessage => 7,
            Template::IsAllCorrect => 8,
            Template::CheckPreview => 9,
            Template::FirstCreate => 10,
            Template::AdRemoved => 11,
            Template::CannotRemoveAd => 12,
            Template::NewComment => 13,
            Template::MuteCommand => 14,
            Template::RequestTarget => 15,
            Template::AdminsOnly => 16,
            Template::Currency => 17,
            Template::BuyText => 18,
            Template::SellText => 19,
            Template::AskText => 20,
            Template::RecommendText => 21,
            Template::WantBuy => 22,
            Template::WantSell => 23,
            Template::WantAsk => 24,
            Template::WantRecommend => 25,
            Template::UserIsNotSubscriber => 26,
            Template::SubscribeInfo => 27,
            Template::JoinApproved => 28,
            Template::JoinDeclined => 29,
            Template::BanCommand => 30,
        }
    }

    pub fn index(self) -> (r: usize)
        ensures
            r == self.spec_index(),
            r < TEMPLATE_COUNT,
    {
        match self {
            Template::Help => 0,
            Template::RequestPrice => 1,
            Template::NotAPrice => 2,
            Template::FillRequest => 3,
            Template::ContinueFilling => 4,
            Template::Published => 5,
            Template::RemoveAd => 6,
            Template::WrongMessage => 7,
            Template::IsAllCorrect => 8,
            Template::CheckPreview => 9,
            Template::FirstCreate => 10,
            Template::AdRemoved => 11,
            Template::CannotRemoveAd => 12,
            Template::NewComment => 13,
            Template::MuteCommand => 14,
            Template::RequestTarget => 15,
            Template::AdminsOnly => 16,
            Template::Currency => 17,
            Template::BuyText => 18,
            Template::SellText => 19,
            Template::AskText => 20,
            Template::RecommendText => 21,
            Template::WantBuy => 22,
            Template::WantSell => 23,
            Template::WantAsk => 24,
            Template::WantRecommend => 25,
            Template::UserIsNotSubscriber => 26,
            Template::SubscribeInfo => 27,
            Template::JoinApproved => 28,
            Template::JoinDeclined => 29,
            Template::BanCommand => 30,
        }
    }
}

/// The text every template kind has until a tenant overrides it.
pub open spec fn spec_default_templates() -> Seq<Seq<char>> {
    seq![
        res::HELP@,
        "Назови свою цену (число) в рублях"@,
        "Это не цена, нужно прислать число"@,
        "Присылай описание или фотки. Не забудь выбрать теги ниже"@,
        "Теперь можешь заменить описание или добавить фото (не более 10)"@,
        "Объявление опубликовано"@,
        "Снять с публикации"@,
        "Что-то не то присылаешь"@,
        "Все верно?"@,
        "Посмотри публикацию, если все ок - жми Да"@,
        "Сначала нажми кнопку [Создать] или отправь команду /create"@,
        "Публикация удалена"@,
        "Не удалось удалить публикацию. Возможно, прошло более 48 часов"@,
        "Добавлен новый комментарий"@,
        "!mute"@,
        "Цель объявления?"@,
        "Хорошая попытка, но так могут только админы"@,
        "₽"@,
        "куплю за"@,
        "продам за"@,
        "вопрос"@,
        "рекомендация"@,
        "купить"@,
        "продать"@,
        "спросить"@,
        "порекомендовать"@,
        "Ты не с нами. Уходи"@,
        "Напиши что-нибудь, сообщение будет переслано админу"@,
        "Заявка принята"@,
        "Заявка отклонена"@,
        "!ban"@,
    ]
}

/// One override applied to the template list: positions beyond the list
/// are ignored.
pub open spec fn spec_apply_override(base: Seq<Seq<char>>, ovr: (usize, String)) -> Seq<Seq<char>> {
    if ovr.0 < base.len() {
        base.update(ovr.0 as int, ovr.1@)
    } else {
        base
    }
}

/// All overrides applied in order, so that the last one for a position
/// wins.
pub open spec fn spec_apply_overrides(base: Seq<Seq<char>>, ovr: Seq<(usize, String)>) -> Seq<
    Seq<char>,
>
    decreases ovr.len(),
{
    if ovr.len() == 0 {
        base
    } else {
        spec_apply_overrides(spec_apply_override(base, ovr[0]), ovr.drop_first())
    }
}

impl Template {
    /// The default texts as owned strings.
    pub fn default_templates() -> (r: Vec<String>)
        ensures
            r@.len() == TEMPLATE_COUNT,
            r@.map_values(|s: String| s@) == spec_default_templates(),
    {
        let mut r: Vec<String> = Vec::new();
        r.push(res::HELP.to_owned());
        r.push("Назови свою цену (число) в рублях".to_owned());
        r.push("Это не цена, нужно прислать число".to_owned());
        r.push("Присылай описание или фотки. Не забудь выбрать теги ниже".to_owned());
        r.push("Теперь можешь заменить описание или добавить фото (не более 10)".to_owned());
        r.push("Объявление опубликовано".to_owned());
        r.push("Снять с публикации".to_owned());
        r.push("Что-то не то присылаешь".to_owned());
        r.push("Все верно?".to_owned());
        r.push("Посмотри публикацию, если все ок - жми Да".to_owned());
        r.push("Сначала нажми кнопку [Создать] или отправь команду /create".to_owned());
        r.push("Публикация удалена".to_owned());
        r.push("Не удалось удалить публикацию. Возможно, прошло более 48 часов".to_owned());
        r.push("Добавлен новый комментарий".to_owned());
        r.push("!mute".to_owned());
        r.push("Цель объявления?".to_owned());
        r.push("Хорошая попытка, но так могут только админы".to_owned());
        r.push("₽".to_owned());
        r.push("куплю за".to_owned());
        r.push("продам за".to_owned());
        r.push("вопрос".to_owned());
        r.push("рекомендация".to_owned());
        r.push("купить".to_owned());
        r.push("продать".to_owned());
        r.push("спросить".to_owned());
        r.push("порекомендовать".to_owned());
        r.push("Ты не с нами. Уходи".to_owned());
        r.push("Напиши что-нибудь, сообщение будет переслано админу".to_owned());
        r.push("Заявка принята".to_owned());
        r.push("Заявка отклонена".to_owned());
        r.push("!ban".to_owned());
        proof {
            assert(r@.map_values(|s: String| s@) =~= spec_default_templates());
        }
        r
    }

    /// The default texts with a tenant's stored overrides applied in
    /// order.
    pub fn create(overrides: Vec<(usize, String)>) -> (r: Vec<String>)
        ensures
            r@.len() == TEMPLATE_COUNT,
            r@.map_values(|s: String| s@) == spec_apply_overrides(
                spec_default_templates(),
                overrides@,
            ),
    {
        let mut templates = Self::default_templates();
        proof {
            assert(overrides@.skip(0) =~= overrides@);
        }
        let mut i: usize = 0;
        while i < overrides.len()
            invariant
                i <= overrides@.len(),
                templates@.len() == TEMPLATE_COUNT,
                spec_apply_overrides(spec_default_templates(), overrides@)
                    == spec_apply_overrides(
                    templates@.map_values(|s: String| s@),
                    overrides@.skip(i as int),
                ),
            decreases overrides.len() - i,
        {
            let ghost cur = templates@.map_values(|s: String| s@);
            let ghost rest = overrides@.skip(i as int);
            proof {
                assert(rest[0] == overrides@[i as int]);
                assert(rest.drop_first() =~= overrides@.skip(i + 1));
            }
            let (n, text) = (overrides[i].0, overrides[i].1.clone());
            if n < TEMPLATE_COUNT {
                templates[n] = text;
                proof {
                    assert(templates@.map_values(|s: String| s@) =~= spec_apply_override(
                        cur,
                        overrides@[i as int],
                    ));
                }
            } else {
                proof {
                    assert(templates@.map_values(|s: String| s@) =~= spec_apply_override(
                        cur,
                        overrides@[i as int],
                    ));
                }
            }
            i += 1;
        }
        proof {
            assert(overrides@.skip(overrides@.len() as int) =~= Seq::<(usize, String)>::empty());
        }
        templates
    }
}

/// A running tenant's whole in-memory state, mutated only by that tenant's
/// own conversation task.
#[derive(Debug)]
pub struct Config {
    pub token: String,
    pub channel: i64,
    pub global_admin: Option<u64>,
    pub admins: Vec<(u64, String)>,
    pub banned: Vec<(u64, BanInfo)>,
    pub tags: Vec<String>,
    pub templates: Vec<String>,
    pub flags: Flags,
    pub queue: MutationQueue,
}

impl Config {
    /// A valid configuration: the template list is full-length and the
    /// keyed sets have unique keys.
    pub open spec fn wf(self) -> bool {
        &&& self.templates@.len() == TEMPLATE_COUNT
        &&& unique_keys(self.admins@)
        &&& unique_keys(self.banned@)
    }

    /// Everything but the queue, unchanged.
    pub open spec fn same_but_queue(self, other: Config) -> bool {
        &&& self.token == other.token
        &&& self.channel == other.channel
        &&& self.global_admin == other.global_admin
        &&& self.admins == other.admins
        &&& self.banned == other.banned
        &&& self.tags == other.tags
        &&& self.templates == other.templates
        &&& self.flags == other.flags
    }

    /// Brings a durable snapshot up as a runnable configuration with a
    /// fresh, empty mutation queue and no process-wide admin set yet.
    pub fn new(cfg: BulletinConfig) -> (r: Config)
        requires
            unique_keys(cfg.admins@),
            unique_keys(cfg.banned@),
        ensures
            r.wf(),
            r.token@ == cfg.token@,
            r.channel == cfg.channel,
            r.global_admin is None,
            r.admins@ == cfg.admins@,
            r.banned@ == cfg.banned@,
            r.tags@ == cfg.tags@,
            r.templates@.map_values(|s: String| s@) == spec_apply_overrides(
                spec_default_templates(),
                cfg.templates@,
            ),
            r.flags == cfg.flags,
            r.queue.events@ =~= Seq::<DBAction>::empty(),
            !r.queue.closed,
    {
        let templates = Template::create(cfg.templates);
        Config {
            token: cfg.token,
            channel: cfg.channel,
            global_admin: None,
            admins: cfg.admins,
            banned: cfg.banned,
            tags: cfg.tags,
            templates,
            flags: cfg.flags,
            queue: MutationQueue::new(),
        }
    }

    /// Whether a user may use the admin flows: the process-wide admin or a
    /// tenant admin.
    pub open spec fn spec_is_admin(self, user_id: u64) -> bool {
        self.global_admin == Some(user_id) || has_key(self.admins@, user_id)
    }

    pub fn is_admin(&self, user_id: u64) -> (r: bool)
        ensures
            r == self.spec_is_admin(user_id),
    {
        match self.global_admin {
            Some(g) => {
                if g == user_id {
                    return true;
                }
            },
            None => {},
        }
        kv_contains(&self.admins, user_id)
    }

    /// The ban record of a user, if any.
    pub open spec fn spec_is_banned(self, user_id: u64) -> Option<BanInfo> {
        spec_get(self.banned@, user_id)
    }

    pub fn is_banned(&self, user_id: u64) -> (r: Option<&BanInfo>)
        ensures
            match r {
                Some(info) => self.spec_is_banned(user_id) == Some(*info),
                None => self.spec_is_banned(user_id) is None,
            },
    {
        kv_get(&self.banned, user_id)
    }

    /// Adds or replaces an admin in memory and queues the durable change.
    pub fn add_admin(&mut self, user_id: u64, name: String)
        ensures
            final(self).admins@ == spec_insert(old(self).admins@, user_id, name),
            final(self).queue.events@.drop_last() == old(self).queue.events@,
            final(self).queue.events@.len() == old(self).queue.events@.len() + 1,
            is_add_admin_event(final(self).queue.events@.last(), user_id, name@),
            final(self).queue.closed == old(self).queue.closed,
            final(self).banned == old(self).banned,
            final(self).token == old(self).token,
            final(self).channel == old(self).channel,
            final(self).global_admin == old(self).global_admin,
            final(self).tags == old(self).tags,
            final(self).templates == old(self).templates,
            final(self).flags == old(self).flags,
            old(self).wf() ==> final(self).wf(),
    {
        let name_copy = clone_string(&name);
        kv_insert(&mut self.admins, user_id, name);
        self.queue.push(DBAction::AddAdmin(user_id, name_copy));
        proof {
            assert(self.queue.events@.drop_last() =~= old(self).queue.events@);
        }
    }

    /// Removes an admin, handing back the removed name, and queues the
    /// durable change whether or not the admin was present.
    pub fn remove_admin(&mut self, user_id: u64) -> (r: Option<String>)
        ensures
            final(self).admins@ == spec_remove(old(self).admins@, user_id),
            r == match spec_get(old(self).admins@, user_id) {
                Some(name) => Some(name),
                None => None::<String>,
            },
            final(self).queue.events@ == old(self).queue.events@.push(
                DBAction::RemoveAdmin(user_id),
            ),
            final(self).queue.closed == old(self).queue.closed,
            final(self).banned == old(self).banned,
            final(self).token == old(self).token,
            final(self).channel == old(self).channel,
            final(self).global_admin == old(self).global_admin,
            final(self).tags == old(self).tags,
            final(self).templates == old(self).templates,
            final(self).flags == old(self).flags,
            old(self).wf() ==> final(self).wf(),
    {
        self.queue.push(DBAction::RemoveAdmin(user_id));
        kv_remove(&mut self.admins, user_id)
    }

    /// Bans a user in memory and queues the durable change.
    pub fn ban(&mut self, user_id: u64, info: BanInfo)
        ensures
            final(self).banned@ == spec_insert(old(self).banned@, user_id, info),
            final(self).queue.events@.drop_last() == old(self).queue.events@,
            final(self).queue.events@.len() == old(self).queue.events@.len() + 1,
            is_ban_event(final(self).queue.events@.last(), user_id, info.name@, info.cause@),
            final(self).queue.closed == old(self).queue.closed,
            final(self).admins == old(self).admins,
            final(self).token == old(self).token,
            final(self).channel == old(self).channel,
            final(self).global_admin == old(self).global_admin,
            final(self).tags == old(self).tags,
            final(self).templates == old(self).templates,
            final(self).flags == old(self).flags,
            old(self).wf() ==> final(self).wf(),
    {
        let name = clone_string(&info.name);
        let cause = clone_string(&info.cause);
        kv_insert(&mut self.banned, user_id, info);
        self.queue.push(DBAction::Ban { id: user_id, name, cause });
        proof {
            assert(self.queue.events@.drop_last() =~= old(self).queue.events@);
        }
    }

    /// Unbans a user in memory and queues the durable change.
    pub fn unban(&mut self, user_id: u64)
        ensures
            final(self).banned@ == spec_remove(old(self).banned@, user_id),
            final(self).queue.events@ == old(self).queue.events@.push(DBAction::Unban(user_id)),
            final(self).queue.closed == old(self).queue.closed,
            final(self).admins == old(self).admins,
            final(self).token == old(self).token,
            final(self).channel == old(self).channel,
            final(self).global_admin == old(self).global_admin,
            final(self).tags == old(self).tags,
            final(self).templates == old(self).templates,
            final(self).flags == old(self).flags,
            old(self).wf() ==> final(self).wf(),
    {
        kv_remove(&mut self.banned, user_id);
        self.queue.push(DBAction::Unban(user_id));
    }

    /// A copy of the admin list, in stored order.
    pub fn admins(&self) -> (r: Vec<(u64, String)>)
        ensures
            admins_list_rel(self.admins@, r@),
    {
        let mut r: Vec<(u64, String)> = Vec::new();
        let mut i: usize = 0;
        while i < self.admins.len()
            invariant
                i <= self.admins@.len(),
                r@.len() == i,
                forall|j: int|
                    0 <= j < i ==> r@[j].0 == self.admins@[j].0 && r@[j].1@
                        == self.admins@[j].1@,
            decreases self.admins.len() - i,
        {
            r.push((self.admins[i].0, self.admins[i].1.clone()));
            i += 1;
        }
        r
    }

    /// A copy of the ban list, in stored order.
    pub fn banned_users(&self) -> (r: Vec<(u64, BanInfo)>)
        ensures
            banned_list_rel(self.banned@, r@),
    {
        let mut r: Vec<(u64, BanInfo)> = Vec::new();
        let mut i: usize = 0;
        while i < self.banned.len()
            invariant
                i <= self.banned@.len(),
                r@.len() == i,
                forall|j: int|
                    0 <= j < i ==> r@[j].0 == self.banned@[j].0 && r@[j].1.name@
                        == self.banned@[j].1.name@ && r@[j].1.cause@
                        == self.banned@[j].1.cause@,
            decreases self.banned.len() - i,
        {
            let info = BanInfo {
                name: self.banned[i].1.name.clone(),
                cause: self.banned[i].1.cause.clone(),
            };
            r.push((self.banned[i].0, info));
            i += 1;
        }
        r
    }

    /// The text of a template kind, override or default.
    pub fn template(&self, template: Template) -> (r: &str)
        requires
            self.wf(),
        ensures
            r@ == self.templates@[template.spec_index()]@,
    {
        self.templates[template.index()].as_str()
    }

    /// The reply-keyboard labels a user sees: everyone gets the ad
    /// buttons, admins the moderation rows too.
    pub fn keyboard(&self, user_id: u64) -> (r: Vec<Vec<String>>)
        ensures
            r.deep_view() == spec_keyboard(self.spec_is_admin(user_id)),
    {
        let mut rows: Vec<Vec<String>> = Vec::new();
        let mut row1: Vec<String> = Vec::new();
        row1.push(res::CREATE.to_owned());
        row1.push(res::PUBLISH.to_owned());
        rows.push(row1);
        if self.is_admin(user_id) {
            let mut row2: Vec<String> = Vec::new();
            row2.push(res::BAN.to_owned());
            row2.push(res::UNBAN.to_owned());
            rows.push(row2);
            let mut row3: Vec<String> = Vec::new();
            row3.push(res::ADD_ADMIN.to_owned());
            row3.push(res::REMOVE_ADMIN.to_owned());
            rows.push(row3);
        }
        proof {
            assert(rows.deep_view() =~~= spec_keyboard(self.spec_is_admin(user_id)));
        }
        rows
    }

    pub fn only_subscribers(&self) -> (r: bool)
        ensures
            r == flag_set(self.flags, ONLY_SUBSCRIBERS),
    {
        self.flags.check_flag(ONLY_SUBSCRIBERS)
    }

    pub fn approve_subscribe(&self) -> (r: bool)
        ensures
            r == flag_set(self.flags, APPROVE_SUBSCRIBE),
    {
        self.flags.check_flag(APPROVE_SUBSCRIBE)
    }

    pub fn donate_enabled(&self) -> (r: bool)
        ensures
            r == !flag_set(self.flags, WITHOUT_DONATE),
    {
        !self.flags.check_flag(WITHOUT_DONATE)
    }
}

/// A string copy with the same characters.
fn clone_string(s: &String) -> (r: String)
    ensures
        r@ == s@,
{
    s.clone()
}

/// The same admin entries, up to copies of the name strings.
pub open spec fn admins_list_rel(a: Seq<(u64, String)>, b: Seq<(u64, String)>) -> bool {
    &&& a.len() == b.len()
    &&& forall|i: int| 0 <= i < a.len() ==> a[i].0 == b[i].0 && a[i].1@ == b[i].1@
}

/// The same ban entries, up to copies of the name and cause strings.
pub open spec fn banned_list_rel(a: Seq<(u64, BanInfo)>, b: Seq<(u64, BanInfo)>) -> bool {
    &&& a.len() == b.len()
    &&& forall|i: int|
        0 <= i < a.len() ==> a[i].0 == b[i].0 && a[i].1.name@ == b[i].1.name@ && a[i].1.cause@
            == b[i].1.cause@
}

/// The queued event that records an admin addition.
pub open spec fn is_add_admin_event(a: DBAction, id: u64, name: Seq<char>) -> bool {
    a matches DBAction::AddAdmin(i, n) && i == id && n@ == name
}

/// The queued event that records a ban.
pub open spec fn is_ban_event(a: DBAction, id: u64, name: Seq<char>, cause: Seq<char>) -> bool {
    a matches DBAction::Ban { id: i, name: n, cause: c } && i == id && n@ == name && c@ == cause
}

/// Process-wide configuration: the controlling tenant's credential, the
/// process administrator, the donation link, and where the durable store
/// lives.
#[derive(Debug, Clone, PartialEq, Eq)]
pub struct GlobalConfig {
    pub token: String,
    pub admin: u64,
    pub tip_url: String,
    pub db_path: String,
}

impl GlobalConfig {
    /// Whether a user is the process-wide administrator.
    pub fn is_global_admin(&self, user_id: u64) -> (r: bool)
        ensures
            r == (user_id == self.admin),
    {
        user_id == self.admin
    }
}

/// The keyboard rows by admin standing.
pub open spec fn spec_keyboard(is_admin: bool) -> Seq<Seq<Seq<char>>> {
    if is_admin {
        seq![
            seq![res::CREATE@, res::PUBLISH@],
            seq![res::BAN@, res::UNBAN@],
            seq![res::ADD_ADMIN@, res::REMOVE_ADMIN@],
        ]
    } else {
        seq![seq![res::CREATE@, res::PUBLISH@]]
    }
}

} // verus!
