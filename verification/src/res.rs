//! Fixed button labels and the help text.

use vstd::prelude::*;

verus! {

pub const CREATE: &'static str = "Создать";

pub const PUBLISH: &'static str = "Опубликовать";

pub const BAN: &'static str = "Забанить";

pub const UNBAN: &'static str = "Разбанить";

pub const ADD_ADMIN: &'static str = "Добавить админа";

pub const REMOVE_ADMIN: &'static str = "Разжаловать админа";

pub const SUBSCRIBE_BAN_CAUSE: &'static str = "отклонена заявка на вступление";

pub const HELP: &'static str = "Этот бот помогает публиковать объявления. Нажми [Создать], чтобы начать, затем пришли цену, описание и фотографии, и нажми [Опубликовать].";

} // verus!
