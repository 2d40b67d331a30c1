//! The fixed texts of the conversation.

use vstd::prelude::*;

verus! {

/// Asks for the name.
pub const REQUEST_NAME: &'static str = "Как вас называть?";

/// Asks for the gender.
pub const REQUEST_GENDER: &'static str = "Теперь выберите ваш пол";

/// The answer of a boy.
pub const GENDER_MALE: &'static str = "Я парень";

/// The answer of a girl.
pub const GENDER_FEMALE: &'static str = "Я девушка";

/// Asks whom the user wants to meet.
pub const REQUEST_GENDER_FILTER: &'static str = "Кого вы хотите заботать?";

/// The answer: a boy.
pub const GENDER_FILTER_MALE: &'static str = "Парня";

/// The answer: a girl.
pub const GENDER_FILTER_FEMALE: &'static str = "Девушку";

/// The answer: anybody.
pub const GENDER_FILTER_ANY: &'static str = "Не важно";

/// Asks for the grade.
pub const REQUEST_GRADE: &'static str = "В каком вы сейчас классе?";

/// Asks for the subjects the user studies.
pub const EDIT_SUBJECTS: &'static str =
    "Какие предметы вы ботаете? Нажмите на предмет, чтобы добавить или убрать его.";

/// Asks for the subjects a partner should study.
pub const EDIT_PARTNER_SUBJECTS: &'static str =
    "Выберите предметы, хотя бы один из которых должен ботать тот, кого вы ищете. Нажмите на предмет, чтобы добавить или убрать его.";

/// Asks for a text about oneself.
pub const EDIT_ABOUT: &'static str = "Расскажите о себе: чем занимаетесь, кого хотите найти";

/// The button that ends the choosing.
pub const SUBJECTS_CONTINUE: &'static str = "Продолжить";

/// The button that ends the choosing of a partner's subjects with none chosen.
pub const SUBJECTS_PARTNER_EMPTY: &'static str = "Не важно";

/// The button that ends the choosing of one's own subjects with none chosen.
pub const SUBJECTS_USER_EMPTY: &'static str = "Никакие";

/// Asks where to look for people.
pub const EDIT_LOCATION_FILTER: &'static str =
    "Где вы хотите искать людей?\nПо всей стране, в своём федеральном округе, в своём субъекте федерации или только в своём городе?";

/// Says that without a city the whole country is searched.
pub const NO_CITY: &'static str = "Так как вы не указали свой город, мы будем искать людей по всей России.";

/// Asks for pictures.
pub const REQUEST_SET_PHOTOS: &'static str = "Отправьте парочку своих фото";

/// Asks for the city.
pub const REQUEST_CITY: &'static str =
    "Напишите название города, в котором вы живёте. Система найдёт город с наиболее похожим названием и попросит подтвердить.\nСовет: даже если вы живёте в очень маленьком городе, всё равно лучше указать именно его: на следующем шаге вы сможете выбрать, что ищете людей в своей области или по всей России.";

/// Asks for the purposes.
pub const REQUEST_SET_DATING_PURPOSE: &'static str =
    "Ради чего вы хотите познакомиться? Можно выбрать несколько вариантов.";

/// Says that a profile is needed first.
pub const PLEASE_CREATE_PROFILE: &'static str =
    "Чтобы начать смотреть анкеты сначала необходимо заполнить свою. Воспользуйтесь командой /newprofile";

/// Says that nobody was found.
pub const PARTNER_NOT_FOUND: &'static str =
    "К сожалению, не удалось никого найти.\nСовет: попробуйте ослабить фильтры или просто немного подождать, так как наш бот не отправляет анкеты одних и тех же людей чаще раза в некоторое время.";

/// Invites to look at profiles.
pub const READY_FOR_DATINGS: &'static str =
    "Готовы начать путешествие? Жмите кнопку ниже или используйте команду /date!";

/// The greeting.
pub const START: &'static str =
    "Добро пожаловь в бот знакомств для олимпиадников По ЛюБВИ! Давайте начнём с создания анкеты.\nВ случае возникновение любых проблем или вопросов обращайтесь к @averyanalex.";

/// Says that no city is called like what was written.
pub const CANT_FIND_CITY: &'static str =
    "Не удалось найти такой город. Попробуйте написать название иначе.";

/// Says that the profile is switched on.
pub const PROFILE_ENABLED: &'static str = "Анкета включена.";

/// Says that the profile is switched off.
pub const PROFILE_DISABLED: &'static str = "Анкета выключена.";

/// Asks to join the channel.
pub const SUBSCRIBE_TEXT: &'static str = "Пожалуйста, подпишитесь на наш канал https://t.me/bvilove";

/// Asks for a user name, so that a chat can be opened.
pub const PLEASE_ALLOW_FORWARDING: &'static str =
    "Чтобы с вами могли связаться, задайте имя пользователя в настройках Telegram.";

/// Says that the making of the profile begins.
pub const PROFILE_CREATION_STARTED: &'static str = "Начинаем заполнять анкету.";

/// Asks for the words that go with a like.
pub const SEND_LIKE: &'static str = "Напишите сообщение, которое увидит человек вместе с лайком.";

/// Asks what to edit.
pub const REQUEST_EDIT: &'static str = "Что вы хотите изменить?";

} // verus!
