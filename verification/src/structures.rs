//! The persisted entities and their mathematical views.
//!
//! Every entity that carries text has a view in which each `String` is a
//! `Seq<char>` and each `Vec` a `Seq`; contracts speak of those views.

use crate::payloads::{PostChannel, PostCommand};
use crate::stamps::{fresh_identifier, local_time_text};
use crate::text::same_text;
use vstd::prelude::*;

verus! {

/// A message with a standard rendering and alternatives for services
/// that cannot show it.
#[derive(Debug, PartialEq, Eq)]
pub struct EmojiMessageData {
    pub standard: String,
    pub alternatives: Vec<String>,
}

pub struct EmojiMessageDataView {
    pub standard: Seq<char>,
    pub alternatives: Seq<Seq<char>>,
}

impl DeepView for EmojiMessageData {
    type V = EmojiMessageDataView;

    open spec fn deep_view(&self) -> EmojiMessageDataView {
        EmojiMessageDataView {
            standard: self.standard@,
            alternatives: self.alternatives.deep_view(),
        }
    }
}

impl View for EmojiMessageData {
    type V = EmojiMessageDataView;

    open spec fn view(&self) -> EmojiMessageDataView {
        self.deep_view()
    }
}

impl Clone for EmojiMessageData {
    fn clone(&self) -> (r: Self)
        ensures
            r@ == self@,
    {
        let alternatives = self.alternatives.clone();
        assert(alternatives.deep_view() =~= self.alternatives.deep_view());
        EmojiMessageData { standard: self.standard.clone(), alternatives }
    }
}

/// The payload of one message part.
#[derive(Debug, PartialEq, Eq)]
pub enum GenericMessageData {
    Basic(String),
    Emoji(EmojiMessageData),
}

pub enum GenericMessageDataView {
    Basic(Seq<char>),
    Emoji(EmojiMessageDataView),
}

impl DeepView for GenericMessageData {
    type V = GenericMessageDataView;

    open spec fn deep_view(&self) -> GenericMessageDataView {
        match self {
            GenericMessageData::Basic(text) => GenericMessageDataView::Basic(text@),
            GenericMessageData::Emoji(emoji) => GenericMessageDataView::Emoji(emoji@),
        }
    }
}

impl View for GenericMessageData {
    type V = GenericMessageDataView;

    open spec fn view(&self) -> GenericMessageDataView {
        self.deep_view()
    }
}

impl Clone for GenericMessageData {
    fn clone(&self) -> (r: Self)
        ensures
            r@ == self@,
    {
        match self {
            GenericMessageData::Basic(text) => GenericMessageData::Basic(text.clone()),
            GenericMessageData::Emoji(emoji) => GenericMessageData::Emoji(emoji.clone()),
        }
    }
}

/// One part of a response.
#[derive(Debug, PartialEq, Eq)]
pub struct Message {
    pub data: GenericMessageData,
    pub message_type: String,
}

pub struct MessageView {
    pub data: GenericMessageDataView,
    pub message_type: Seq<char>,
}

impl DeepView for Message {
    type V = MessageView;

    open spec fn deep_view(&self) -> MessageView {
        MessageView { data: self.data@, message_type: self.message_type@ }
    }
}

impl View for Message {
    type V = MessageView;

    open spec fn view(&self) -> MessageView {
        self.deep_view()
    }
}

impl Clone for Message {
    fn clone(&self) -> (r: Self)
        ensures
            r@ == self@,
    {
        Message { data: self.data.clone(), message_type: self.message_type.clone() }
    }
}

/// Copies a response, message by message.
pub fn clone_response(response: &Vec<Message>) -> (r: Vec<Message>)
    ensures
        r.deep_view() == response.deep_view(),
{
    let r = response.clone();
    assert(r.deep_view() =~= response.deep_view());
    r
}

/// Copies a list of strings.
pub fn clone_texts(texts: &Vec<String>) -> (r: Vec<String>)
    ensures
        r.deep_view() == texts.deep_view(),
{
    let r = texts.clone();
    assert(r.deep_view() =~= texts.deep_view());
    r
}

/// Copies an optional string.
pub fn clone_optional_text(text: &Option<String>) -> (r: Option<String>)
    ensures
        r.deep_view() == text.deep_view(),
{
    match text {
        Some(t) => Some(t.clone()),
        None => None,
    }
}

/// A tenant: its identity and its authentication record.
#[derive(Debug, PartialEq, Eq)]
pub struct Channel {
    pub id: [u8; 12],
    pub created_at: String,
    pub deleted_at: Option<String>,
    pub updated_at: String,
    pub token: String,
    pub enabled: bool,
    pub password: String,
}

pub struct ChannelView {
    pub id: Seq<u8>,
    pub created_at: Seq<char>,
    pub deleted_at: Option<Seq<char>>,
    pub updated_at: Seq<char>,
    pub token: Seq<char>,
    pub enabled: bool,
    pub password: Seq<char>,
}

impl DeepView for Channel {
    type V = ChannelView;

    open spec fn deep_view(&self) -> ChannelView {
        ChannelView {
            id: self.id@,
            created_at: self.created_at@,
            deleted_at: self.deleted_at.deep_view(),
            updated_at: self.updated_at@,
            token: self.token@,
            enabled: self.enabled,
            password: self.password@,
        }
    }
}

impl View for Channel {
    type V = ChannelView;

    open spec fn view(&self) -> ChannelView {
        self.deep_view()
    }
}

impl Clone for Channel {
    fn clone(&self) -> (r: Self)
        ensures
            r@ == self@,
    {
        Channel {
            id: self.id,
            created_at: self.created_at.clone(),
            deleted_at: clone_optional_text(&self.deleted_at),
            updated_at: self.updated_at.clone(),
            token: self.token.clone(),
            enabled: self.enabled,
            password: self.password.clone(),
        }
    }
}

/// The runtime attributes of a command.
#[derive(Debug, PartialEq, Eq)]
pub struct CommandMeta {
    pub added_by: String,
    pub cooldown: i32,
    pub count: i32,
    pub enabled: bool,
    pub role: String,
}

pub struct CommandMetaView {
    pub added_by: Seq<char>,
    pub cooldown: i32,
    pub count: i32,
    pub enabled: bool,
    pub role: Seq<char>,
}

impl DeepView for CommandMeta {
    type V = CommandMetaView;

    open spec fn deep_view(&self) -> CommandMetaView {
        CommandMetaView {
            added_by: self.added_by@,
            cooldown: self.cooldown,
            count: self.count,
            enabled: self.enabled,
            role: self.role@,
        }
    }
}

impl View for CommandMeta {
    type V = CommandMetaView;

    open spec fn view(&self) -> CommandMetaView {
        self.deep_view()
    }
}

impl Clone for CommandMeta {
    fn clone(&self) -> (r: Self)
        ensures
            r@ == self@,
    {
        CommandMeta {
            added_by: self.added_by.clone(),
            cooldown: self.cooldown,
            count: self.count,
            enabled: self.enabled,
            role: self.role.clone(),
        }
    }
}

/// A chat command of one channel.
#[derive(Debug, PartialEq, Eq)]
pub struct Command {
    pub channel: String,
    pub created_at: String,
    pub deleted_at: Option<String>,
    pub meta: CommandMeta,
    pub name: String,
    pub response: Vec<Message>,
    pub services: Vec<String>,
    pub updated_at: String,
}

pub struct CommandView {
    pub channel: Seq<char>,
    pub created_at: Seq<char>,
    pub deleted_at: Option<Seq<char>>,
    pub meta: CommandMetaView,
    pub name: Seq<char>,
    pub response: Seq<MessageView>,
    pub services: Seq<Seq<char>>,
    pub updated_at: Seq<char>,
}

impl DeepView for Command {
    type V = CommandView;

    open spec fn deep_view(&self) -> CommandView {
        CommandView {
            channel: self.channel@,
            created_at: self.created_at@,
            deleted_at: self.deleted_at.deep_view(),
            meta: self.meta@,
            name: self.name@,
            response: self.response.deep_view(),
            services: self.services.deep_view(),
            updated_at: self.updated_at@,
        }
    }
}

impl View for Command {
    type V = CommandView;

    open spec fn view(&self) -> CommandView {
        self.deep_view()
    }
}

impl Clone for Command {
    fn clone(&self) -> (r: Self)
        ensures
            r@ == self@,
    {
        Command {
            channel: self.channel.clone(),
            created_at: self.created_at.clone(),
            deleted_at: clone_optional_text(&self.deleted_at),
            meta: self.meta.clone(),
            name: self.name.clone(),
            response: clone_response(&self.response),
            services: clone_texts(&self.services),
            updated_at: self.updated_at.clone(),
        }
    }
}

/// A quote of one channel, numbered within the channel.
#[derive(Debug, PartialEq, Eq)]
pub struct Quote {
    pub quote_id: i64,
    pub response: Vec<Message>,
    pub channel: String,
}

pub struct QuoteView {
    pub quote_id: i64,
    pub response: Seq<MessageView>,
    pub channel: Seq<char>,
}

impl DeepView for Quote {
    type V = QuoteView;

    open spec fn deep_view(&self) -> QuoteView {
        QuoteView {
            quote_id: self.quote_id,
            response: self.response.deep_view(),
            channel: self.channel@,
        }
    }
}

impl View for Quote {
    type V = QuoteView;

    open spec fn view(&self) -> QuoteView {
        self.deep_view()
    }
}

impl Clone for Quote {
    fn clone(&self) -> (r: Self)
        ensures
            r@ == self@,
    {
        Quote {
            quote_id: self.quote_id,
            response: clone_response(&self.response),
            channel: self.channel.clone(),
        }
    }
}

/// A privileged user of one channel.
#[derive(Debug, PartialEq, Eq)]
pub struct Trust {
    pub trusted: String,
    pub channel: String,
}

pub struct TrustView {
    pub trusted: Seq<char>,
    pub channel: Seq<char>,
}

impl DeepView for Trust {
    type V = TrustView;

    open spec fn deep_view(&self) -> TrustView {
        TrustView { trusted: self.trusted@, channel: self.channel@ }
    }
}

impl View for Trust {
    type V = TrustView;

    open spec fn view(&self) -> TrustView {
        self.deep_view()
    }
}

impl Clone for Trust {
    fn clone(&self) -> (r: Self)
        ensures
            r@ == self@,
    {
        Trust { trusted: self.trusted.clone(), channel: self.channel.clone() }
    }
}

/// Another name for a command of the same channel.
#[derive(Debug, PartialEq, Eq)]
pub struct Alias {
    pub channel: String,
    pub command: String,
    pub alias: String,
}

pub struct AliasView {
    pub channel: Seq<char>,
    pub command: Seq<char>,
    pub alias: Seq<char>,
}

impl DeepView for Alias {
    type V = AliasView;

    open spec fn deep_view(&self) -> AliasView {
        AliasView { channel: self.channel@, command: self.command@, alias: self.alias@ }
    }
}

impl View for Alias {
    type V = AliasView;

    open spec fn view(&self) -> AliasView {
        self.deep_view()
    }
}

impl Clone for Alias {
    fn clone(&self) -> (r: Self)
        ensures
            r@ == self@,
    {
        Alias {
            channel: self.channel.clone(),
            command: self.command.clone(),
            alias: self.alias.clone(),
        }
    }
}

/// A link of one channel to an external service.
#[derive(Debug, PartialEq, Eq)]
pub struct SocialService {
    pub channel: String,
    pub service: String,
    pub url: String,
}

pub struct SocialServiceView {
    pub channel: Seq<char>,
    pub service: Seq<char>,
    pub url: Seq<char>,
}

impl DeepView for SocialService {
    type V = SocialServiceView;

    open spec fn deep_view(&self) -> SocialServiceView {
        SocialServiceView { channel: self.channel@, service: self.service@, url: self.url@ }
    }
}

impl View for SocialService {
    type V = SocialServiceView;

    open spec fn view(&self) -> SocialServiceView {
        self.deep_view()
    }
}

impl Clone for SocialService {
    fn clone(&self) -> (r: Self)
        ensures
            r@ == self@,
    {
        SocialService {
            channel: self.channel.clone(),
            service: self.service.clone(),
            url: self.url.clone(),
        }
    }
}

/// The tokens with which the bot acts on a service.
#[derive(Debug, PartialEq, Eq)]
pub struct BotAuthorization {
    pub access: String,
    pub refresh: Option<String>,
    pub expiration: Option<String>,
}

pub struct BotAuthorizationView {
    pub access: Seq<char>,
    pub refresh: Option<Seq<char>>,
    pub expiration: Option<Seq<char>>,
}

impl DeepView for BotAuthorization {
    type V = BotAuthorizationView;

    open spec fn deep_view(&self) -> BotAuthorizationView {
        BotAuthorizationView {
            access: self.access@,
            refresh: self.refresh.deep_view(),
            expiration: self.expiration.deep_view(),
        }
    }
}

impl View for BotAuthorization {
    type V = BotAuthorizationView;

    open spec fn view(&self) -> BotAuthorizationView {
        self.deep_view()
    }
}

impl Clone for BotAuthorization {
    fn clone(&self) -> (r: Self)
        ensures
            r@ == self@,
    {
        BotAuthorization {
            access: self.access.clone(),
            refresh: clone_optional_text(&self.refresh),
            expiration: clone_optional_text(&self.expiration),
        }
    }
}

/// The authorization of one channel for one service, as it is stored.
#[derive(Debug, PartialEq, Eq)]
pub struct ServiceAuthorization {
    pub channel: String,
    pub service: String,
    pub authorization: BotAuthorization,
}

pub struct ServiceAuthorizationView {
    pub channel: Seq<char>,
    pub service: Seq<char>,
    pub authorization: BotAuthorizationView,
}

impl DeepView for ServiceAuthorization {
    type V = ServiceAuthorizationView;

    open spec fn deep_view(&self) -> ServiceAuthorizationView {
        ServiceAuthorizationView {
            channel: self.channel@,
            service: self.service@,
            authorization: self.authorization@,
        }
    }
}

impl View for ServiceAuthorization {
    type V = ServiceAuthorizationView;

    open spec fn view(&self) -> ServiceAuthorizationView {
        self.deep_view()
    }
}

impl Clone for ServiceAuthorization {
    fn clone(&self) -> (r: Self)
        ensures
            r@ == self@,
    {
        ServiceAuthorization {
            channel: self.channel.clone(),
            service: self.service.clone(),
            authorization: self.authorization.clone(),
        }
    }
}

/// The moderation counters of one user on one service of one channel.
#[derive(Debug, PartialEq, Eq)]
pub struct UserOffences {
    pub channel: String,
    pub service: String,
    pub user: String,
    pub caps: i32,
    pub emoji: i32,
    pub urls: i32,
}

pub struct UserOffencesView {
    pub channel: Seq<char>,
    pub service: Seq<char>,
    pub user: Seq<char>,
    pub caps: i32,
    pub emoji: i32,
    pub urls: i32,
}

impl DeepView for UserOffences {
    type V = UserOffencesView;

    open spec fn deep_view(&self) -> UserOffencesView {
        UserOffencesView {
            channel: self.channel@,
            service: self.service@,
            user: self.user@,
            caps: self.caps,
            emoji: self.emoji,
            urls: self.urls,
        }
    }
}

impl View for UserOffences {
    type V = UserOffencesView;

    open spec fn view(&self) -> UserOffencesView {
        self.deep_view()
    }
}

impl Clone for UserOffences {
    fn clone(&self) -> (r: Self)
        ensures
            r@ == self@,
    {
        UserOffences {
            channel: self.channel.clone(),
            service: self.service.clone(),
            user: self.user.clone(),
            caps: self.caps,
            emoji: self.emoji,
            urls: self.urls,
        }
    }
}


/// The settings of repeated messages.
#[derive(Clone, Copy, Debug, PartialEq, Eq, Structural)]
pub struct RepeatConfig {
    pub disabled: bool,
    pub only_live: bool,
    pub default_minimum: i32,
}

/// The announcement of one kind of event.
#[derive(Debug, PartialEq, Eq)]
pub struct EventConfig {
    pub message: String,
    pub enabled: bool,
}

pub struct EventConfigView {
    pub message: Seq<char>,
    pub enabled: bool,
}

impl DeepView for EventConfig {
    type V = EventConfigView;

    open spec fn deep_view(&self) -> EventConfigView {
        EventConfigView { message: self.message@, enabled: self.enabled }
    }
}

impl View for EventConfig {
    type V = EventConfigView;

    open spec fn view(&self) -> EventConfigView {
        self.deep_view()
    }
}

impl Clone for EventConfig {
    fn clone(&self) -> (r: Self)
        ensures
            r@ == self@,
    {
        EventConfig { message: self.message.clone(), enabled: self.enabled }
    }
}

/// The announcements of a channel, by event.
#[derive(Debug, PartialEq, Eq)]
pub struct EventsConfig {
    pub follow: EventConfig,
    pub subscribe: EventConfig,
    pub host: EventConfig,
    pub join: EventConfig,
    pub leave: EventConfig,
}

pub struct EventsConfigView {
    pub follow: EventConfigView,
    pub subscribe: EventConfigView,
    pub host: EventConfigView,
    pub join: EventConfigView,
    pub leave: EventConfigView,
}

impl DeepView for EventsConfig {
    type V = EventsConfigView;

    open spec fn deep_view(&self) -> EventsConfigView {
        EventsConfigView {
            follow: self.follow@,
            subscribe: self.subscribe@,
            host: self.host@,
            join: self.join@,
            leave: self.leave@,
        }
    }
}

impl View for EventsConfig {
    type V = EventsConfigView;

    open spec fn view(&self) -> EventsConfigView {
        self.deep_view()
    }
}

impl Clone for EventsConfig {
    fn clone(&self) -> (r: Self)
        ensures
            r@ == self@,
    {
        EventsConfig {
            follow: self.follow.clone(),
            subscribe: self.subscribe.clone(),
            host: self.host.clone(),
            join: self.join.clone(),
            leave: self.leave.clone(),
        }
    }
}

/// What the bot does with a message that breaks a spam rule.
#[derive(Clone, Copy, Debug, PartialEq, Eq, Structural)]
pub enum SpamAction {
    Ignore,
    Purge,
    Timeout,
    Ban,
}

/// One spam rule: its threshold, the action, and the warnings given first.
#[derive(Debug, PartialEq, Eq)]
pub struct SpamConfigs<T> {
    pub action: SpamAction,
    pub value: T,
    pub warnings: i32,
}

impl<T: Copy> Clone for SpamConfigs<T> {
    fn clone(&self) -> (r: Self)
        ensures
            r == *self,
    {
        SpamConfigs { action: self.action, value: self.value, warnings: self.warnings }
    }
}

impl<T: Copy> Copy for SpamConfigs<T> {

}

/// The word and address lists of the spam filter.
#[derive(Debug, PartialEq, Eq)]
pub struct SpamKeywords {
    pub blacklist: Vec<String>,
    pub whitelist: Vec<String>,
    pub urls: Vec<String>,
}

pub struct SpamKeywordsView {
    pub blacklist: Seq<Seq<char>>,
    pub whitelist: Seq<Seq<char>>,
    pub urls: Seq<Seq<char>>,
}

impl DeepView for SpamKeywords {
    type V = SpamKeywordsView;

    open spec fn deep_view(&self) -> SpamKeywordsView {
        SpamKeywordsView {
            blacklist: self.blacklist.deep_view(),
            whitelist: self.whitelist.deep_view(),
            urls: self.urls.deep_view(),
        }
    }
}

impl View for SpamKeywords {
    type V = SpamKeywordsView;

    open spec fn view(&self) -> SpamKeywordsView {
        self.deep_view()
    }
}

impl Clone for SpamKeywords {
    fn clone(&self) -> (r: Self)
        ensures
            r@ == self@,
    {
        SpamKeywords {
            blacklist: clone_texts(&self.blacklist),
            whitelist: clone_texts(&self.whitelist),
            urls: clone_texts(&self.urls),
        }
    }
}

/// The spam rules of a channel.
#[derive(Debug, PartialEq, Eq)]
pub struct SpamConfig {
    pub allow_urls: SpamConfigs<bool>,
    pub max_caps_score: SpamConfigs<i32>,
    pub max_emoji: SpamConfigs<i32>,
    pub keywords: SpamKeywords,
}

pub struct SpamConfigView {
    pub allow_urls: SpamConfigs<bool>,
    pub max_caps_score: SpamConfigs<i32>,
    pub max_emoji: SpamConfigs<i32>,
    pub keywords: SpamKeywordsView,
}

impl DeepView for SpamConfig {
    type V = SpamConfigView;

    open spec fn deep_view(&self) -> SpamConfigView {
        SpamConfigView {
            allow_urls: self.allow_urls,
            max_caps_score: self.max_caps_score,
            max_emoji: self.max_emoji,
            keywords: self.keywords@,
        }
    }
}

impl View for SpamConfig {
    type V = SpamConfigView;

    open spec fn view(&self) -> SpamConfigView {
        self.deep_view()
    }
}

impl Clone for SpamConfig {
    fn clone(&self) -> (r: Self)
        ensures
            r@ == self@,
    {
        SpamConfig {
            allow_urls: self.allow_urls,
            max_caps_score: self.max_caps_score,
            max_emoji: self.max_emoji,
            keywords: self.keywords.clone(),
        }
    }
}

/// The moderation and event settings of one channel.
#[derive(Debug, PartialEq, Eq)]
pub struct Config {
    pub repeat: RepeatConfig,
    pub events: EventsConfig,
    pub spam: SpamConfig,
    pub channel: String,
}

pub struct ConfigView {
    pub repeat: RepeatConfig,
    pub events: EventsConfigView,
    pub spam: SpamConfigView,
    pub channel: Seq<char>,
}

impl DeepView for Config {
    type V = ConfigView;

    open spec fn deep_view(&self) -> ConfigView {
        ConfigView {
            repeat: self.repeat,
            events: self.events@,
            spam: self.spam@,
            channel: self.channel@,
        }
    }
}

impl View for Config {
    type V = ConfigView;

    open spec fn view(&self) -> ConfigView {
        self.deep_view()
    }
}

impl Clone for Config {
    fn clone(&self) -> (r: Self)
        ensures
            r@ == self@,
    {
        Config {
            repeat: self.repeat,
            events: self.events.clone(),
            spam: self.spam.clone(),
            channel: self.channel.clone(),
        }
    }
}

/// Whether the bot is connected to one service.
#[derive(Debug, PartialEq, Eq)]
pub struct ConnectedService {
    pub service: String,
    pub connected: bool,
    pub last_authorization: i32,
}

pub struct ConnectedServiceView {
    pub service: Seq<char>,
    pub connected: bool,
    pub last_authorization: i32,
}

impl DeepView for ConnectedService {
    type V = ConnectedServiceView;

    open spec fn deep_view(&self) -> ConnectedServiceView {
        ConnectedServiceView {
            service: self.service@,
            connected: self.connected,
            last_authorization: self.last_authorization,
        }
    }
}

impl View for ConnectedService {
    type V = ConnectedServiceView;

    open spec fn view(&self) -> ConnectedServiceView {
        self.deep_view()
    }
}

impl Clone for ConnectedService {
    fn clone(&self) -> (r: Self)
        ensures
            r@ == self@,
    {
        ConnectedService {
            service: self.service.clone(),
            connected: self.connected,
            last_authorization: self.last_authorization,
        }
    }
}

/// The connections of the bot of one channel.
#[derive(Debug, PartialEq, Eq)]
pub struct BotState {
    pub services: Vec<ConnectedService>,
    pub token: String,
}

pub struct BotStateView {
    pub services: Seq<ConnectedServiceView>,
    pub token: Seq<char>,
}

impl DeepView for BotState {
    type V = BotStateView;

    open spec fn deep_view(&self) -> BotStateView {
        BotStateView { services: self.services.deep_view(), token: self.token@ }
    }
}

impl View for BotState {
    type V = BotStateView;

    open spec fn view(&self) -> BotStateView {
        self.deep_view()
    }
}

impl Clone for BotState {
    fn clone(&self) -> (r: Self)
        ensures
            r@ == self@,
    {
        let services = self.services.clone();
        assert(services.deep_view() =~= self.services.deep_view());
        BotState { services, token: self.token.clone() }
    }
}

/// A counter delta as it arrives from a caller.
#[derive(Debug, PartialEq, Eq)]
pub struct UpdateCount {
    pub count: String,
}


/// The bytes of an identifier, if there is one.
pub open spec fn identifier_view(id: Option<[u8; 12]>) -> Option<Seq<u8>> {
    match id {
        Some(bytes) => Some(bytes@),
        None => None,
    }
}

impl Channel {
    /// The channel that a signup under `name` makes, given the password
    /// hash, an identifier and the time of the signup.
    pub open spec fn signed_up(
        name: Seq<char>,
        password: Seq<char>,
        id: Seq<u8>,
        now: Seq<char>,
    ) -> ChannelView {
        ChannelView {
            id,
            created_at: now,
            deleted_at: None,
            updated_at: now,
            token: name,
            enabled: true,
            password,
        }
    }

    /// Builds the channel of a signup from an identifier, if one could be
    /// had, and the time.
    pub fn assemble(channel: PostChannel, password: String, id: Option<[u8; 12]>, now: String) -> (r:
        Option<Self>)
        ensures
            match id {
                Some(bytes) => r matches Some(c) && c@ == Channel::signed_up(
                    channel.name@,
                    password@,
                    bytes@,
                    now@,
                ),
                None => r is None,
            },
    {
        match id {
            Some(bytes) => Some(
                Channel {
                    id: bytes,
                    created_at: now.clone(),
                    deleted_at: None,
                    updated_at: now,
                    token: channel.name,
                    enabled: true,
                    password,
                },
            ),
            None => None,
        }
    }

    /// Builds the channel of a signup, with a fresh identifier and the
    /// current time.  `password` is the hash to store.  `None` where no
    /// identifier can be made.
    pub fn from_post(channel: PostChannel, password: String) -> (r: Option<Self>)
        ensures
            r matches Some(c) ==> c@ == Channel::signed_up(
                channel.name@,
                password@,
                c@.id,
                c@.created_at,
            ),
    {
        let now = local_time_text();
        let id = fresh_identifier();
        Channel::assemble(channel, password, id, now)
    }
}

impl Command {
    /// The command that is created under `name` in `channel` at the time
    /// `now`: no author, no cooldown, never used, enabled.
    pub open spec fn fresh(
        response: Seq<MessageView>,
        services: Seq<Seq<char>>,
        role: Seq<char>,
        channel: Seq<char>,
        name: Seq<char>,
        now: Seq<char>,
    ) -> CommandView {
        CommandView {
            channel,
            created_at: now,
            deleted_at: None,
            meta: CommandMetaView {
                added_by: Seq::empty(),
                cooldown: 0,
                count: 0,
                enabled: true,
                role,
            },
            name,
            response,
            services,
            updated_at: now,
        }
    }

    /// Builds the command that `cmd` defines, created at the time `now`.
    pub fn stamped(cmd: PostCommand, channel: &str, name: &str, now: String) -> (r: Command)
        ensures
            r@ == Command::fresh(
                cmd.response.deep_view(),
                cmd.services.deep_view(),
                cmd.role@,
                channel@,
                name@,
                now@,
            ),
    {
        Command {
            channel: channel.to_owned(),
            created_at: now.clone(),
            deleted_at: None,
            meta: CommandMeta {
                added_by: String::new(),
                cooldown: 0,
                count: 0,
                enabled: true,
                role: cmd.role,
            },
            name: name.to_owned(),
            response: cmd.response,
            services: cmd.services,
            updated_at: now,
        }
    }

    /// Builds the command that `cmd` defines, created now.
    pub fn from_post(cmd: PostCommand, channel: &str, name: &str) -> (r: Command)
        ensures
            r@ == Command::fresh(
                cmd.response.deep_view(),
                cmd.services.deep_view(),
                cmd.role@,
                channel@,
                name@,
                r@.created_at,
            ),
    {
        let now = local_time_text();
        Command::stamped(cmd, channel, name, now)
    }
}

impl UserOffencesView {
    /// The record without any offence.
    pub open spec fn zero(channel: Seq<char>, service: Seq<char>, user: Seq<char>) -> Self {
        UserOffencesView { channel, service, user, caps: 0, emoji: 0, urls: 0 }
    }

    /// The counter called `name`: one of `caps`, `emoji`, `urls`.
    pub open spec fn attribute(self, name: Seq<char>) -> Option<i32> {
        if name == "caps"@ {
            Some(self.caps)
        } else if name == "emoji"@ {
            Some(self.emoji)
        } else if name == "urls"@ {
            Some(self.urls)
        } else {
            None
        }
    }

    /// The counter called `name`, or 0 for a counter that does not exist.
    pub open spec fn count(self, name: Seq<char>) -> i32 {
        match self.attribute(name) {
            Some(count) => count,
            None => 0,
        }
    }

    /// The record with the counter called `name` set to `value`.
    pub open spec fn with_attribute(self, name: Seq<char>, value: i32) -> Option<Self> {
        if name == "caps"@ {
            Some(UserOffencesView { caps: value, ..self })
        } else if name == "emoji"@ {
            Some(UserOffencesView { emoji: value, ..self })
        } else if name == "urls"@ {
            Some(UserOffencesView { urls: value, ..self })
        } else {
            None
        }
    }
}

impl UserOffences {
    /// The counter called `name`, or `None` for an unknown name.
    pub fn get_attribute(&self, name: &str) -> (r: Option<i32>)
        ensures
            r == self@.attribute(name@),
    {
        if same_text(name, "caps") {
            Some(self.caps)
        } else if same_text(name, "emoji") {
            Some(self.emoji)
        } else if same_text(name, "urls") {
            Some(self.urls)
        } else {
            None
        }
    }

    /// The counter called `name`, or 0 for a counter that does not exist.
    pub fn count(&self, name: &str) -> (r: i32)
        ensures
            r == self@.count(name@),
    {
        match self.get_attribute(name) {
            Some(count) => count,
            None => 0,
        }
    }

    /// Sets the counter called `name`; fails for an unknown name.
    pub fn set_attribute(self, name: &str, value: i32) -> (r: Result<Self, ()>)
        ensures
            match r {
                Ok(record) => self@.with_attribute(name@, value) == Some(record@),
                Err(_) => self@.with_attribute(name@, value) is None,
            },
    {
        let mut record = self;
        if same_text(name, "caps") {
            record.caps = value;
        } else if same_text(name, "emoji") {
            record.emoji = value;
        } else if same_text(name, "urls") {
            record.urls = value;
        } else {
            return Err(());
        }
        Ok(record)
    }
}

} // verus!
