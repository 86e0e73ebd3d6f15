//! The data types of the platform's REST API.

use vstd::prelude::*;
use vstd::string::StringExecFns;

use crate::json::opt_view;

verus! {

/// The `data` envelope that wraps every list the REST API returns.
#[derive(Debug)]
pub struct TwitchData<T> {
    pub data: Vec<T>,
}

/// The cursor of a paged listing.
#[derive(Debug)]
pub struct Pagination {
    pub cursor: Option<String>,
}

/// A user account.
#[derive(Clone, Debug)]
pub struct User {
    pub id: String,
    pub login: String,
    pub display_name: String,
    pub kind: String,
    pub broadcaster_type: String,
    pub description: String,
    pub profile_image_url: String,
    pub offline_image_url: String,
    pub view_count: i64,
    pub email: Option<String>,
    pub created_at: String,
}

/// The images of a channel-points reward.
#[derive(Debug)]
pub struct RewardImage {
    pub url_1x: String,
    pub url_2x: String,
    pub url_4x: String,
}

/// The per-stream redemption limit of a reward.
#[derive(Debug)]
pub struct RewardMaxPerStream {
    pub is_enabled: bool,
    pub max_per_stream: i64,
}

/// The per-user, per-stream redemption limit of a reward.
#[derive(Debug)]
pub struct RewardMaxPerUserPerStream {
    pub is_enabled: bool,
    pub max_per_user_per_stream: i64,
}

/// The global cooldown of a reward.
#[derive(Debug)]
pub struct RewardGlobalCooldown {
    pub is_enabled: bool,
    pub global_cooldown_seconds: i64,
}

/// A channel-points reward.
#[derive(Debug)]
pub struct Reward {
    pub broadcaster_id: String,
    pub broadcaster_login: String,
    pub broadcaster_name: String,
    pub id: String,
    pub title: String,
    pub prompt: String,
    pub cost: i64,
    pub image: Option<RewardImage>,
    pub default_image: RewardImage,
    pub background_color: String,
    pub is_enabled: bool,
    pub is_user_input_required: bool,
    pub max_per_stream_setting: RewardMaxPerStream,
    pub max_per_user_per_stream_setting: RewardMaxPerUserPerStream,
    pub global_cooldown_setting: RewardGlobalCooldown,
    pub is_paused: bool,
    pub is_in_stock: bool,
    pub should_redemptions_skip_request_queue: bool,
    pub redemptions_redeemed_current_stream: Option<i64>,
    pub cooldown_expires_at: Option<String>,
}

/// The fields of a reward to create.
#[derive(Clone, Debug)]
pub struct RewardCreate {
    pub title: String,
    pub cost: i64,
    pub prompt: Option<String>,
    pub is_enabled: Option<bool>,
    pub background_color: Option<String>,
    pub is_user_input_required: Option<bool>,
    pub is_max_per_stream_enabled: Option<bool>,
    pub max_per_stream: Option<i64>,
    pub is_max_per_user_per_stream_enabled: Option<bool>,
    pub max_per_user_per_stream: Option<i64>,
    pub is_global_cooldown_enabled: Option<bool>,
    pub global_cooldown_seconds: Option<i64>,
    pub should_redemptions_skip_request_queue: Option<bool>,
}

/// The fields of a reward to change.
#[derive(Clone, Debug)]
pub struct RewardUpdate {
    pub title: Option<String>,
    pub cost: Option<i64>,
    pub prompt: Option<String>,
    pub is_enabled: Option<bool>,
    pub background_color: Option<String>,
    pub is_user_input_required: Option<bool>,
    pub is_max_per_stream_enabled: Option<bool>,
    pub max_per_stream: Option<i64>,
    pub is_max_per_user_per_stream_enabled: Option<bool>,
    pub max_per_user_per_stream: Option<i64>,
    pub is_global_cooldown_enabled: Option<bool>,
    pub global_cooldown_seconds: Option<i64>,
    pub is_paused: Option<bool>,
    pub should_redemptions_skip_request_queue: Option<bool>,
}

/// The status of a redemption.
#[derive(Clone, Debug)]
pub struct RedemptionStatus {
    pub status: String,
}

/// How an event subscription is delivered.
#[derive(Debug)]
pub struct EventSubTransport {
    pub method: String,
    pub callback: Option<String>,
    pub secret: Option<String>,
    pub session_id: Option<String>,
    pub connected_at: Option<String>,
}

/// What an event subscription is scoped to.
#[derive(Debug)]
pub struct EventSubCondition {
    pub broadcaster_id: Option<String>,
    pub broadcaster_user_id: Option<String>,
    pub moderator_user_id: Option<String>,
    pub user_id: Option<String>,
    pub from_broadcaster_user_id: Option<String>,
    pub to_broadcaster_user_id: Option<String>,
    pub reward_id: Option<String>,
}

/// An event subscription, as the platform reports it.
#[derive(Debug)]
pub struct EventSub {
    pub id: String,
    pub status: String,
    pub kind: String,
    pub version: String,
    pub condition: EventSubCondition,
    pub created_at: String,
    pub transport: EventSubTransport,
    pub cost: i64,
}

/// The body of a subscription-create call.
#[derive(Debug)]
pub struct EventSubCreate {
    pub kind: String,
    pub version: String,
    pub condition: EventSubCondition,
    pub transport: EventSubTransport,
}

/// A ban to apply.
#[derive(Clone, Debug)]
pub struct BanUser {
    pub user_id: String,
    pub duration: i64,
    pub reason: Option<String>,
}

/// The body of a ban call.
#[derive(Debug)]
pub struct BanUserObj {
    pub data: BanUser,
}

/// A ban, as the platform reports it.
#[derive(Debug)]
pub struct BannedUser {
    pub broadcaster_id: String,
    pub moderator_id: String,
    pub user_id: String,
    pub created_at: String,
    pub end_time: String,
}

/// The broadcast settings of a channel.
#[derive(Debug)]
pub struct ChannelInformation {
    pub broadcaster_id: String,
    pub broadcaster_login: String,
    pub broadcaster_name: String,
    pub broadcaster_language: String,
    pub game_name: String,
    pub game_id: String,
    pub title: String,
    pub delay: i64,
    pub tags: Vec<String>,
    pub content_classification_labels: Vec<String>,
    pub is_branded_content: bool,
}

/// One of the top predictors of an outcome.
#[derive(Debug)]
pub struct PredictionTopPredictor {
    pub user_id: String,
    pub user_name: String,
    pub user_login: String,
    pub channel_points_used: i64,
    pub channel_points_won: i64,
}

/// One outcome of a prediction.
#[derive(Debug)]
pub struct PredictionOutcome {
    pub id: String,
    pub title: String,
    pub users: i64,
    pub channel_points: i64,
    pub top_predictors: Option<Vec<PredictionTopPredictor>>,
    pub color: String,
}

/// A channel prediction.
#[derive(Debug)]
pub struct Prediction {
    pub id: String,
    pub broadcaster_id: String,
    pub broadcaster_name: String,
    pub broadcaster_login: String,
    pub title: String,
    pub winning_outcome_id: Option<String>,
    pub outcomes: Vec<PredictionOutcome>,
    pub prediction_window: i64,
    pub status: String,
    pub created_at: String,
    pub ended_at: Option<String>,
    pub locked_at: Option<String>,
}

/// An outcome of a prediction to create.
#[derive(Debug)]
pub struct PredictionOutcomeCreate {
    pub title: String,
}

/// The body of a prediction-create call.
#[derive(Debug)]
pub struct PredictionCreate {
    pub broadcaster_id: String,
    pub title: String,
    pub outcomes: Vec<PredictionOutcomeCreate>,
    pub prediction_window: i64,
}

/// The body of a prediction-end call.
#[derive(Debug)]
pub struct PredictionEnd {
    pub broadcaster_id: String,
    pub id: String,
    pub status: String,
    pub winning_outcome_id: Option<String>,
}

/// The body of a commercial-start call.
#[derive(Debug)]
pub struct CommercialStart {
    pub broadcaster_id: String,
    pub length: i64,
}

/// A commercial break, as the platform reports it.
#[derive(Debug)]
pub struct Commercial {
    pub length: i64,
    pub message: String,
    pub retry_after: i64,
}

/// A chat announcement.
#[derive(Debug)]
pub struct Announcement {
    pub message: String,
    pub color: Option<String>,
}

/// A whisper message.
#[derive(Debug)]
pub struct Whisper {
    pub message: String,
}

/// A live stream.
#[derive(Debug)]
pub struct Stream {
    pub id: String,
    pub user_id: String,
    pub user_login: String,
    pub user_name: String,
    pub game_id: String,
    pub game_name: String,
    pub kind: String,
    pub title: String,
    pub tags: Vec<String>,
    pub viewer_count: i64,
    pub started_at: String,
    pub language: String,
    pub thumbnail_url: String,
    pub is_mature: bool,
}

/// One follower of a channel.
#[derive(Debug)]
pub struct ChannelFollowers {
    pub followed_at: String,
    pub user_id: String,
    pub user_login: String,
    pub user_name: String,
}

/// A page of followers, with their total.
#[derive(Debug)]
pub struct ChannelFollowersData {
    pub data: Vec<ChannelFollowers>,
    pub pagination: Pagination,
    pub total: i64,
}

/// What a video listing is filtered by.
#[derive(Debug)]
pub enum VideoId {
    Id(String),
    UserId(String),
    GameId(String),
}

/// A muted segment of a video.
#[derive(Debug)]
pub struct VideoMutedSegment {
    pub duration: i64,
    pub offset: i64,
}

/// A video.
#[derive(Debug)]
pub struct Video {
    pub id: String,
    pub stream_id: String,
    pub user_id: String,
    pub user_login: String,
    pub user_name: String,
    pub title: String,
    pub description: String,
    pub created_at: String,
    pub published_at: String,
    pub url: String,
    pub thumbnail_url: String,
    pub viewable: String,
    pub view_count: i64,
    pub language: String,
    pub kind: String,
    pub duration: String,
    pub muted_segments: Option<Vec<VideoMutedSegment>>,
}


impl EventSubCreate {
    /// `self` asks for topic `topic` at `version`, scoped to `broadcaster`,
    /// delivered over the websocket session `session_id`.
    pub open spec fn requests(
        self,
        topic: Seq<char>,
        version: Seq<char>,
        broadcaster: Seq<char>,
        session_id: Seq<char>,
    ) -> bool {
        &&& self.kind@ == topic
        &&& self.version@ == version
        &&& opt_view(self.condition.broadcaster_id) == Some(broadcaster)
        &&& opt_view(self.condition.broadcaster_user_id) == Some(broadcaster)
        &&& opt_view(self.condition.moderator_user_id) == Some(broadcaster)
        &&& opt_view(self.condition.user_id) == Some(broadcaster)
        &&& self.condition.from_broadcaster_user_id is None
        &&& self.condition.to_broadcaster_user_id is None
        &&& self.condition.reward_id is None
        &&& self.transport.method@ == "websocket"@
        &&& opt_view(self.transport.session_id) == Some(session_id)
        &&& self.transport.callback is None
        &&& self.transport.secret is None
        &&& self.transport.connected_at is None
    }

    /// The subscription-create body for `topic` at `version` on a websocket session.
    pub fn for_websocket(
        topic: &String,
        version: &String,
        broadcaster_id: &String,
        session_id: &String,
    ) -> (r: EventSubCreate)
        ensures
            r.requests(topic@, version@, broadcaster_id@, session_id@),
    {
        EventSubCreate {
            kind: topic.clone(),
            version: version.clone(),
            condition: EventSubCondition {
                broadcaster_id: Some(broadcaster_id.clone()),
                broadcaster_user_id: Some(broadcaster_id.clone()),
                moderator_user_id: Some(broadcaster_id.clone()),
                user_id: Some(broadcaster_id.clone()),
                from_broadcaster_user_id: None,
                to_broadcaster_user_id: None,
                reward_id: None,
            },
            transport: EventSubTransport {
                method: String::from_str("websocket"),
                callback: None,
                secret: None,
                session_id: Some(session_id.clone()),
                connected_at: None,
            },
        }
    }
}


/// `values` written one after another with `sep` between each two.
pub open spec fn join_spec(values: Seq<Seq<char>>, sep: Seq<char>) -> Seq<char>
    decreases values.len(),
{
    if values.len() == 0 {
        Seq::empty()
    } else if values.len() == 1 {
        values[0]
    } else {
        join_spec(values.drop_last(), sep) + sep + values.last()
    }
}

pub open spec fn views(values: Seq<String>) -> Seq<Seq<char>> {
    values.map_values(|s: String| s@)
}

/// Joins `values` with `sep` between each two.
pub fn join(values: &Vec<String>, sep: &str) -> (r: String)
    ensures
        r@ == join_spec(views(values@), sep@),
{
    let mut r = String::new();
    let mut i: usize = 0;
    while i < values.len()
        invariant
            i <= values@.len(),
            r@ == join_spec(views(values@.take(i as int)), sep@),
        decreases values@.len() - i,
    {
        proof {
            assert(views(values@.take(i as int + 1)).drop_last() =~= views(values@.take(i as int)));
            assert(views(values@.take(i as int + 1)).last() == values@[i as int]@);
        }
        if i > 0 {
            r.append(sep);
        }
        r.append(values[i].as_str());
        proof {
            if i == 0 {
                assert(r@ =~= views(values@.take(1))[0]);
            }
        }
        i = i + 1;
    }
    assert(values@.take(values@.len() as int) =~= values@);
    r
}

/// A query parameter repeated for each of `values`: `&name=v1&name=v2...`.
pub open spec fn list_param_spec(name: Seq<char>, values: Seq<String>) -> Seq<char> {
    "&"@ + name + "="@ + join_spec(views(values), "&"@ + name + "="@)
}

pub fn list_param(name: &str, values: &Vec<String>) -> (r: String)
    ensures
        r@ == list_param_spec(name@, values@),
{
    let mut sep = String::from_str("&");
    sep.append(name);
    sep.append("=");
    let mut r = sep.clone();
    r.append(join(values, sep.as_str()).as_str());
    r
}

/// `&name=value`, when there is a value.
pub open spec fn opt_param_spec(name: Seq<char>, value: Option<Seq<char>>) -> Seq<char> {
    match value {
        Some(v) => "&"@ + name + "="@ + v,
        None => Seq::empty(),
    }
}

pub open spec fn opt_list_param_spec(name: Seq<char>, values: Option<Vec<String>>) -> Seq<char> {
    match values {
        Some(v) => list_param_spec(name, v@),
        None => Seq::empty(),
    }
}

fn opt_param(name: &str, value: &Option<String>) -> (r: String)
    ensures
        r@ == opt_param_spec(name@, opt_view(*value)),
{
    match value {
        Some(v) => {
            let mut r = String::from_str("&");
            r.append(name);
            r.append("=");
            r.append(v.as_str());
            r
        },
        None => String::new(),
    }
}

fn opt_list_param(name: &str, values: &Option<Vec<String>>) -> (r: String)
    ensures
        r@ == opt_list_param_spec(name@, *values),
{
    match values {
        Some(v) => list_param(name, v),
        None => String::new(),
    }
}

pub open spec fn digit(d: int) -> char {
    seq!['0', '1', '2', '3', '4', '5', '6', '7', '8', '9'][d]
}

/// The decimal digits of `n`.
pub open spec fn digits(n: nat) -> Seq<char>
    decreases n,
{
    if n < 10 {
        seq![digit(n as int)]
    } else {
        digits(n / 10).push(digit((n % 10) as int))
    }
}

/// `n` in decimal, with a leading `-` when negative.
pub open spec fn decimal_spec(n: int) -> Seq<char> {
    if n < 0 {
        seq!['-'] + digits((-n) as nat)
    } else {
        digits(n as nat)
    }
}

/// Relies on `i64`'s `Display`: the number in decimal, `-` first when negative.
#[verifier::external_body]
fn decimal(n: i64) -> (r: String)
    ensures
        r@ == decimal_spec(n as int),
{
    n.to_string()
}

/// The stream listing's URL for the given filters, each one left out when `None`.
pub open spec fn streams_url_spec(
    user_ids: Option<Vec<String>>,
    user_logins: Option<Vec<String>>,
    game_ids: Option<Vec<String>>,
    kind: Option<String>,
    languages: Option<Vec<String>>,
    first: Option<i64>,
    before: Option<String>,
    after: Option<String>,
) -> Seq<char> {
    "https://api.twitch.tv/helix/streams?"@ + opt_list_param_spec("user_id"@, user_ids) + opt_list_param_spec(
        "user_login"@,
        user_logins,
    ) + opt_list_param_spec("game_id"@, game_ids) + opt_param_spec("type"@, opt_view(kind)) + opt_list_param_spec(
        "language"@,
        languages,
    ) + opt_param_spec(
        "first"@,
        match first {
            Some(n) => Some(decimal_spec(n as int)),
            None => None,
        },
    ) + opt_param_spec("before"@, opt_view(before)) + opt_param_spec("after"@, opt_view(after))
}

/// The stream listing's URL for the given filters.
pub fn streams_url(
    user_ids: &Option<Vec<String>>,
    user_logins: &Option<Vec<String>>,
    game_ids: &Option<Vec<String>>,
    kind: &Option<String>,
    languages: &Option<Vec<String>>,
    first: Option<i64>,
    before: &Option<String>,
    after: &Option<String>,
) -> (r: String)
    ensures
        r@ == streams_url_spec(*user_ids, *user_logins, *game_ids, *kind, *languages, first, *before, *after),
{
    let mut r = String::from_str("https://api.twitch.tv/helix/streams?");
    r.append(opt_list_param("user_id", user_ids).as_str());
    r.append(opt_list_param("user_login", user_logins).as_str());
    r.append(opt_list_param("game_id", game_ids).as_str());
    r.append(opt_param("type", kind).as_str());
    r.append(opt_list_param("language", languages).as_str());
    let first_text = match first {
        Some(n) => Some(decimal(n)),
        None => None,
    };
    r.append(opt_param("first", &first_text).as_str());
    r.append(opt_param("before", before).as_str());
    r.append(opt_param("after", after).as_str());
    proof {
        assert(r@ =~= streams_url_spec(*user_ids, *user_logins, *game_ids, *kind, *languages, first, *before, *after));
    }
    r
}

/// The URL that lists the stream of `broadcaster_id`, if it is live.
pub fn stream_url(broadcaster_id: &String) -> (r: String)
    ensures
        r@ == "https://api.twitch.tv/helix/streams?"@ + "&"@ + "user_id"@ + "="@ + broadcaster_id@,
{
    let ids = vec![broadcaster_id.clone()];
    let r = streams_url(&Some(ids), &None, &None, &None, &None, None, &None, &None);
    proof {
        assert(views(ids@).drop_last().len() == 0);
        assert(join_spec(views(ids@), "&"@ + "user_id"@ + "="@) == broadcaster_id@);
        assert(r@ =~= "https://api.twitch.tv/helix/streams?"@ + "&"@ + "user_id"@ + "="@ + broadcaster_id@);
    }
    r
}

/// The custom-rewards endpoint of `broadcaster_id`.
pub fn custom_rewards_url(broadcaster_id: &String) -> (r: String)
    ensures
        r@ == "https://api.twitch.tv/helix/channel_points/custom_rewards?broadcaster_id="@ + broadcaster_id@,
{
        let mut r = String::from_str("https://api.twitch.tv/helix/channel_points/custom_rewards?broadcaster_id=");
        r.append(broadcaster_id.as_str());
    r
}

/// One custom reward of `broadcaster_id`.
pub fn custom_reward_url(broadcaster_id: &String, id: &String) -> (r: String)
    ensures
        r@ == "https://api.twitch.tv/helix/channel_points/custom_rewards?broadcaster_id="@ + broadcaster_id@ + "&id="@ + id@,
{
        let mut r = String::from_str("https://api.twitch.tv/helix/channel_points/custom_rewards?broadcaster_id=");
        r.append(broadcaster_id.as_str());
        r.append("&id=");
        r.append(id.as_str());
    r
}

/// One event subscription.
pub fn eventsub_subscription_url(id: &String) -> (r: String)
    ensures
        r@ == "https://api.twitch.tv/helix/eventsub/subscriptions?id="@ + id@,
{
        let mut r = String::from_str("https://api.twitch.tv/helix/eventsub/subscriptions?id=");
        r.append(id.as_str());
    r
}

/// A moderator of `broadcaster_id`.
pub fn moderator_url(broadcaster_id: &String, user_id: &String) -> (r: String)
    ensures
        r@ == "https://api.twitch.tv/helix/moderation/moderators?broadcaster_id="@ + broadcaster_id@ + "&user_id="@ + user_id@,
{
        let mut r = String::from_str("https://api.twitch.tv/helix/moderation/moderators?broadcaster_id=");
        r.append(broadcaster_id.as_str());
        r.append("&user_id=");
        r.append(user_id.as_str());
    r
}

/// The bans of `broadcaster_id`, as moderated by `moderator_id`.
pub fn bans_url(moderator_id: &String, broadcaster_id: &String) -> (r: String)
    ensures
        r@ == "https://api.twitch.tv/helix/moderation/bans?moderator_id="@ + moderator_id@ + "&broadcaster_id="@ + broadcaster_id@,
{
        let mut r = String::from_str("https://api.twitch.tv/helix/moderation/bans?moderator_id=");
        r.append(moderator_id.as_str());
        r.append("&broadcaster_id=");
        r.append(broadcaster_id.as_str());
    r
}

/// The ban of `user_id` on `broadcaster_id`, as moderated by `moderator_id`.
pub fn ban_url(moderator_id: &String, broadcaster_id: &String, user_id: &String) -> (r: String)
    ensures
        r@ == "https://api.twitch.tv/helix/moderation/bans?moderator_id="@ + moderator_id@ + "&broadcaster_id="@ + broadcaster_id@ + "&user_id="@ + user_id@,
{
        let mut r = String::from_str("https://api.twitch.tv/helix/moderation/bans?moderator_id=");
        r.append(moderator_id.as_str());
        r.append("&broadcaster_id=");
        r.append(broadcaster_id.as_str());
        r.append("&user_id=");
        r.append(user_id.as_str());
    r
}

/// A shoutout from one broadcaster to another.
pub fn shoutout_url(from_broadcaster_id: &String, to_broadcaster_id: &String, moderator_id: &String) -> (r: String)
    ensures
        r@ == "https://api.twitch.tv/helix/chat/shoutouts?from_broadcaster_id="@ + from_broadcaster_id@ + "&to_broadcaster_id="@ + to_broadcaster_id@ + "&moderator_id="@ + moderator_id@,
{
        let mut r = String::from_str("https://api.twitch.tv/helix/chat/shoutouts?from_broadcaster_id=");
        r.append(from_broadcaster_id.as_str());
        r.append("&to_broadcaster_id=");
        r.append(to_broadcaster_id.as_str());
        r.append("&moderator_id=");
        r.append(moderator_id.as_str());
    r
}

/// A whisper from one user to another.
pub fn whisper_url(from_user_id: &String, to_user_id: &String) -> (r: String)
    ensures
        r@ == "https://api.twitch.tv/helix/whispers?from_user_id="@ + from_user_id@ + "&to_user_id="@ + to_user_id@,
{
        let mut r = String::from_str("https://api.twitch.tv/helix/whispers?from_user_id=");
        r.append(from_user_id.as_str());
        r.append("&to_user_id=");
        r.append(to_user_id.as_str());
    r
}

/// A chat announcement in `broadcaster_id`'s chat.
pub fn announcement_url(broadcaster_id: &String, moderator_id: &String) -> (r: String)
    ensures
        r@ == "https://api.twitch.tv/helix/chat/announcements?broadcaster_id="@ + broadcaster_id@ + "&moderator_id="@ + moderator_id@,
{
        let mut r = String::from_str("https://api.twitch.tv/helix/chat/announcements?broadcaster_id=");
        r.append(broadcaster_id.as_str());
        r.append("&moderator_id=");
        r.append(moderator_id.as_str());
    r
}

/// A VIP of `broadcaster_id`.
pub fn vip_url(broadcaster_id: &String, user_id: &String) -> (r: String)
    ensures
        r@ == "https://api.twitch.tv/helix/channels/vips?broadcaster_id="@ + broadcaster_id@ + "&user_id="@ + user_id@,
{
        let mut r = String::from_str("https://api.twitch.tv/helix/channels/vips?broadcaster_id=");
        r.append(broadcaster_id.as_str());
        r.append("&user_id=");
        r.append(user_id.as_str());
    r
}

/// The followers of `broadcaster_id`.
pub fn followers_url(broadcaster_id: &String) -> (r: String)
    ensures
        r@ == "https://api.twitch.tv/helix/channels/followers?broadcaster_id="@ + broadcaster_id@,
{
        let mut r = String::from_str("https://api.twitch.tv/helix/channels/followers?broadcaster_id=");
        r.append(broadcaster_id.as_str());
    r
}

/// Users by id.
pub fn users_by_ids_url(user_ids: &Vec<String>) -> (r: String)
    ensures
        r@ == "https://api.twitch.tv/helix/users?id="@ + join_spec(views(user_ids@), "&id="@),
{
    let mut r = String::from_str("https://api.twitch.tv/helix/users?id=");
    r.append(join(user_ids, "&id=").as_str());
    r
}

/// Users by login.
pub fn users_by_logins_url(user_logins: &Vec<String>) -> (r: String)
    ensures
        r@ == "https://api.twitch.tv/helix/users?login="@ + join_spec(views(user_logins@), "&login="@),
{
    let mut r = String::from_str("https://api.twitch.tv/helix/users?login=");
    r.append(join(user_logins, "&login=").as_str());
    r
}

/// The custom rewards of `broadcaster_id`: those of `ids`, or all when `ids` is empty.
pub fn custom_rewards_list_url(broadcaster_id: &String, ids: &Vec<String>) -> (r: String)
    ensures
        r@ == "https://api.twitch.tv/helix/channel_points/custom_rewards?broadcaster_id="@ + broadcaster_id@ + if ids@.len()
            > 0 {
            "&id="@ + join_spec(views(ids@), "&id="@)
        } else {
            Seq::empty()
        },
{
    let mut r = custom_rewards_url(broadcaster_id);
    if ids.len() > 0 {
        r.append("&id=");
        r.append(join(ids, "&id=").as_str());
    }
    proof {
        assert(r@ =~= "https://api.twitch.tv/helix/channel_points/custom_rewards?broadcaster_id="@ + broadcaster_id@ + if ids@.len()
            > 0 {
            "&id="@ + join_spec(views(ids@), "&id="@)
        } else {
            Seq::empty()
        });
    }
    r
}

/// Redemptions of reward `reward_id` of `broadcaster_id`.
pub fn redemptions_url(broadcaster_id: &String, reward_id: &String, redemptions: &Vec<String>) -> (r: String)
    ensures
        r@ == "https://api.twitch.tv/helix/channel_points/custom_rewards/redemptions?broadcaster_id="@ + broadcaster_id@
            + "&reward_id="@ + reward_id@ + "&id="@ + join_spec(views(redemptions@), "&id="@),
{
    let mut r = String::from_str("https://api.twitch.tv/helix/channel_points/custom_rewards/redemptions?broadcaster_id=");
    r.append(broadcaster_id.as_str());
    r.append("&reward_id=");
    r.append(reward_id.as_str());
    r.append("&id=");
    r.append(join(redemptions, "&id=").as_str());
    r
}

/// The settings of the channels of `broadcaster_ids`.
pub fn channels_url(broadcaster_ids: &Vec<String>) -> (r: String)
    ensures
        r@ == "https://api.twitch.tv/helix/channels?"@ + if broadcaster_ids@.len() > 0 {
            "broadcaster_id="@ + join_spec(views(broadcaster_ids@), "&broadcaster_id="@)
        } else {
            Seq::empty()
        },
{
    let mut r = String::from_str("https://api.twitch.tv/helix/channels?");
    if broadcaster_ids.len() > 0 {
        r.append("broadcaster_id=");
        r.append(join(broadcaster_ids, "&broadcaster_id=").as_str());
    }
    proof {
        assert(r@ =~= "https://api.twitch.tv/helix/channels?"@ + if broadcaster_ids@.len() > 0 {
            "broadcaster_id="@ + join_spec(views(broadcaster_ids@), "&broadcaster_id="@)
        } else {
            Seq::empty()
        });
    }
    r
}

/// The predictions of `broadcaster_id`, filtered and paged.
pub fn predictions_url(broadcaster_id: &String, id: &Option<String>, first: &Option<String>, after: &Option<String>) -> (r: String)
    ensures
        r@ == "https://api.twitch.tv/helix/predictions?broadcaster_id="@ + broadcaster_id@ + opt_param_spec("id"@, opt_view(*id))
            + opt_param_spec("first"@, opt_view(*first)) + opt_param_spec("after"@, opt_view(*after)),
{
    let mut r = String::from_str("https://api.twitch.tv/helix/predictions?broadcaster_id=");
    r.append(broadcaster_id.as_str());
    r.append(opt_param("id", id).as_str());
    r.append(opt_param("first", first).as_str());
    r.append(opt_param("after", after).as_str());
    r
}

/// The filter of a video listing.
pub open spec fn video_filter_spec(id: VideoId) -> Seq<char> {
    match id {
        VideoId::Id(v) => "id="@ + v@,
        VideoId::UserId(v) => "user_id="@ + v@,
        VideoId::GameId(v) => "game_id="@ + v@,
    }
}

/// The video listing's URL for filter `id` and the given options.
pub fn videos_url(
    id: &VideoId,
    language: &Option<String>,
    period: &Option<String>,
    sort: &Option<String>,
    kind: &Option<String>,
    first: &Option<String>,
    after: &Option<String>,
    before: &Option<String>,
) -> (r: String)
    ensures
        r@ == "https://api.twitch.tv/helix/videos?"@ + video_filter_spec(*id) + opt_param_spec("language"@, opt_view(*language))
            + opt_param_spec("period"@, opt_view(*period)) + opt_param_spec("sort"@, opt_view(*sort)) + opt_param_spec(
            "type"@,
            opt_view(*kind),
        ) + opt_param_spec("first"@, opt_view(*first)) + opt_param_spec("after"@, opt_view(*after)) + opt_param_spec(
            "before"@,
            opt_view(*before),
        ),
{
    let mut r = String::from_str("https://api.twitch.tv/helix/videos?");
    match id {
        VideoId::Id(v) => {
            r.append("id=");
            r.append(v.as_str());
        },
        VideoId::UserId(v) => {
            r.append("user_id=");
            r.append(v.as_str());
        },
        VideoId::GameId(v) => {
            r.append("game_id=");
            r.append(v.as_str());
        },
    }
    r.append(opt_param("language", language).as_str());
    r.append(opt_param("period", period).as_str());
    r.append(opt_param("sort", sort).as_str());
    r.append(opt_param("type", kind).as_str());
    r.append(opt_param("first", first).as_str());
    r.append(opt_param("after", after).as_str());
    r.append(opt_param("before", before).as_str());
    proof {
        assert(r@ =~= "https://api.twitch.tv/helix/videos?"@ + video_filter_spec(*id) + opt_param_spec("language"@, opt_view(*language))
            + opt_param_spec("period"@, opt_view(*period)) + opt_param_spec("sort"@, opt_view(*sort)) + opt_param_spec(
            "type"@,
            opt_view(*kind),
        ) + opt_param_spec("first"@, opt_view(*first)) + opt_param_spec("after"@, opt_view(*after)) + opt_param_spec(
            "before"@,
            opt_view(*before),
        ));
    }
    r
}

} // verus!
