//! The stream-state reconciler: turns typed notifications into debounced,
//! user-meaningful events, and the messages that announce them.

use vstd::prelude::*;
use vstd::string::StringExecFns;

use crate::eventsub::{ChannelUpdate, NotificationType};
use crate::helix::Stream;

verus! {

/// A `stream.online` counts as a new start only this many seconds after the last one.
pub const DEBOUNCE_SECS: i64 = 900;

/// What `str::trim` makes of a text.
pub uninterp spec fn trim_of(s: Seq<char>) -> Seq<char>;

/// What `str::to_lowercase` makes of a text.
pub uninterp spec fn lower_of(s: Seq<char>) -> Seq<char>;

/// Relies on `str::trim`: the text without leading and trailing whitespace.
#[verifier::external_body]
fn trim(s: &str) -> (r: &str)
    ensures
        r@ == trim_of(s@),
{
    s.trim()
}

/// Relies on `str::to_lowercase`: the lowercase equivalent of the text.
#[verifier::external_body]
fn to_lowercase(s: &str) -> (r: String)
    ensures
        r@ == lower_of(s@),
{
    s.to_lowercase()
}

/// Relies on chrono's `Utc::now`, read as whole seconds since the Unix epoch.
#[verifier::external_body]
fn unix_now() -> (r: i64) {
    chrono::Utc::now().timestamp()
}

/// Games compare case-insensitively, without surrounding whitespace.
pub open spec fn game_key(g: Seq<char>) -> Seq<char> {
    lower_of(trim_of(g))
}

/// The key by which a category name is compared.
pub fn category_key(s: &String) -> (r: String)
    ensures
        r@ == game_key(s@),
{
    to_lowercase(trim(s.as_str()))
}

/// The last known state of the stream.
pub struct State {
    pub title: String,
    pub game: String,
    /// When the last stream start was announced, in seconds since the Unix epoch.
    pub last_transition_at: Option<i64>,
}

/// A change worth announcing.
pub enum StreamEvent {
    GameChanged { old: String, new: String, title: String },
    StreamStarted { title: String, game: String },
}

/// What the reconciler asks after a notification.
pub enum Reconciled {
    Nothing,
    Notify(StreamEvent),
    /// Fetch the stream's title and game, then call `on_stream_info`.
    FetchStreamInfo,
}

/// A `stream.online` at `now` is a new start: nothing is known of the stream,
/// no start was announced yet, or the last one was more than the debounce
/// window ago.
pub open spec fn online_is_new(state: Option<State>, now: i64) -> bool {
    match state {
        None => true,
        Some(s) => match s.last_transition_at {
            None => true,
            Some(t) => now - t > DEBOUNCE_SECS,
        },
    }
}

/// A channel update `u` takes state `s` to `t`, emitting `ev`, where
/// `changed` says whether the category differs from the known game.
pub open spec fn channel_update_spec(
    s: Option<State>,
    u: ChannelUpdate,
    changed: bool,
    t: Option<State>,
    ev: Option<StreamEvent>,
) -> bool {
    &&& t matches Some(ts) && ts.title@ == u.title@ && ts.game@ == u.category_name@
        && ts.last_transition_at == last_start(s)
    &&& match (s, changed) {
        (Some(ss), true) => ev matches Some(StreamEvent::GameChanged { old, new, title }) && old@ == ss.game@
            && new@ == u.category_name@ && title@ == u.title@,
        _ => ev is None,
    }
}

/// When the last start known in `s` was announced.
pub open spec fn last_start(s: Option<State>) -> Option<i64> {
    match s {
        Some(ss) => ss.last_transition_at,
        None => None,
    }
}

/// Whether the category of `u` differs from the game known in `s`.
pub open spec fn game_differs(s: Option<State>, u: ChannelUpdate) -> bool {
    match s {
        Some(ss) => game_key(ss.game@) != game_key(u.category_name@),
        None => false,
    }
}

pub struct Reconciler {
    pub state: Option<State>,
}

impl Reconciler {
    pub fn new(state: Option<State>) -> (r: Reconciler)
        ensures
            r.state == state,
    {
        Reconciler { state }
    }

    /// The state of a stream observed live at `now`.
    pub fn observed_live(stream: Stream, now: i64) -> (r: State)
        ensures
            r.title == stream.title,
            r.game == stream.game_name,
            r.last_transition_at == Some(now),
    {
        State { title: stream.title, game: stream.game_name, last_transition_at: Some(now) }
    }

    /// Applies a channel update whose category key is `new_key`, against
    /// `old_key`, the key of the known game: the state takes the new title and
    /// category whatever the outcome; a game change is announced when a state
    /// was known and the keys differ.
    pub fn apply_channel_update_keyed(&mut self, u: ChannelUpdate, old_key: &String, new_key: &String) -> (ev: Option<StreamEvent>)
        ensures
            channel_update_spec(old(self).state, u, old_key@ != new_key@, final(self).state, ev),
    {
        let changed = !(*old_key == *new_key);
        let last = match &self.state {
            Some(s) => s.last_transition_at,
            None => None,
        };
        let ev = match &self.state {
            Some(s) => if changed {
                Some(StreamEvent::GameChanged {
                    old: s.game.clone(),
                    new: u.category_name.clone(),
                    title: u.title.clone(),
                })
            } else {
                None
            },
            None => None,
        };
        self.state = Some(State { title: u.title, game: u.category_name, last_transition_at: last });
        ev
    }

    /// Applies a channel update, comparing games case-insensitively and
    /// without surrounding whitespace.
    pub fn apply_channel_update(&mut self, u: ChannelUpdate) -> (ev: Option<StreamEvent>)
        ensures
            channel_update_spec(old(self).state, u, game_differs(old(self).state, u), final(self).state, ev),
    {
        let new_key = category_key(&u.category_name);
        let old_key = match &self.state {
            Some(s) => category_key(&s.game),
            None => new_key.clone(),
        };
        self.apply_channel_update_keyed(u, &old_key, &new_key)
    }

    /// Applies a notification received at `now`. A `stream.online` that is a
    /// new start asks for the stream's details afresh rather than trusting the
    /// known state. Going offline is not announced, and redemptions are not
    /// acted on: both leave the state as it is, and their arms below are where
    /// handling would go.
    pub fn apply(&mut self, n: NotificationType, now: i64) -> (r: Reconciled)
        ensures
            match n {
                NotificationType::ChannelUpdate(u) => exists|ev: Option<StreamEvent>|
                    channel_update_spec(old(self).state, u, game_differs(old(self).state, u), final(self).state, ev)
                    && #[trigger] reconciled_from(ev) == r,
                NotificationType::StreamOnline(_) => final(self).state == old(self).state
                    && if online_is_new(old(self).state, now) { r is FetchStreamInfo } else { r is Nothing },
                _ => final(self).state == old(self).state && r is Nothing,
            },
    {
        match n {
            NotificationType::ChannelUpdate(u) => {
                let ev = self.apply_channel_update(u);
                let ghost announced = ev;
                let r = match ev {
                    Some(e) => Reconciled::Notify(e),
                    None => Reconciled::Nothing,
                };
                assert(reconciled_from(announced) == r);
                r
            },
            NotificationType::StreamOnline(_) => {
                let fresh = match &self.state {
                    None => true,
                    Some(s) => match s.last_transition_at {
                        None => true,
                        Some(t) => (now as i128) - (t as i128) > DEBOUNCE_SECS as i128,
                    },
                };
                if fresh {
                    Reconciled::FetchStreamInfo
                } else {
                    Reconciled::Nothing
                }
            },
            NotificationType::StreamOffline(_) => Reconciled::Nothing,
            NotificationType::CustomRewardRedemptionAdd(_) => Reconciled::Nothing,
        }
    }

    /// Applies a notification at the current time, which it returns beside the outcome.
    pub fn apply_now(&mut self, n: NotificationType) -> (r: (Reconciled, i64))
        ensures
            match n {
                NotificationType::StreamOnline(_) => final(self).state == old(self).state
                    && if online_is_new(old(self).state, r.1) { r.0 is FetchStreamInfo } else { r.0 is Nothing },
                NotificationType::ChannelUpdate(u) => exists|ev: Option<StreamEvent>|
                    channel_update_spec(old(self).state, u, game_differs(old(self).state, u), final(self).state, ev)
                    && #[trigger] reconciled_from(ev) == r.0,
                _ => final(self).state == old(self).state && r.0 is Nothing,
            },
    {
        let now = unix_now();
        let out = self.apply(n, now);
        (out, now)
    }

    /// Takes the stream's details fetched after a new start at `now`: the
    /// start is announced and recorded. When they could not be fetched,
    /// nothing changes.
    pub fn on_stream_info(&mut self, info: Option<Stream>, now: i64) -> (ev: Option<StreamEvent>)
        ensures
            match info {
                Some(s) => {
                    &&& final(self).state matches Some(st) && st.title == s.title && st.game == s.game_name
                        && st.last_transition_at == Some(now)
                    &&& ev matches Some(StreamEvent::StreamStarted { title, game }) && title@ == s.title@
                        && game@ == s.game_name@
                },
                None => final(self).state == old(self).state && ev is None,
            },
    {
        match info {
            Some(s) => {
                let title = s.title.clone();
                let game = s.game_name.clone();
                self.state = Some(Reconciler::observed_live(s, now));
                Some(StreamEvent::StreamStarted { title, game })
            },
            None => None,
        }
    }
}

/// The outcome that announces `ev`, if any.
pub open spec fn reconciled_from(ev: Option<StreamEvent>) -> Reconciled {
    match ev {
        Some(e) => Reconciled::Notify(e),
        None => Reconciled::Nothing,
    }
}

/// Applying the same channel update twice in a row never announces a second
/// game change.
pub proof fn lemma_channel_update_idempotent(
    s0: Option<State>,
    u1: ChannelUpdate,
    s1: Option<State>,
    e1: Option<StreamEvent>,
    u2: ChannelUpdate,
    s2: Option<State>,
    e2: Option<StreamEvent>,
)
    requires
        channel_update_spec(s0, u1, game_differs(s0, u1), s1, e1),
        channel_update_spec(s1, u2, game_differs(s1, u2), s2, e2),
        u2.category_name@ == u1.category_name@,
    ensures
        e2 is None,
{
}

/// The announcement of a game change.
pub fn game_change_message(title: &String, new_game: &String) -> (r: String)
    ensures
        r@ == "HafMC сменил игру на "@ + new_game@ + " ("@ + title@ + ")! \nПрисоединяйся: https://twitch.tv/hafmc"@,
{
    let mut r = String::from_str("HafMC сменил игру на ");
    r.append(new_game.as_str());
    r.append(" (");
    r.append(title.as_str());
    r.append(")! \nПрисоединяйся: https://twitch.tv/hafmc");
    r
}

/// The announcement of a stream start.
pub fn stream_online_message(title: &String, game: &String) -> (r: String)
    ensures
        r@ == "HafMC сейчас стримит "@ + title@ + " ("@ + game@ + ")! \nПрисоединяйся: https://twitch.tv/hafmc"@,
{
    let mut r = String::from_str("HafMC сейчас стримит ");
    r.append(title.as_str());
    r.append(" (");
    r.append(game.as_str());
    r.append(")! \nПрисоединяйся: https://twitch.tv/hafmc");
    r
}

impl StreamEvent {
    /// The announcement of this event.
    pub fn message(&self) -> (r: String)
        ensures
            match self {
                StreamEvent::GameChanged { old: _, new, title } => r@ == "HafMC сменил игру на "@ + new@ + " ("@
                    + title@ + ")! \nПрисоединяйся: https://twitch.tv/hafmc"@,
                StreamEvent::StreamStarted { title, game } => r@ == "HafMC сейчас стримит "@ + title@ + " ("@ + game@
                    + ")! \nПрисоединяйся: https://twitch.tv/hafmc"@,
            },
    {
        match self {
            StreamEvent::GameChanged { old: _, new, title } => game_change_message(title, new),
            StreamEvent::StreamStarted { title, game } => stream_online_message(title, game),
        }
    }
}

} // verus!
