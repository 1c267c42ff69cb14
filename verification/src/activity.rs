//! The data model of the presence record and of the raw engine snapshots.

use vstd::prelude::*;

verus! {

/// Tag describing what the player is currently doing, as reported by the
/// engine on every state callback. The tag drives the lookup table of the
/// reducer, so adding a state means adding one table entry there.
#[derive(Clone, Copy, PartialEq, Eq, Structural, Debug)]
pub enum GameState {
    Loading,
    InMenu,
    InLobby,
    InMatch,
}

/// Raw game-side snapshot handed over by the engine callback: the state tag
/// plus the auxiliary fields the presence record is computed from.
#[derive(Debug)]
pub struct GameStateStruct {
    pub state: GameState,
    pub map: String,
    pub playlist: String,
    pub players: u32,
    pub max_players: u32,
}

/// Raw UI-side snapshot: which menu screen is open and whether the party
/// widget is currently visible (party sizes are only advertised while it is).
#[derive(Debug)]
pub struct UIPresenceStruct {
    pub menu_screen: String,
    pub party_visible: bool,
}

/// Session capabilities embedded in the presence payload: an identifier for
/// the running match and optional join/spectate tokens other players can
/// activate.
#[derive(Debug)]
pub struct Secrets {
    pub match_secret: String,
    pub join: Option<String>,
    pub spectate: Option<String>,
}

/// The canonical presence record: everything the client pushes to Discord,
/// plus the `last_state` bookkeeping tag used to detect state entry.
#[derive(Debug)]
pub struct ActivityData {
    pub party: Option<(u32, u32)>,
    pub details: String,
    pub state: String,
    pub large_image: Option<String>,
    pub large_text: Option<String>,
    pub small_image: Option<String>,
    pub small_text: Option<String>,
    pub end: Option<i64>,
    pub start: Option<i64>,
    pub last_state: GameState,
    pub secrets: Secrets,
}

/// Two optional strings carry the same text.
pub open spec fn opt_str_equiv(a: Option<String>, b: Option<String>) -> bool {
    match (a, b) {
        (Option::None, Option::None) => true,
        (Option::Some(x), Option::Some(y)) => x@ == y@,
        _ => false,
    }
}

/// Two secret records carry the same tokens.
pub open spec fn secrets_equiv(a: Secrets, b: Secrets) -> bool {
    &&& a.match_secret@ == b.match_secret@
    &&& opt_str_equiv(a.join, b.join)
    &&& opt_str_equiv(a.spectate, b.spectate)
}

/// Wire-level equality: the two records would produce the very same activity
/// payload. The `last_state` tag is bookkeeping and not part of the payload.
pub open spec fn same_wire(a: ActivityData, b: ActivityData) -> bool {
    &&& a.party == b.party
    &&& a.details@ == b.details@
    &&& a.state@ == b.state@
    &&& opt_str_equiv(a.large_image, b.large_image)
    &&& opt_str_equiv(a.large_text, b.large_text)
    &&& opt_str_equiv(a.small_image, b.small_image)
    &&& opt_str_equiv(a.small_text, b.small_text)
    &&& a.end == b.end
    &&& a.start == b.start
    &&& secrets_equiv(a.secrets, b.secrets)
}

/// Full content equality, bookkeeping tag included.
pub open spec fn activity_equiv(a: ActivityData, b: ActivityData) -> bool {
    same_wire(a, b) && a.last_state == b.last_state
}

/// Well-formedness of a presence record: an advertised party is never empty
/// or over capacity, and timestamps, when both are present, are ordered.
pub open spec fn activity_wf(a: ActivityData) -> bool {
    &&& (a.party matches Some(p) ==> p.0 <= p.1 && p.1 > 0)
    &&& (a.start matches Some(s) ==> a.end matches Some(e) ==> s <= e)
}

/// Equality of two optional strings, decided at the character level.
pub fn opt_str_eq(a: &Option<String>, b: &Option<String>) -> (r: bool)
    ensures
        r == opt_str_equiv(*a, *b),
{
    match (a, b) {
        (Option::None, Option::None) => true,
        (Option::Some(x), Option::Some(y)) => *x == *y,
        _ => false,
    }
}

/// Copy of an optional string.
pub fn opt_str_clone(a: &Option<String>) -> (r: Option<String>)
    ensures
        opt_str_equiv(*a, r),
        r is Some <==> *a is Some,
{
    match a {
        Option::Some(x) => Option::Some(x.clone()),
        Option::None => Option::None,
    }
}

/// Equality of two secret records, decided at the character level.
pub fn secrets_eq(a: &Secrets, b: &Secrets) -> (r: bool)
    ensures
        r == secrets_equiv(*a, *b),
{
    let m = a.match_secret == b.match_secret;
    let j = opt_str_eq(&a.join, &b.join);
    let s = opt_str_eq(&a.spectate, &b.spectate);
    m && j && s
}

/// Wire-level equality of two presence records, decided field for field;
/// the `last_state` bookkeeping tag is ignored, as it is not pushed.
pub fn wire_eq(a: &ActivityData, b: &ActivityData) -> (r: bool)
    ensures
        r == same_wire(*a, *b),
{
    let party = match (a.party, b.party) {
        (Option::None, Option::None) => true,
        (Option::Some(x), Option::Some(y)) => x.0 == y.0 && x.1 == y.1,
        _ => false,
    };
    let end = match (a.end, b.end) {
        (Option::None, Option::None) => true,
        (Option::Some(x), Option::Some(y)) => x == y,
        _ => false,
    };
    let start = match (a.start, b.start) {
        (Option::None, Option::None) => true,
        (Option::Some(x), Option::Some(y)) => x == y,
        _ => false,
    };
    party && a.details == b.details && a.state == b.state && opt_str_eq(
        &a.large_image,
        &b.large_image,
    ) && opt_str_eq(&a.large_text, &b.large_text) && opt_str_eq(&a.small_image, &b.small_image)
        && opt_str_eq(&a.small_text, &b.small_text) && end && start && secrets_eq(
        &a.secrets,
        &b.secrets,
    )
}

impl GameStateStruct {
    /// The snapshot held before the engine has reported anything.
    pub fn empty() -> (r: GameStateStruct)
        ensures
            r.state == GameState::Loading,
            r.map@ == Seq::<char>::empty(),
            r.playlist@ == Seq::<char>::empty(),
            r.players == 0,
            r.max_players == 0,
    {
        GameStateStruct {
            state: GameState::Loading,
            map: String::new(),
            playlist: String::new(),
            players: 0,
            max_players: 0,
        }
    }
}

impl UIPresenceStruct {
    /// The UI snapshot held before the engine has reported anything.
    pub fn empty() -> (r: UIPresenceStruct)
        ensures
            r.menu_screen@ == Seq::<char>::empty(),
            r.party_visible == false,
    {
        UIPresenceStruct { menu_screen: String::new(), party_visible: false }
    }
}

impl Secrets {
    /// Empty secrets: no session identifier has been issued yet.
    pub fn empty() -> (r: Secrets)
        ensures
            r.match_secret@ == Seq::<char>::empty(),
            r.join is None,
            r.spectate is None,
    {
        Secrets { match_secret: String::new(), join: Option::None, spectate: Option::None }
    }

    /// Copy of a secret record.
    pub fn duplicate(&self) -> (r: Secrets)
        ensures
            secrets_equiv(*self, r),
            r.join is Some <==> self.join is Some,
            r.spectate is Some <==> self.spectate is Some,
    {
        Secrets {
            match_secret: self.match_secret.clone(),
            join: opt_str_clone(&self.join),
            spectate: opt_str_clone(&self.spectate),
        }
    }
}

impl ActivityData {
    /// The placeholder record shown from process start until the first real
    /// snapshot has been reduced.
    pub fn initial() -> (r: ActivityData)
        ensures
            r.state@ == "Loading..."@,
            r.details@ == Seq::<char>::empty(),
            r.party is None,
            r.large_image matches Some(i) && i@ == "northstar"@,
            r.large_text is None,
            r.small_image is None,
            r.small_text is None,
            r.start is None,
            r.end is None,
            r.last_state == GameState::Loading,
            r.secrets.match_secret@ == Seq::<char>::empty(),
            r.secrets.join is None,
            r.secrets.spectate is None,
            activity_wf(r),
    {
        ActivityData {
            party: Option::None,
            details: String::new(),
            state: "Loading...".to_owned(),
            large_image: Option::Some("northstar".to_owned()),
            large_text: Option::None,
            small_image: Option::None,
            small_text: Option::None,
            end: Option::None,
            start: Option::None,
            last_state: GameState::Loading,
            secrets: Secrets::empty(),
        }
    }

    /// Copy of the record, field for field.
    pub fn duplicate(&self) -> (r: ActivityData)
        ensures
            activity_equiv(*self, r),
            r.party == self.party,
            r.start == self.start,
            r.end == self.end,
            r.last_state == self.last_state,
    {
        ActivityData {
            party: self.party,
            details: self.details.clone(),
            state: self.state.clone(),
            large_image: opt_str_clone(&self.large_image),
            large_text: opt_str_clone(&self.large_text),
            small_image: opt_str_clone(&self.small_image),
            small_text: opt_str_clone(&self.small_text),
            end: self.end,
            start: self.start,
            last_state: self.last_state,
            secrets: self.secrets.duplicate(),
        }
    }
}

} // verus!
