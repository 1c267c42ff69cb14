//! The presence reducer: the pure transformation from an engine snapshot and
//! the previous presence record to the next one, with change detection.

use crate::activity::ActivityData;
use crate::activity::GameState;
use crate::activity::GameStateStruct;
use crate::activity::UIPresenceStruct;
use crate::activity::activity_equiv;
use crate::activity::activity_wf;
use crate::activity::opt_str_equiv;
use crate::activity::same_wire;
use crate::activity::secrets_equiv;
use vstd::prelude::*;
use vstd::string::StringExecFns;

verus! {

/// States in which other players may join, so a party is advertised.
pub open spec fn joinable_state(s: GameState) -> bool {
    s == GameState::InLobby || s == GameState::InMatch
}

/// Executable form of `joinable_state`.
pub fn is_joinable(s: GameState) -> (r: bool)
    ensures
        r == joinable_state(s),
{
    match s {
        GameState::InLobby => true,
        GameState::InMatch => true,
        _ => false,
    }
}

/// The `details` line of the reduced record: what the player is doing within
/// the current state.
pub open spec fn details_view(g: GameStateStruct, u: UIPresenceStruct) -> Seq<char> {
    match g.state {
        GameState::Loading => Seq::<char>::empty(),
        GameState::InMenu => u.menu_screen@,
        GameState::InLobby => "In the Lobby"@,
        GameState::InMatch => "Playing "@ + g.playlist@,
    }
}

/// The `state` line of the reduced record: the fixed lookup table over the
/// game-state tag.
pub open spec fn state_view(g: GameStateStruct) -> Seq<char> {
    match g.state {
        GameState::Loading => "Loading..."@,
        GameState::InMenu => "In Menu"@,
        GameState::InLobby => "Lobby"@,
        GameState::InMatch => "On "@ + g.map@,
    }
}

/// The large image asset key: the map's own asset while in a match, the
/// default asset everywhere else.
pub open spec fn large_image_view(g: GameStateStruct) -> Option<Seq<char>> {
    match g.state {
        GameState::InMatch => Option::Some(g.map@),
        _ => Option::Some("northstar"@),
    }
}

/// The hover text of the large image: the map name while in a match.
pub open spec fn large_text_view(g: GameStateStruct) -> Option<Seq<char>> {
    match g.state {
        GameState::InMatch => Option::Some(g.map@),
        _ => Option::None,
    }
}

/// The advertised party sizes: only in a joinable state, and never empty or
/// over capacity. The UI's party visibility gates the advertisement — this
/// is the chosen reading of the UI snapshot: a hidden party widget means the
/// lobby is not advertising seats, so no sizes are published; while it is
/// shown, the sizes come from the game snapshot alone.
pub open spec fn party_view(g: GameStateStruct, u: UIPresenceStruct) -> Option<(u32, u32)> {
    if joinable_state(g.state) && u.party_visible && g.max_players > 0 {
        Option::Some(
            (
                if g.players > g.max_players {
                    g.max_players
                } else {
                    g.players
                },
                g.max_players,
            ),
        )
    } else {
        Option::None
    }
}

/// The start timestamp: set to the current tick time on first entering a
/// state, kept from the previous record while the state is unchanged.
pub open spec fn start_view(g: GameStateStruct, prev: ActivityData, now: i64) -> Option<i64> {
    if g.state == prev.last_state {
        prev.start
    } else {
        Option::Some(now)
    }
}

/// An optional string holds exactly this optional text.
pub open spec fn opt_str_is(o: Option<String>, v: Option<Seq<char>>) -> bool {
    match (o, v) {
        (Option::None, Option::None) => true,
        (Option::Some(s), Option::Some(w)) => s@ == w,
        _ => false,
    }
}

/// Every field of the result other than the secrets is pinned, at the
/// character level, by the snapshot, the previous record and the tick time;
/// `end` is never set, since no state in the table defines a countdown.
pub open spec fn reduced_fields(
    g: GameStateStruct,
    u: UIPresenceStruct,
    prev: ActivityData,
    now: i64,
    r: ActivityData,
) -> bool {
    &&& r.details@ == details_view(g, u)
    &&& r.state@ == state_view(g)
    &&& r.party == party_view(g, u)
    &&& opt_str_is(r.large_image, large_image_view(g))
    &&& opt_str_is(r.large_text, large_text_view(g))
    &&& r.small_image is None
    &&& r.small_text is None
    &&& r.end is None
    &&& r.start == start_view(g, prev, now)
    &&& r.last_state == g.state
}

/// Full functional description of the reduction: `reduced_fields` for
/// everything the snapshot determines, with the secrets carried over from
/// the previous record unchanged.
pub open spec fn reduce_rel(
    g: GameStateStruct,
    u: UIPresenceStruct,
    prev: ActivityData,
    now: i64,
    r: ActivityData,
) -> bool {
    &&& reduced_fields(g, u, prev, now, r)
    &&& secrets_equiv(r.secrets, prev.secrets)
}

/// The reduction itself: a pure function of its three inputs, described
/// field for field by `reduce_rel`.
pub fn reduce(
    g: &GameStateStruct,
    u: &UIPresenceStruct,
    prev: &ActivityData,
    now: i64,
) -> (r: ActivityData)
    ensures
        reduce_rel(*g, *u, *prev, now, r),
        activity_wf(r),
{
    let details = match g.state {
        GameState::Loading => String::new(),
        GameState::InMenu => u.menu_screen.clone(),
        GameState::InLobby => "In the Lobby".to_owned(),
        GameState::InMatch => "Playing ".to_owned().concat(g.playlist.as_str()),
    };
    let state = match g.state {
        GameState::Loading => "Loading...".to_owned(),
        GameState::InMenu => "In Menu".to_owned(),
        GameState::InLobby => "Lobby".to_owned(),
        GameState::InMatch => "On ".to_owned().concat(g.map.as_str()),
    };
    let large_image = match g.state {
        GameState::InMatch => Option::Some(g.map.clone()),
        _ => Option::Some("northstar".to_owned()),
    };
    let large_text = match g.state {
        GameState::InMatch => Option::Some(g.map.clone()),
        _ => Option::None,
    };
    let party = if is_joinable(g.state) && u.party_visible && g.max_players > 0 {
        let cur = if g.players > g.max_players {
            g.max_players
        } else {
            g.players
        };
        Option::Some((cur, g.max_players))
    } else {
        Option::None
    };
    let start = if g.state == prev.last_state {
        prev.start
    } else {
        Option::Some(now)
    };
    ActivityData {
        party,
        details,
        state,
        large_image,
        large_text,
        small_image: Option::None,
        small_text: Option::None,
        end: Option::None,
        start,
        last_state: g.state,
        secrets: prev.secrets.duplicate(),
    }
}

/// The reduced record is wire-equal to a given record exactly when pushing
/// it would repeat that record's payload; phrased over the previous record
/// directly so that change detection can be stated without naming the fresh
/// record.
pub open spec fn reduction_matches(
    g: GameStateStruct,
    u: UIPresenceStruct,
    now: i64,
    prev: ActivityData,
) -> bool {
    &&& prev.details@ == details_view(g, u)
    &&& prev.state@ == state_view(g)
    &&& prev.party == party_view(g, u)
    &&& opt_str_is(prev.large_image, large_image_view(g))
    &&& opt_str_is(prev.large_text, large_text_view(g))
    &&& prev.small_image is None
    &&& prev.small_text is None
    &&& prev.end is None
    &&& prev.start == start_view(g, prev, now)
}

/// A fresh reduction is wire-equal to the record it was reduced over exactly
/// when `reduction_matches` holds of that record.
pub proof fn lemma_reduction_matches_iff(
    g: GameStateStruct,
    u: UIPresenceStruct,
    prev: ActivityData,
    now: i64,
    r: ActivityData,
)
    requires
        reduce_rel(g, u, prev, now, r),
    ensures
        same_wire(r, prev) == reduction_matches(g, u, now, prev),
{
}

/// The reducer is a pure function: two records that both satisfy the
/// reduction relation for the same inputs agree on every field, character
/// for character, bookkeeping tag included.
pub proof fn lemma_reduce_pure(
    g: GameStateStruct,
    u: UIPresenceStruct,
    prev: ActivityData,
    now: i64,
    r1: ActivityData,
    r2: ActivityData,
)
    requires
        reduce_rel(g, u, prev, now, r1),
        reduce_rel(g, u, prev, now, r2),
    ensures
        activity_equiv(r1, r2),
{
}

/// Party invariant: every reduced record that advertises a party advertises
/// one that is neither empty nor over capacity.
pub proof fn lemma_party_invariant(
    g: GameStateStruct,
    u: UIPresenceStruct,
    prev: ActivityData,
    now: i64,
    r: ActivityData,
)
    requires
        reduced_fields(g, u, prev, now, r),
    ensures
        r.party matches Some(p) ==> p.0 <= p.1 && p.1 > 0,
{
}

/// Change detection: reducing the same snapshot twice in a row yields a
/// record wire-equal to the first one, whatever tick times the two
/// reductions ran at and whatever secrets the first record ended up with —
/// so the second push is suppressed.
pub proof fn lemma_no_change_on_repeat(
    g: GameStateStruct,
    u: UIPresenceStruct,
    prev: ActivityData,
    now1: i64,
    now2: i64,
    r1: ActivityData,
    r2: ActivityData,
)
    requires
        reduced_fields(g, u, prev, now1, r1),
        reduce_rel(g, u, r1, now2, r2),
    ensures
        same_wire(r2, r1),
{
}

} // verus!
