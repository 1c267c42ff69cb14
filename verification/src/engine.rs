//! The synchronization core: the shared record that the engine thread and
//! the background loop exchange, together with every decision the loop makes.
//!
//! The surrounding process keeps one `PresenceEngine` behind its lock and
//! calls in with plain values: the engine callback writes snapshots, the
//! operator command rotates secrets, the transport reports connection
//! events, and each periodic tick asks which payload, if any, to push.

use crate::activity::ActivityData;
use crate::activity::GameState;
use crate::activity::GameStateStruct;
use crate::activity::UIPresenceStruct;
use crate::activity::activity_equiv;
use crate::activity::activity_wf;
use crate::activity::opt_str_equiv;
use crate::activity::same_wire;
use crate::activity::secrets_equiv;
use crate::activity::wire_eq;
use crate::reducer::is_joinable;
use crate::reducer::joinable_state;
use crate::reducer::lemma_no_change_on_repeat;
use crate::reducer::lemma_reduction_matches_iff;
use crate::reducer::reduce;
use crate::reducer::reduced_fields;
use crate::reducer::reduction_matches;
use crate::secrets::TOKEN_LEN;
use crate::secrets::issue_new;
use crate::secrets::reload;
use crate::session::ConnState;
use crate::session::SessionEvent;
use crate::session::entered_connected;
use crate::session::step;
use crate::session::step_conn;
use vstd::prelude::*;

verus! {

/// The mutable heart of the presence integration: the latest reduced
/// presence record, the latest raw snapshot, the connection state of the
/// session and whether the current record still has to reach the client.
pub struct PresenceEngine {
    pub activity: ActivityData,
    pub game: GameStateStruct,
    pub ui: UIPresenceStruct,
    pub conn: ConnState,
    pub needs_push: bool,
}

/// The stored record stays well formed, and the session identifier is
/// populated once a session exists — that is, from the first tick that
/// observed a joinable state onward.
pub open spec fn engine_wf(e: PresenceEngine) -> bool {
    &&& activity_wf(e.activity)
    &&& joinable_state(e.activity.last_state) ==> e.activity.secrets.match_secret@.len() > 0
}

/// The tick ahead will first observe a joinable state: a session begins, so
/// fresh session secrets are issued on that tick.
pub open spec fn session_boundary(pre: PresenceEngine) -> bool {
    joinable_state(pre.game.state) && !joinable_state(pre.activity.last_state)
}

/// Every non-secret field of the two records agrees, the bookkeeping tag
/// included: only the secrets may differ.
pub open spec fn same_but_secrets(a: ActivityData, b: ActivityData) -> bool {
    &&& a.party == b.party
    &&& a.details@ == b.details@
    &&& a.state@ == b.state@
    &&& opt_str_equiv(a.large_image, b.large_image)
    &&& opt_str_equiv(a.large_text, b.large_text)
    &&& opt_str_equiv(a.small_image, b.small_image)
    &&& opt_str_equiv(a.small_text, b.small_text)
    &&& a.end == b.end
    &&& a.start == b.start
    &&& a.last_state == b.last_state
}

/// Full description of one tick: the snapshot and connection state are left
/// alone, and the stored record becomes the reduction of the snapshot over
/// the previous record. On a session boundary fresh session secrets — a new
/// match identifier and a join token — are issued into the committed record;
/// on any other tick the secrets are carried over unchanged. A payload equal
/// to the committed record is handed out exactly when the session is
/// connected and the payload changed, a session began, a push was still
/// owed, or a keep-alive was forced; otherwise the debt is carried over.
pub open spec fn tick_rel(
    pre: PresenceEngine,
    now: i64,
    force: bool,
    post: PresenceEngine,
    push: Option<ActivityData>,
) -> bool {
    let changed = !reduction_matches(pre.game, pre.ui, now, pre.activity) || session_boundary(pre);
    let want = changed || pre.needs_push || force;
    &&& post.game == pre.game
    &&& post.ui == pre.ui
    &&& post.conn == pre.conn
    &&& reduced_fields(pre.game, pre.ui, pre.activity, now, post.activity)
    &&& if session_boundary(pre) {
        &&& post.activity.secrets.match_secret@.len() == TOKEN_LEN
        &&& post.activity.secrets.join matches Some(j) && j@.len() == TOKEN_LEN
        &&& post.activity.secrets.spectate is None
    } else {
        secrets_equiv(post.activity.secrets, pre.activity.secrets)
    }
    &&& activity_wf(post.activity)
    &&& if pre.conn == ConnState::Connected && want {
        &&& push matches Some(p) && activity_equiv(p, post.activity)
        &&& post.needs_push == false
    } else {
        &&& push is None
        &&& post.needs_push == (pre.needs_push || changed)
    }
}

impl PresenceEngine {
    /// A fresh engine: the placeholder presence record, an empty snapshot,
    /// no connection, and empty placeholder secrets — session secrets are
    /// only issued once a tick first observes a joinable state.
    pub fn new() -> (r: PresenceEngine)
        ensures
            engine_wf(r),
            r.conn == ConnState::Disconnected,
            r.needs_push == false,
            r.activity.state@ == "Loading..."@,
            r.activity.details@ == Seq::<char>::empty(),
            r.activity.party is None,
            r.activity.large_image matches Some(i) && i@ == "northstar"@,
            r.activity.large_text is None,
            r.activity.small_image is None,
            r.activity.small_text is None,
            r.activity.start is None,
            r.activity.end is None,
            r.activity.last_state == GameState::Loading,
            r.activity.secrets.match_secret@ == Seq::<char>::empty(),
            r.activity.secrets.join is None,
            r.activity.secrets.spectate is None,
            r.game.state == GameState::Loading,
            r.game.map@ == Seq::<char>::empty(),
            r.game.playlist@ == Seq::<char>::empty(),
            r.game.players == 0,
            r.game.max_players == 0,
            r.ui.menu_screen@ == Seq::<char>::empty(),
            r.ui.party_visible == false,
    {
        PresenceEngine {
            activity: ActivityData::initial(),
            game: GameStateStruct::empty(),
            ui: UIPresenceStruct::empty(),
            conn: ConnState::Disconnected,
            needs_push: false,
        }
    }

    /// Engine callback: replace the stored snapshot with the newest one.
    /// Nothing else moves; the next tick reconciles.
    pub fn write_snapshot(&mut self, game: GameStateStruct, ui: UIPresenceStruct)
        ensures
            final(self).game == game,
            final(self).ui == ui,
            final(self).activity == old(self).activity,
            final(self).conn == old(self).conn,
            final(self).needs_push == old(self).needs_push,
    {
        self.game = game;
        self.ui = ui;
    }

    /// Presence as the engine-side caller sees it: a copy of the latest
    /// record, equal to the stored one character for character.
    pub fn fetch_presence(&self) -> (r: ActivityData)
        ensures
            activity_equiv(r, self.activity),
    {
        self.activity.duplicate()
    }

    /// Operator command: rotate the invitation tokens. The match identifier
    /// and every non-secret field are untouched, a join token is freshly
    /// issued, a spectate token is reissued exactly when one was present,
    /// and the record is marked for pushing — whatever the connection state.
    pub fn reload_secrets(&mut self)
        ensures
            final(self).activity.secrets.match_secret@ == old(
                self,
            ).activity.secrets.match_secret@,
            final(self).activity.secrets.join is Some,
            final(self).activity.secrets.spectate is Some <==> old(
                self,
            ).activity.secrets.spectate is Some,
            same_but_secrets(final(self).activity, old(self).activity),
            final(self).needs_push == true,
            final(self).game == old(self).game,
            final(self).ui == old(self).ui,
            final(self).conn == old(self).conn,
            engine_wf(*old(self)) ==> engine_wf(*final(self)),
    {
        let rotated = reload(&self.activity.secrets);
        self.activity.secrets = rotated;
        self.needs_push = true;
    }

    /// Transport report: advance the connection state machine. On entering
    /// `Connected` the current record is marked for pushing, so presence
    /// resumes immediately after every reconnect; nothing else moves.
    pub fn on_session_event(&mut self, ev: SessionEvent)
        ensures
            final(self).conn == step(old(self).conn, ev),
            final(self).needs_push == (old(self).needs_push || entered_connected(
                old(self).conn,
                ev,
            )),
            final(self).activity == old(self).activity,
            final(self).game == old(self).game,
            final(self).ui == old(self).ui,
    {
        let next = step_conn(self.conn, ev);
        let entering = !matches!(self.conn, ConnState::Connected) && matches!(
            next,
            ConnState::Connected,
        );
        self.conn = next;
        if entering {
            self.needs_push = true;
        }
    }

    /// One tick of the synchronization loop: reduce the stored snapshot
    /// over the previous record, issue fresh session secrets when this tick
    /// first observes a joinable state, commit the result, and hand out a
    /// payload exactly when the session is connected and either the payload
    /// differs from the last one on the wire, a session just began, a push
    /// is still owed, or the caller forces a keep-alive. A suppressed or
    /// impossible push leaves the debt recorded for the next tick.
    pub fn tick(&mut self, now: i64, force: bool) -> (push: Option<ActivityData>)
        ensures
            tick_rel(*old(self), now, force, *final(self), push),
            engine_wf(*old(self)) ==> engine_wf(*final(self)),
    {
        let mut reduced = reduce(&self.game, &self.ui, &self.activity, now);
        let repeat = wire_eq(&reduced, &self.activity);
        proof {
            lemma_reduction_matches_iff(self.game, self.ui, self.activity, now, reduced);
        }
        let boundary = is_joinable(self.game.state) && !is_joinable(self.activity.last_state);
        if boundary {
            reduced.secrets = issue_new(true, false);
        }
        self.activity = reduced;
        let changed = !repeat || boundary;
        let want = changed || self.needs_push || force;
        if matches!(self.conn, ConnState::Connected) && want {
            self.needs_push = false;
            Option::Some(self.activity.duplicate())
        } else {
            self.needs_push = self.needs_push || changed;
            Option::None
        }
    }
}

/// Push suppression: whatever a tick did, a second tick that sees the same
/// snapshot — with nothing written, rotated or reported in between — pushes
/// nothing, and the record on the wire stays the same. Repeating identical
/// state therefore never repeats a payload; pushing is idempotent at the
/// loop level.
pub proof fn lemma_second_tick_suppressed(
    pre: PresenceEngine,
    now1: i64,
    force1: bool,
    mid: PresenceEngine,
    out1: Option<ActivityData>,
    now2: i64,
    post: PresenceEngine,
    out2: Option<ActivityData>,
)
    requires
        tick_rel(pre, now1, force1, mid, out1),
        tick_rel(mid, now2, false, post, out2),
    ensures
        out2 is None,
        same_wire(post.activity, mid.activity),
{
    assert(!session_boundary(mid));
    lemma_no_change_on_repeat(
        pre.game,
        pre.ui,
        pre.activity,
        now1,
        now2,
        mid.activity,
        post.activity,
    );
    lemma_reduction_matches_iff(mid.game, mid.ui, mid.activity, now2, post.activity);
}

} // verus!
