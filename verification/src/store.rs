use vstd::prelude::*;

use crate::counting::count_img;
use crate::memory::join_post;
use crate::memory::pick_post;
use crate::memory::ready_post;
use crate::memory::snapshot_post;
use crate::memory::state_post;
use crate::memory::subscribe_post;
use crate::memory::Memory;
use crate::types::Event;
use crate::types::GameError;
use crate::types::InitResponse;
use crate::types::PickOutcome;
use crate::types::ReadyOutcome;
use crate::types::StateResponse;

verus! {

/// Process-wide holder of at most one live session and the admin key.
/// Every external request goes through this store; the surrounding
/// process serializes access to it with a single reader/writer lock.
pub struct MemoryStore {
    pub game: Option<Memory>,
    pub master_key: String,
}

impl Default for MemoryStore {
    /// An empty store: no session, empty admin key.
    fn default() -> (s: MemoryStore)
        ensures
            s.wf(),
            s.game is None,
            s.master_key@ == Seq::<char>::empty(),
    {
        MemoryStore { game: None, master_key: String::new() }
    }
}

impl MemoryStore {
    /// The held session, if any, satisfies the session invariant.
    pub open spec fn wf(self) -> bool {
        self.game matches Some(g) ==> g.wf()
    }

    /// A fresh store guarding its sessions with the given admin key.
    pub fn new(master_key: String) -> (s: MemoryStore)
        ensures
            s.wf(),
            s.game is None,
            s.master_key@ == master_key@,
    {
        MemoryStore { game: None, master_key }
    }

    /// Whether the presented admin key matches the store's key.
    pub fn check_key(&self, key: &String) -> (r: bool)
        ensures
            r == (key@ == self.master_key@),
    {
        *key == self.master_key
    }

    /// Installs a fresh lobby session with a newly shuffled board over
    /// the given images. Fails `InvalidMasterKey` on a key mismatch and
    /// `AlreadyExists` while a session is live.
    pub fn create(&mut self, master_key: &String, id: String, images: Vec<String>) -> (r: Result<
        (),
        GameError,
    >)
        requires
            old(self).wf(),
            forall|i: int, j: int| 0 <= i < j < images@.len() ==> images@[i]@ != images@[j]@,
        ensures
            final(self).wf(),
            final(self).master_key@ == old(self).master_key@,
            master_key@ != old(self).master_key@ <==> r == Err::<(), GameError>(
                GameError::InvalidMasterKey,
            ),
            master_key@ == old(self).master_key@ && old(self).game is Some <==> r == Err::<
                (),
                GameError,
            >(GameError::AlreadyExists),
            master_key@ == old(self).master_key@ && old(self).game is None <==> r == Ok::<
                (),
                GameError,
            >(()),
            r is Err ==> *final(self) == *old(self),
            r is Ok ==> (final(self).game matches Some(g) && {
                &&& g.wf()
                &&& g.id@ == id@
                &&& g.state is Lobby
                &&& g.players@.len() == 0
                &&& g.cards@.len() == 2 * images@.len()
                &&& (forall|j: int| 0 <= j < images@.len() ==> count_img(
                    g.cards@,
                    (#[trigger] images@[j])@,
                ) == 2)
                &&& (forall|i: int| 0 <= i < g.cards@.len() ==> !(#[trigger] g.cards@[i]).flipped
                    && !g.cards@[i].gone)
            }),
    {
        if !(*master_key == self.master_key) {
            return Err(GameError::InvalidMasterKey);
        }
        if self.game.is_some() {
            return Err(GameError::AlreadyExists);
        }
        self.game = Some(Memory::new(id, images));
        Ok(())
    }

    /// Clears the session. Fails only on a key mismatch; deleting an
    /// absent session succeeds as well.
    pub fn delete(&mut self, master_key: &String) -> (r: Result<(), GameError>)
        requires
            old(self).wf(),
        ensures
            final(self).wf(),
            final(self).master_key@ == old(self).master_key@,
            master_key@ != old(self).master_key@ <==> r == Err::<(), GameError>(
                GameError::InvalidMasterKey,
            ),
            master_key@ == old(self).master_key@ <==> r == Ok::<(), GameError>(()),
            r is Err ==> *final(self) == *old(self),
            r is Ok ==> final(self).game is None,
    {
        if !(*master_key == self.master_key) {
            return Err(GameError::InvalidMasterKey);
        }
        self.game = None;
        Ok(())
    }

    /// Session id plus a revocation signal: true exactly when a token
    /// was presented and is no longer in the roster.
    pub fn ping(&self, token: Option<&String>) -> (r: Result<(String, bool), GameError>)
        requires
            self.wf(),
        ensures
            self.game is None <==> r == Err::<(String, bool), GameError>(GameError::NoGameExists),
            self.game matches Some(g) ==> (r matches Ok(p) && p.0@ == g.id@ && (p.1 <==> (
            token matches Some(t) && !g.has_token(t@)))),
    {
        match &self.game {
            None => Err(GameError::NoGameExists),
            Some(g) => {
                let revoked = match token {
                    Some(t) => !g.knows_token(t),
                    None => false,
                };
                Ok((g.id.clone(), revoked))
            },
        }
    }

    /// Adds a player to the live session under a fresh random token;
    /// see `join_post` for the full contract against the session.
    pub fn join(&mut self, name: String) -> (r: (Result<String, GameError>, Vec<Event>))
        requires
            old(self).wf(),
        ensures
            final(self).wf(),
            final(self).master_key@ == old(self).master_key@,
            old(self).game is None <==> r.0 == Err::<String, GameError>(GameError::NoGameExists),
            old(self).game is None ==> *final(self) == *old(self) && r.1@.len() == 0,
            old(self).game matches Some(g) ==> (final(self).game matches Some(g2) && join_post(
                g,
                g2,
                name@,
                r.0,
                r.1@,
            )),
    {
        match self.game {
            Some(ref mut g) => g.add_new_player(name),
            None => (Err(GameError::NoGameExists), Vec::new()),
        }
    }

    /// Marks the player holding the token as ready; see `ready_post`
    /// for the full contract against the session.
    pub fn ready(&mut self, token: &String) -> (r: (Result<ReadyOutcome, GameError>, Vec<Event>))
        requires
            old(self).wf(),
        ensures
            final(self).wf(),
            final(self).master_key@ == old(self).master_key@,
            old(self).game is None <==> r.0 == Err::<ReadyOutcome, GameError>(
                GameError::NoGameExists,
            ),
            old(self).game is None ==> *final(self) == *old(self) && r.1@.len() == 0,
            old(self).game matches Some(g) ==> (final(self).game matches Some(g2) && ready_post(
                g,
                g2,
                token@,
                r.0,
                r.1@,
            )),
    {
        match self.game {
            Some(ref mut g) => g.mark_ready(token),
            None => (Err(GameError::NoGameExists), Vec::new()),
        }
    }

    /// Processes a pick on the live session; see `pick_post` for the
    /// full contract against the session.
    pub fn pick_card(&mut self, token: &String, card_id: usize) -> (r: (Result<
        PickOutcome,
        GameError,
    >, Vec<Event>))
        requires
            old(self).wf(),
        ensures
            final(self).wf(),
            final(self).master_key@ == old(self).master_key@,
            old(self).game is None <==> r.0 == Err::<PickOutcome, GameError>(
                GameError::NoGameExists,
            ),
            old(self).game is None ==> *final(self) == *old(self) && r.1@.len() == 0,
            old(self).game matches Some(g) ==> (final(self).game matches Some(g2) && pick_post(
                g,
                g2,
                token@,
                card_id as int,
                r.0,
                r.1@,
            )),
    {
        match self.game {
            Some(ref mut g) => g.pick_card(token, card_id),
            None => (Err(GameError::NoGameExists), Vec::new()),
        }
    }

    /// Attaches a live-update subscription on the live session; see
    /// `subscribe_post` for the full contract against the session.
    pub fn subscribe(&mut self, token: &String) -> (r: Result<InitResponse, GameError>)
        requires
            old(self).wf(),
        ensures
            final(self).wf(),
            final(self).master_key@ == old(self).master_key@,
            old(self).game is None <==> r == Err::<InitResponse, GameError>(
                GameError::NoGameExists,
            ),
            old(self).game is None ==> *final(self) == *old(self),
            old(self).game matches Some(g) ==> (final(self).game matches Some(g2)
                && subscribe_post(g, g2, token@, r)),
    {
        match self.game {
            Some(ref mut g) => g.subscribe(token),
            None => Err(GameError::NoGameExists),
        }
    }

    /// Lifecycle state and ready flag for the player holding the token;
    /// see `state_post` for the full contract against the session.
    pub fn state(&self, token: &String) -> (r: Result<StateResponse, GameError>)
        requires
            self.wf(),
        ensures
            self.game is None <==> r == Err::<StateResponse, GameError>(GameError::NoGameExists),
            self.game matches Some(g) ==> state_post(g, token@, r),
    {
        match &self.game {
            Some(g) => g.player_state(token),
            None => Err(GameError::NoGameExists),
        }
    }

    /// Reconciliation snapshot for the player holding the token; see
    /// `snapshot_post` for the full contract against the session.
    pub fn snapshot(&self, token: &String) -> (r: Result<InitResponse, GameError>)
        requires
            self.wf(),
        ensures
            self.game is None <==> r == Err::<InitResponse, GameError>(GameError::NoGameExists),
            self.game matches Some(g) ==> snapshot_post(g, token@, r),
    {
        match &self.game {
            Some(g) => g.snapshot_for(token),
            None => Err(GameError::NoGameExists),
        }
    }
}

} // verus!
