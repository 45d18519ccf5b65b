//! The session registry: the single table mapping a session identifier to
//! its terminal session, together with the cross-cutting data every spawn
//! needs — the spawn profile, the home directory, the settings, and the
//! preserved proxy environment captured once at construction.
//!
//! All mutation funnels through the registry's methods; a session is
//! inserted only after its PTY spawn succeeded, and removal closes the
//! session before letting go of it. The registry's invariant keeps each
//! session stored under its own identifier and every identifier unique, so
//! at any instant one live identifier names exactly one session.

use vstd::prelude::*;
use crate::envs::EnvEntry;
use crate::envs::working_dir_of;
use crate::error::TermError;
use crate::events::SessionEventHandler;
use crate::messages::TermOptions;
use crate::pump::SessionPumps;
use crate::session::SessionView;
use crate::session::SpawnProfile;
use crate::session::TerminalDelegate;
use crate::settings::Settings;
use crate::strutil::str_eq;
use crate::theme::ThemeContext;
use crate::theme::ThemeItem;
use crate::theme::ThemeItemView;

verus! {

/// The process-wide application state: the session table and the data shared
/// by every spawn.
pub struct AppState<H: SessionEventHandler + Clone + Send + 'static> {
    profile: SpawnProfile,
    home_dir: String,
    settings: Settings,
    preserved_envs: Vec<EnvEntry>,
    terminals: Vec<(String, TerminalDelegate<H>)>,
    theme_context: Option<ThemeContext>,
}

impl<H: SessionEventHandler + Clone + Send + 'static> AppState<H> {
    /// The registry's table as identifier/session-state pairs, in insertion
    /// order.
    pub closed spec fn spec_views(&self) -> Seq<(Seq<char>, SessionView)> {
        self.terminals@.map_values(|e: (String, TerminalDelegate<H>)| (e.0@, e.1@))
    }

    /// Every stored session satisfies its own structural invariant.
    pub closed spec fn spec_sessions_wf(&self) -> bool {
        forall|i: int|
            0 <= i < self.terminals@.len() ==> (#[trigger] self.terminals@[i]).1.wf()
    }

    /// No identifier appears twice in the table.
    pub open spec fn spec_keys_distinct(&self) -> bool {
        forall|i: int, j: int|
            0 <= i < j < self.spec_views().len() ==> (#[trigger] self.spec_views()[i]).0 != (
            #[trigger] self.spec_views()[j]).0
    }

    /// Every session is stored under its own identifier.
    pub open spec fn spec_ids_consistent(&self) -> bool {
        forall|i: int|
            0 <= i < self.spec_views().len() ==> (#[trigger] self.spec_views()[i]).1.id
                == self.spec_views()[i].0
    }

    /// The registry's invariant.
    pub open spec fn wf(&self) -> bool {
        &&& self.spec_sessions_wf()
        &&& self.spec_keys_distinct()
        &&& self.spec_ids_consistent()
    }

    /// A session is registered under this identifier.
    pub open spec fn spec_contains(&self, id: Seq<char>) -> bool {
        exists|i: int|
            0 <= i < self.spec_views().len() && (#[trigger] self.spec_views()[i]).0 == id
    }

    /// The position of the session registered under this identifier.
    pub open spec fn spec_index_of(&self, id: Seq<char>) -> int {
        choose|i: int|
            0 <= i < self.spec_views().len() && (#[trigger] self.spec_views()[i]).0 == id
    }

    /// The state of the session registered under this identifier.
    pub open spec fn spec_session(&self, id: Seq<char>) -> SessionView {
        self.spec_views()[self.spec_index_of(id)].1
    }

    /// The settings the registry was constructed with.
    pub closed spec fn spec_settings(&self) -> Settings {
        self.settings
    }

    /// The spawn profile the registry was constructed with.
    pub closed spec fn spec_profile(&self) -> SpawnProfile {
        self.profile
    }

    /// The home directory the registry was constructed with.
    pub closed spec fn spec_home_dir(&self) -> String {
        self.home_dir
    }

    /// The preserved proxy environment the registry was constructed with.
    pub closed spec fn spec_preserved(&self) -> Seq<EnvEntry> {
        self.preserved_envs@
    }

    /// The loaded themes, where themes have been loaded.
    pub closed spec fn spec_themes(&self) -> Option<Seq<ThemeItemView>> {
        match self.theme_context {
            Some(ref c) => Some(c@),
            None => None,
        }
    }

    /// A fresh registry with no sessions and no themes, remembering the
    /// spawn profile, home directory, settings and the preserved proxy
    /// environment.
    pub fn new(
        profile: SpawnProfile,
        home_dir: String,
        settings: Settings,
        preserved_envs: Vec<EnvEntry>,
    ) -> (r: AppState<H>)
        ensures
            r.wf(),
            r.spec_views().len() == 0,
            r.spec_settings() == settings,
            r.spec_themes() is None,
            r.spec_profile() == profile,
            r.spec_home_dir() == home_dir,
            r.spec_preserved() == preserved_envs@,
    {
        let r = AppState {
            profile,
            home_dir,
            settings,
            preserved_envs,
            terminals: Vec::new(),
            theme_context: None,
        };
        assert(r.spec_views() =~= Seq::<(Seq<char>, SessionView)>::empty());
        r
    }

    /// The settings, as constructed at startup.
    pub fn settings(&self) -> (r: &Settings)
        ensures
            *r == self.spec_settings(),
    {
        &self.settings
    }

    /// Where the session with the given identifier is stored, if anywhere.
    fn index_of(&self, id: &str) -> (r: Option<usize>)
        ensures
            r matches Some(i) ==> 0 <= i < self.spec_views().len()
                && self.spec_views()[i as int].0 == id@,
            r is None ==> !self.spec_contains(id@),
    {
        let n: usize = self.terminals.len();
        assert(self.spec_views().len() == n);
        let mut i: usize = 0;
        while i < n
            invariant
                n == self.terminals@.len(),
                n == self.spec_views().len(),
                i <= n,
                forall|k: int| 0 <= k < i ==> (#[trigger] self.spec_views()[k]).0 != id@,
            decreases n - i,
        {
            assert(self.spec_views()[i as int].0 == self.terminals@[i as int].0@);
            if str_eq(self.terminals[i].0.as_str(), id) {
                return Some(i);
            }
            i = i + 1;
        }
        None
    }

    /// What a spawn needs from the registry — the spawn profile, the home
    /// directory and the preserved proxy environment — copied out, so that
    /// a caller sharing the registry behind a lock can run the slow PTY
    /// spawn without holding it: fetch these under a short lock, spawn
    /// lock-free, then hand the session to [`Self::insert_terminal`].
    pub fn spawn_inputs(&self) -> (r: (SpawnProfile, String, Vec<EnvEntry>))
        ensures
            r.0.program == self.spec_profile().program,
            r.0.version == self.spec_profile().version,
            r.0.shell_dir == self.spec_profile().shell_dir,
            r.0.user_shell_dir == self.spec_profile().user_shell_dir,
            r.1 == self.spec_home_dir(),
            r.2@.len() == self.spec_preserved().len(),
            forall|i: int|
                0 <= i < self.spec_preserved().len() ==> (#[trigger] r.2@[i]).0
                    == self.spec_preserved()[i].0 && r.2@[i].1 == self.spec_preserved()[i].1,
    {
        let profile = self.profile.duplicate();
        let home = self.home_dir.clone();
        let mut envs: Vec<EnvEntry> = Vec::new();
        let n: usize = self.preserved_envs.len();
        let mut i: usize = 0;
        while i < n
            invariant
                n == self.preserved_envs@.len(),
                i <= n,
                envs@.len() == i,
                forall|k: int|
                    0 <= k < i ==> (#[trigger] envs@[k]).0 == self.preserved_envs@[k].0
                        && envs@[k].1 == self.preserved_envs@[k].1,
            decreases n - i,
        {
            let e = &self.preserved_envs[i];
            envs.push((e.0.clone(), crate::envs::clone_opt_string(&e.1)));
            i = i + 1;
        }
        (profile, home, envs)
    }

    /// Registers a freshly spawned session under its own identifier.
    /// Should the identifier already be live, its old session is closed
    /// and replaced, so that the identifier keeps naming exactly one
    /// session.
    pub fn insert_terminal(&mut self, delegate: TerminalDelegate<H>)
        requires
            old(self).wf(),
            delegate.wf(),
        ensures
            final(self).wf(),
            final(self).spec_settings() == old(self).spec_settings(),
            final(self).spec_themes() == old(self).spec_themes(),
            final(self).spec_views().len() == old(self).spec_minus(delegate@.id).len() + 1,
            final(self).spec_views() == old(self).spec_minus(delegate@.id).push(
                (delegate@.id, delegate@),
            ),
            final(self).spec_contains(delegate@.id),
    {
        let id = delegate.id();
        let ghost idv = id@;
        let ghost dv = delegate@;
        let ghost pre = self.spec_views();
        match self.index_of(id.as_str()) {
            Some(i) => {
                proof {
                    self.lemma_index_unique(idv, i as int);
                    Self::lemma_no_key_after_remove(pre, i as int, idv);
                }
                let mut entry = self.terminals.remove(i);
                entry.1.close();
                proof {
                    assert(self.spec_views() =~= pre.remove(i as int));
                    assert(self.spec_views() =~= old(self).spec_minus(idv));
                }
            },
            None => {
                proof {
                    assert(self.spec_views() =~= old(self).spec_minus(idv));
                }
            },
        }
        let ghost mid = self.spec_views();
        proof {
            assert(forall|k: int| 0 <= k < mid.len() ==> (#[trigger] mid[k]).0 != idv);
            assert(forall|a: int, b: int|
                0 <= a < b < mid.len() ==> (#[trigger] mid[a]).0 != (#[trigger] mid[b]).0);
        }
        self.terminals.push((id, delegate));
        proof {
            assert(self.spec_views() =~= mid.push((idv, dv)));
            assert(self.spec_views().last() == (idv, dv));
            let n = self.spec_views().len();
            assert(self.spec_views()[n - 1].0 == idv);
            assert(self.spec_contains(idv));
        }
    }

    /// Whether a session is registered under this identifier.
    pub fn has_terminal(&self, id: &str) -> (r: bool)
        ensures
            r == self.spec_contains(id@),
    {
        match self.index_of(id) {
            Some(_) => true,
            None => false,
        }
    }

    /// The session registered under this identifier. Looking up an unknown
    /// identifier is a programming error in the caller, which the
    /// precondition expresses.
    pub fn get_terminal_by_id(&self, id: &str) -> (r: &TerminalDelegate<H>)
        requires
            self.wf(),
            self.spec_contains(id@),
        ensures
            r.wf(),
            r@ == self.spec_session(id@),
            r@.id == id@,
    {
        let found = self.index_of(id);
        match found {
            Some(i) => {
                let entry = &self.terminals[i];
                proof {
                    self.lemma_index_unique(id@, i as int);
                }
                &entry.1
            },
            None => {
                proof {
                    assert(false);
                }
                &self.terminals[0].1
            },
        }
    }

    /// With unique keys, any position holding the identifier is the position
    /// [`Self::spec_index_of`] picks.
    proof fn lemma_index_unique(&self, id: Seq<char>, i: int)
        requires
            self.wf(),
            0 <= i < self.spec_views().len(),
            self.spec_views()[i].0 == id,
        ensures
            self.spec_index_of(id) == i,
            self.spec_session(id) == self.spec_views()[i].1,
    {
        assert(self.spec_contains(id));
        let j = self.spec_index_of(id);
        if i < j {
            assert(self.spec_views()[i].0 != self.spec_views()[j].0);
        } else if j < i {
            assert(self.spec_views()[j].0 != self.spec_views()[i].0);
        }
    }

    /// The registry's table without the entry of the given identifier: what
    /// the table becomes when that identifier is removed, and the table
    /// itself when the identifier is not live.
    pub open spec fn spec_minus(&self, id: Seq<char>) -> Seq<(Seq<char>, SessionView)> {
        if self.spec_contains(id) {
            self.spec_views().remove(self.spec_index_of(id))
        } else {
            self.spec_views()
        }
    }

    /// After removing the one entry holding `id` from a table with distinct
    /// keys, no entry holds `id`.
    proof fn lemma_no_key_after_remove(
        pre: Seq<(Seq<char>, SessionView)>,
        i: int,
        id: Seq<char>,
    )
        requires
            0 <= i < pre.len(),
            pre[i].0 == id,
            forall|a: int, b: int|
                0 <= a < b < pre.len() ==> (#[trigger] pre[a]).0 != (#[trigger] pre[b]).0,
        ensures
            pre.remove(i).len() == pre.len() - 1,
            forall|k: int| 0 <= k < pre.len() - 1 ==> (#[trigger] pre.remove(i)[k]).0 != id,
            forall|a: int, b: int|
                0 <= a < b < pre.len() - 1 ==> (#[trigger] pre.remove(i)[a]).0 != (
                #[trigger] pre.remove(i)[b]).0,
    {
        pre.remove_ensures(i);
        assert forall|k: int| 0 <= k < pre.len() - 1 implies (#[trigger] pre.remove(i)[k]).0
            != id by {
            if k < i {
                assert(pre.remove(i)[k] == pre[k]);
                assert(pre[k].0 != pre[i].0);
            } else {
                assert(pre.remove(i)[k] == pre[k + 1]);
                assert(pre[i].0 != pre[k + 1].0);
            }
        }
        assert forall|a: int, b: int| 0 <= a < b < pre.len() - 1 implies (
        #[trigger] pre.remove(i)[a]).0 != (#[trigger] pre.remove(i)[b]).0 by {
            let pa: int = if a < i {
                a
            } else {
                a + 1
            };
            let pb: int = if b < i {
                b
            } else {
                b + 1
            };
            assert(pre.remove(i)[a] == pre[pa]);
            assert(pre.remove(i)[b] == pre[pb]);
            assert(pre[pa].0 != pre[pb].0);
        }
    }

    /// Spawns a new session and registers it under the given identifier.
    /// The preserved environment and the spawn profile are read from the
    /// registry; the session starts in the given path, or the home directory
    /// when none is given. A spawn failure is returned as is and registers
    /// nothing. Should the identifier already be live, its old session is
    /// closed and replaced. On success the caller receives the session's
    /// pump bundle to run.
    pub fn new_terminal(&mut self, id: String, path: Option<String>, event_handler: H) -> (r:
        core::result::Result<SessionPumps<H>, TermError>)
        requires
            old(self).wf(),
        ensures
            final(self).wf(),
            final(self).spec_settings() == old(self).spec_settings(),
            final(self).spec_themes() == old(self).spec_themes(),
            r matches Err(e) ==> (e is Pty && *final(self) == *old(self)),
            r matches Ok(p) ==> {
                &&& p.id@ == id@
                &&& !p.exit_gate.spec_claimed()
                &&& final(self).spec_views().len() == old(self).spec_minus(id@).len() + 1
                &&& final(self).spec_views() == old(self).spec_minus(id@).push(
                    final(self).spec_views().last(),
                )
                &&& final(self).spec_views().last().0 == id@
                &&& final(self).spec_views().last().1.id == id@
                &&& !final(self).spec_views().last().1.closed
                &&& final(self).spec_views().last().1.options is None
                &&& !final(self).spec_views().last().1.watching
                &&& final(self).spec_contains(id@)
            },
    {
        let working_dir = working_dir_of(path, self.home_dir.clone());
        let created = TerminalDelegate::new(
            id.clone(),
            &self.profile,
            working_dir.as_str(),
            &self.preserved_envs,
            event_handler,
        );
        match created {
            Err(e) => Err(e),
            Ok((delegate, pumps)) => {
                let ghost dv = delegate@;
                self.insert_terminal(delegate);
                proof {
                    assert(self.spec_views().last() == (dv.id, dv));
                }
                Ok(pumps)
            },
        }
    }

    /// Writes bytes to the session registered under this identifier: the
    /// count written while it runs, `0` once it is closed, never a panic.
    /// No session's observable state changes.
    pub fn write(&mut self, id: &str, data: &[u8]) -> (r: core::result::Result<usize, TermError>)
        requires
            old(self).wf(),
            old(self).spec_contains(id@),
        ensures
            final(self).wf(),
            final(self).spec_views() == old(self).spec_views(),
            final(self).spec_settings() == old(self).spec_settings(),
            final(self).spec_themes() == old(self).spec_themes(),
            old(self).spec_session(id@).closed ==> r == Ok::<usize, TermError>(0usize),
            r matches Ok(n) ==> n <= data@.len(),
            r matches Err(e) ==> e is Io,
    {
        let found = self.index_of(id);
        match found {
            None => {
                proof {
                    assert(false);
                }
                Ok(0)
            },
            Some(i) => {
                let ghost pre = self.spec_views();
                proof {
                    self.lemma_index_unique(id@, i as int);
                }
                let mut entry = self.terminals.remove(i);
                let res = entry.1.write(data);
                self.terminals.insert(i, entry);
                proof {
                    self.lemma_views_restored(old(self), i as int, pre);
                }
                res
            },
        }
    }

    /// Applies a text geometry to the session registered under this
    /// identifier: a no-op once the session is closed, never a panic. No
    /// session's observable state changes.
    pub fn resize(&mut self, id: &str, rows: u16, cols: u16) -> (r: core::result::Result<
        (),
        TermError,
    >)
        requires
            old(self).wf(),
            old(self).spec_contains(id@),
        ensures
            final(self).wf(),
            final(self).spec_views() == old(self).spec_views(),
            final(self).spec_settings() == old(self).spec_settings(),
            final(self).spec_themes() == old(self).spec_themes(),
            old(self).spec_session(id@).closed ==> r is Ok,
            r matches Err(e) ==> e is Pty,
    {
        let found = self.index_of(id);
        match found {
            None => {
                proof {
                    assert(false);
                }
                Ok(())
            },
            Some(i) => {
                let ghost pre = self.spec_views();
                proof {
                    self.lemma_index_unique(id@, i as int);
                }
                let mut entry = self.terminals.remove(i);
                let res = entry.1.resize(rows, cols);
                self.terminals.insert(i, entry);
                proof {
                    self.lemma_views_restored(old(self), i as int, pre);
                }
                res
            },
        }
    }

    /// Applies options to the session registered under this identifier,
    /// with the session's own contract lifted to the registry: re-applying
    /// the last applied value is a no-op, otherwise the options are stored
    /// and the watcher is reconciled. Every other session stays as it was.
    pub fn set_options(&mut self, id: &str, options: TermOptions) -> (r: core::result::Result<
        (),
        TermError,
    >)
        requires
            old(self).wf(),
            old(self).spec_contains(id@),
        ensures
            final(self).wf(),
            final(self).spec_settings() == old(self).spec_settings(),
            final(self).spec_themes() == old(self).spec_themes(),
            final(self).spec_views().len() == old(self).spec_views().len(),
            forall|k: int|
                0 <= k < old(self).spec_views().len() && k != old(self).spec_index_of(id@)
                    ==> #[trigger] final(self).spec_views()[k] == old(self).spec_views()[k],
            final(self).spec_contains(id@),
            final(self).spec_session(id@).id == id@,
            final(self).spec_session(id@).closed == old(self).spec_session(id@).closed,
            final(self).spec_session(id@).pid == old(self).spec_session(id@).pid,
            old(self).spec_session(id@).options == Some(options@)
                ==> (r is Ok && final(self).spec_session(id@) == old(self).spec_session(id@)),
            r is Err ==> final(self).spec_session(id@) == old(self).spec_session(id@),
            r matches Err(e) ==> (e is Notify && options@.watch_dirs),
            (r is Ok && old(self).spec_session(id@).options != Some(options@))
                ==> final(self).spec_session(id@).options == Some(options@),
            (old(self).spec_session(id@).options != Some(options@) && !options@.watch_dirs) ==> (
            r is Ok && !final(self).spec_session(id@).watching),
    {
        let found = self.index_of(id);
        match found {
            None => {
                proof {
                    assert(false);
                }
                Ok(())
            },
            Some(i) => {
                let ghost pre = self.spec_views();
                proof {
                    self.lemma_index_unique(id@, i as int);
                }
                let mut entry = self.terminals.remove(i);
                let res = entry.1.set_options(options);
                let ghost sv = entry.1@;
                self.terminals.insert(i, entry);
                proof {
                    self.lemma_views_updated(old(self), i as int, pre, sv);
                    self.lemma_index_unique(id@, i as int);
                }
                res
            },
        }
    }

    /// After taking the entry at `i` out and putting it back with the same
    /// key and the same session state, the table reads as before.
    proof fn lemma_views_restored(&self, prev: &Self, i: int, pre: Seq<(Seq<char>, SessionView)>)
        requires
            pre == prev.spec_views(),
            prev.wf(),
            0 <= i < pre.len(),
            self.spec_views().len() == pre.len(),
            forall|k: int|
                0 <= k < pre.len() ==> #[trigger] self.spec_views()[k] == pre[k],
            forall|k: int|
                0 <= k < self.terminals@.len() ==> (#[trigger] self.terminals@[k]).1.wf(),
        ensures
            self.spec_views() == pre,
            self.wf(),
    {
        assert(self.spec_views() =~= pre);
    }

    /// After taking the entry at `i` out and putting it back with the same
    /// key, a well-formed session and an unchanged identifier, the table
    /// reads as before except at `i`, and the invariant still holds.
    proof fn lemma_views_updated(
        &self,
        prev: &Self,
        i: int,
        pre: Seq<(Seq<char>, SessionView)>,
        sv: SessionView,
    )
        requires
            pre == prev.spec_views(),
            prev.wf(),
            0 <= i < pre.len(),
            self.spec_views().len() == pre.len(),
            forall|k: int|
                0 <= k < pre.len() && k != i ==> #[trigger] self.spec_views()[k] == pre[k],
            self.spec_views()[i].0 == pre[i].0,
            self.spec_views()[i].1 == sv,
            sv.id == pre[i].1.id,
            forall|k: int|
                0 <= k < self.terminals@.len() ==> (#[trigger] self.terminals@[k]).1.wf(),
        ensures
            self.wf(),
            self.spec_views() == pre.update(i, (pre[i].0, sv)),
    {
        assert(self.spec_views() =~= pre.update(i, (pre[i].0, sv)));
    }

    /// Law: within one registry, at any instant, every live identifier
    /// names exactly one session: two distinct entries never share an
    /// identifier, and each session carries its own entry's identifier, so
    /// their identifiers differ too.
    pub proof fn lemma_session_ids_unique(&self, i: int, j: int)
        requires
            self.wf(),
            0 <= i < j < self.spec_views().len(),
        ensures
            self.spec_views()[i].0 != self.spec_views()[j].0,
            self.spec_views()[i].1.id != self.spec_views()[j].1.id,
    {
    }

    /// Stores the themes discovered by the caller: an error when none was
    /// found, otherwise the collection replaces whatever was loaded before.
    /// Sessions are untouched.
    pub fn load_themes(&mut self, items: &Vec<ThemeItem>) -> (r: core::result::Result<
        (),
        TermError,
    >)
        requires
            old(self).wf(),
        ensures
            final(self).wf(),
            final(self).spec_views() == old(self).spec_views(),
            final(self).spec_settings() == old(self).spec_settings(),
            items@.len() == 0 ==> (r matches Err(e) && e is NoThemesFound
                && final(self).spec_themes() == old(self).spec_themes()),
            items@.len() > 0 ==> (r is Ok && final(self).spec_themes() == Some(
                items@.map_values(|t: ThemeItem| t@),
            )),
    {
        if items.is_empty() {
            return Err(TermError::NoThemesFound);
        }
        let mut ctx = ThemeContext::new();
        let n: usize = items.len();
        let mut i: usize = 0;
        while i < n
            invariant
                n == items@.len(),
                i <= n,
                ctx@ == items@.subrange(0, i as int).map_values(|t: ThemeItem| t@),
            decreases n - i,
        {
            ctx.add(items[i].duplicate());
            proof {
                assert(items@.subrange(0, i + 1 as int) =~= items@.subrange(0, i as int).push(
                    items@[i as int],
                ));
                assert(items@.subrange(0, i + 1 as int).map_values(|t: ThemeItem| t@)
                    =~= items@.subrange(0, i as int).map_values(|t: ThemeItem| t@).push(
                    items@[i as int]@,
                ));
            }
            i = i + 1;
        }
        assert(items@.subrange(0, n as int) =~= items@);
        self.theme_context = Some(ctx);
        Ok(())
    }

    /// The first loaded theme's name and the path of its TOML file — what
    /// the caller reads and converts to serve a theme. An error when no
    /// themes are loaded.
    pub fn get_a_theme_source(&self) -> (r: core::result::Result<
        (String, Option<String>),
        TermError,
    >)
        ensures
            (r is Err) <==> (self.spec_themes() is None || self.spec_themes().unwrap().len()
                == 0),
            r matches Err(e) ==> e is NoThemesFound,
            r matches Ok(t) ==> {
                &&& self.spec_themes() is Some
                &&& self.spec_themes().unwrap().len() > 0
                &&& t.0@ == self.spec_themes().unwrap()[0].name
                &&& (match t.1 {
                    Some(p) => self.spec_themes().unwrap()[0].toml_file_path == Some(p@),
                    None => self.spec_themes().unwrap()[0].toml_file_path is None,
                })
            },
    {
        match self.theme_context.as_ref() {
            None => Err(TermError::NoThemesFound),
            Some(ctx) => {
                if ctx.is_empty() {
                    Err(TermError::NoThemesFound)
                } else {
                    let item = ctx.index(0);
                    let toml_file_path = match item.toml_file_path.as_ref() {
                        Some(p) => Some(p.clone()),
                        None => None,
                    };
                    Ok((item.name.clone(), toml_file_path))
                }
            },
        }
    }

    /// The statistics walker for the session registered under this
    /// identifier, seeded with its child process id: statistics are
    /// best-effort and never an error — with no known child the walker is
    /// born finished and yields the zero-valued snapshot.
    pub fn statistics_sampler(&self, id: &str) -> (s: crate::stats::StatSampler)
        requires
            self.wf(),
            self.spec_contains(id@),
        ensures
            s@ == crate::stats::spec_sampler_init(self.spec_session(id@).pid),
    {
        self.get_terminal_by_id(id).begin_statistics()
    }

    /// Closes the session registered under this identifier and removes it
    /// from the table. Every other session stays as it was; the identifier
    /// is free for reuse afterwards.
    pub fn remove_terminal_by_id(&mut self, id: &str)
        requires
            old(self).wf(),
            old(self).spec_contains(id@),
        ensures
            final(self).wf(),
            final(self).spec_settings() == old(self).spec_settings(),
            final(self).spec_themes() == old(self).spec_themes(),
            !final(self).spec_contains(id@),
            final(self).spec_views() == old(self).spec_minus(id@),
    {
        let found = self.index_of(id);
        match found {
            Some(i) => {
                let ghost pre = self.spec_views();
                proof {
                    self.lemma_index_unique(id@, i as int);
                    Self::lemma_no_key_after_remove(pre, i as int, id@);
                }
                let mut entry = self.terminals.remove(i);
                entry.1.close();
                proof {
                    assert(self.spec_views() =~= pre.remove(i as int));
                    assert(self.spec_views() =~= old(self).spec_minus(id@));
                    if self.spec_contains(id@) {
                        let w = self.spec_index_of(id@);
                        assert(self.spec_views()[w].0 == id@);
                        assert(false);
                    }
                }
            },
            None => {
                proof {
                    assert(false);
                }
            },
        }
    }
}

} // verus!
