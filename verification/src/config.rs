//! The context store — a name → URL map with an optional current
//! context — and the resolution of the daemon target URL from its
//! priority chain of sources.
//!
//! Reading and writing the store on disk is external; this module models
//! the store's contents and the operations the context subcommands
//! perform on it.

use vstd::pervasive::VecAdditionalExecFns;
use vstd::prelude::*;
use vstd::string::StrSliceExecFns;
use vstd::string::StringExecFns;

use crate::strutil::is_blank;
use crate::strutil::spec_trim;
use crate::strutil::str_eq;
use crate::strutil::str_is_blank;
use crate::strutil::trim_str;

verus! {

/// One stored context binding: the daemon base URL it names.
pub struct CtxEntry {
    /// The daemon base URL.
    pub url: String,
}

/// The persisted context store: named bindings plus an optional current
/// context. Names are unique.
pub struct CliConfig {
    /// The name of the current context, if one is set.
    pub current: Option<String>,
    /// The named bindings, in insertion order, names unique.
    pub contexts: Vec<(String, CtxEntry)>,
}

/// The name → URL map described by a sequence of bindings; later
/// bindings win (well-formed stores have unique names).
pub open spec fn map_of(s: Seq<(String, CtxEntry)>) -> Map<Seq<char>, Seq<char>>
    decreases s.len(),
{
    if s.len() == 0 {
        Map::empty()
    } else {
        map_of(s.drop_last()).insert(s.last().0@, s.last().1.url@)
    }
}

/// Binding names are pairwise distinct.
pub open spec fn unique_names(s: Seq<(String, CtxEntry)>) -> bool {
    forall|i: int, j: int| 0 <= i < j < s.len() ==> s[i].0@ != s[j].0@
}

proof fn lemma_map_of_contains(s: Seq<(String, CtxEntry)>, k: Seq<char>)
    ensures
        map_of(s).contains_key(k) <==> exists|i: int| 0 <= i < s.len() && s[i].0@ == k,
    decreases s.len(),
{
    if s.len() > 0 {
        lemma_map_of_contains(s.drop_last(), k);
        if map_of(s).contains_key(k) {
            if s.last().0@ == k {
                assert(s[s.len() - 1].0@ == k);
            } else {
                let i = choose|i: int| 0 <= i < s.drop_last().len() && s.drop_last()[i].0@ == k;
                assert(s[i].0@ == k);
            }
        }
        if exists|i: int| 0 <= i < s.len() && s[i].0@ == k {
            let i = choose|i: int| 0 <= i < s.len() && s[i].0@ == k;
            if i < s.len() - 1 {
                assert(s.drop_last()[i].0@ == k);
            }
        }
    }
}

proof fn lemma_map_of_value(s: Seq<(String, CtxEntry)>, i: int)
    requires
        unique_names(s),
        0 <= i < s.len(),
    ensures
        map_of(s).contains_key(s[i].0@),
        map_of(s)[s[i].0@] == s[i].1.url@,
    decreases s.len(),
{
    lemma_map_of_contains(s, s[i].0@);
    if i < s.len() - 1 {
        assert(s.drop_last()[i] == s[i]);
        lemma_map_of_value(s.drop_last(), i);
        assert(s.last().0@ != s[i].0@);
    }
}

proof fn lemma_map_of_update(s: Seq<(String, CtxEntry)>, i: int, p: (String, CtxEntry))
    requires
        unique_names(s),
        0 <= i < s.len(),
        p.0@ == s[i].0@,
    ensures
        map_of(s.update(i, p)) =~= map_of(s).insert(p.0@, p.1.url@),
    decreases s.len(),
{
    let u = s.update(i, p);
    if i == s.len() - 1 {
        assert(u.drop_last() =~= s.drop_last());
        assert(u.last() == p);
    } else {
        assert(u.drop_last() =~= s.drop_last().update(i, p));
        assert(u.last() == s.last());
        assert(s.drop_last()[i] == s[i]);
        assert forall|m: int, n: int|
            0 <= m < n < s.drop_last().len() implies s.drop_last()[m].0@
            != s.drop_last()[n].0@ by {
            assert(s[m].0@ != s[n].0@);
        }
        lemma_map_of_update(s.drop_last(), i, p);
        assert(s.last().0@ != p.0@);
        assert(map_of(u) == map_of(s.drop_last()).insert(p.0@, p.1.url@).insert(
            s.last().0@,
            s.last().1.url@,
        ));
        assert(map_of(s.drop_last()).insert(p.0@, p.1.url@).insert(s.last().0@, s.last().1.url@)
            =~= map_of(s.drop_last()).insert(s.last().0@, s.last().1.url@).insert(
            p.0@,
            p.1.url@,
        ));
    }
}

proof fn lemma_map_of_remove(s: Seq<(String, CtxEntry)>, i: int)
    requires
        unique_names(s),
        0 <= i < s.len(),
    ensures
        map_of(s.remove(i)) =~= map_of(s).remove(s[i].0@),
    decreases s.len(),
{
    let k = s[i].0@;
    let u = s.remove(i);
    if i == s.len() - 1 {
        assert(u =~= s.drop_last());
        lemma_map_of_contains(s.drop_last(), k);
        assert(forall|j: int| 0 <= j < s.drop_last().len() ==> s.drop_last()[j] == s[j]);
        assert(!map_of(s.drop_last()).contains_key(k));
        assert(map_of(s.drop_last()) =~= map_of(s.drop_last()).insert(k, s[i].1.url@).remove(k));
    } else {
        assert(u.drop_last() =~= s.drop_last().remove(i));
        assert(u.last() == s.last());
        assert(s.drop_last()[i] == s[i]);
        assert forall|m: int, n: int|
            0 <= m < n < s.drop_last().len() implies s.drop_last()[m].0@
            != s.drop_last()[n].0@ by {
            assert(s[m].0@ != s[n].0@);
        }
        lemma_map_of_remove(s.drop_last(), i);
        assert(s.last().0@ != k);
        assert(map_of(u) == map_of(s.drop_last()).remove(k).insert(
            s.last().0@,
            s.last().1.url@,
        ));
        assert(map_of(s.drop_last()).remove(k).insert(s.last().0@, s.last().1.url@) =~= map_of(
            s.drop_last(),
        ).insert(s.last().0@, s.last().1.url@).remove(k));
    }
}

impl CliConfig {
    /// The store's name → URL map.
    pub open spec fn ctx_map(&self) -> Map<Seq<char>, Seq<char>> {
        map_of(self.contexts@)
    }

    /// The current context name, as characters.
    pub open spec fn current_name(&self) -> Option<Seq<char>> {
        match self.current {
            Some(c) => Some(c@),
            None => None,
        }
    }

    /// Well-formed store: binding names are unique.
    pub open spec fn wf(&self) -> bool {
        unique_names(self.contexts@)
    }

    /// An empty store: no bindings, no current context.
    pub fn new() -> (r: CliConfig)
        ensures
            r.wf(),
            r.ctx_map() == Map::<Seq<char>, Seq<char>>::empty(),
            r.current_name() is None,
    {
        CliConfig { current: None, contexts: Vec::new() }
    }

    fn ctx_index(&self, name: &str) -> (r: Option<usize>)
        ensures
            match r {
                Some(i) => i < self.contexts@.len() && self.contexts@[i as int].0@ == name@,
                None => forall|j: int|
                    0 <= j < self.contexts@.len() ==> self.contexts@[j].0@ != name@,
            },
    {
        let mut i: usize = 0;
        while i < self.contexts.len()
            invariant
                i <= self.contexts@.len(),
                forall|j: int| 0 <= j < i ==> self.contexts@[j].0@ != name@,
            decreases self.contexts@.len() - i,
        {
            if str_eq(self.contexts[i].0.as_str(), name) {
                return Some(i);
            }
            i += 1;
        }
        None
    }

    /// Whether the store has a binding for `name`.
    pub fn ctx_contains(&self, name: &str) -> (r: bool)
        ensures
            r == self.ctx_map().contains_key(name@),
    {
        proof {
            lemma_map_of_contains(self.contexts@, name@);
        }
        match self.ctx_index(name) {
            Some(_) => true,
            None => false,
        }
    }

    /// Adds or updates the binding for `name`; the context becomes
    /// current when `use_now` is set or no current context existed.
    pub fn ctx_add(&mut self, name: String, url: String, use_now: bool)
        requires
            old(self).wf(),
        ensures
            final(self).wf(),
            final(self).ctx_map() == old(self).ctx_map().insert(name@, url@),
            final(self).current_name() == if use_now || old(self).current_name() is None {
                Some(name@)
            } else {
                old(self).current_name()
            },
    {
        let entry = CtxEntry { url };
        let ghost s0 = self.contexts@;
        match self.ctx_index(name.as_str()) {
            Some(i) => {
                self.contexts.set(i, (name.clone(), entry));
                proof {
                    assert forall|m: int, n: int|
                        0 <= m < n < self.contexts@.len() implies self.contexts@[m].0@
                        != self.contexts@[n].0@ by {
                        assert(s0[m].0@ != s0[n].0@);
                    }
                    lemma_map_of_update(s0, i as int, self.contexts@[i as int]);
                }
            },
            None => {
                self.contexts.push((name.clone(), entry));
                proof {
                    assert(self.contexts@.drop_last() =~= s0);
                    assert(map_of(self.contexts@) =~= map_of(s0).insert(name@, entry.url@));
                }
            },
        }
        if use_now || self.current.is_none() {
            self.current = Some(name);
        }
    }

    /// Makes `name` the current context when it is bound; an unknown name
    /// leaves the store untouched and reports failure.
    pub fn ctx_use(&mut self, name: String) -> (r: bool)
        requires
            old(self).wf(),
        ensures
            final(self).wf(),
            final(self).contexts == old(self).contexts,
            final(self).ctx_map() == old(self).ctx_map(),
            r == old(self).ctx_map().contains_key(name@),
            r ==> final(self).current_name() == Some(name@),
            !r ==> final(self).current_name() == old(self).current_name(),
    {
        if self.ctx_contains(name.as_str()) {
            self.current = Some(name);
            true
        } else {
            false
        }
    }

    /// Removes the binding for `name` (a no-op when absent); a current
    /// context of that name is cleared.
    pub fn ctx_rm(&mut self, name: &str)
        requires
            old(self).wf(),
        ensures
            final(self).wf(),
            final(self).ctx_map() == old(self).ctx_map().remove(name@),
            final(self).current_name() == if old(self).current_name() == Some(name@) {
                None::<Seq<char>>
            } else {
                old(self).current_name()
            },
    {
        let ghost s0 = self.contexts@;
        match self.ctx_index(name) {
            Some(i) => {
                proof {
                    lemma_map_of_remove(s0, i as int);
                    assert forall|m: int, n: int|
                        0 <= m < n < s0.remove(i as int).len() implies s0.remove(i as int)[m].0@
                        != s0.remove(i as int)[n].0@ by {
                        if n < i {
                            assert(s0[m].0@ != s0[n].0@);
                        } else if m < i {
                            assert(s0[m].0@ != s0[n + 1].0@);
                        } else {
                            assert(s0[m + 1].0@ != s0[n + 1].0@);
                        }
                    }
                }
                self.contexts.remove(i);
            },
            None => {
                proof {
                    lemma_map_of_contains(s0, name@);
                    assert(map_of(s0) =~= map_of(s0).remove(name@));
                }
            },
        }
        let clear = match &self.current {
            Some(cur) => str_eq(cur.as_str(), name),
            None => false,
        };
        if clear {
            self.current = None;
        }
    }

    /// Looks up the URL bound to `name`.
    pub fn ctx_lookup(&self, name: &str) -> (r: Option<String>)
        requires
            self.wf(),
        ensures
            match r {
                Some(u) => self.ctx_map().contains_key(name@) && u@ == self.ctx_map()[name@],
                None => !self.ctx_map().contains_key(name@),
            },
    {
        proof {
            lemma_map_of_contains(self.contexts@, name@);
        }
        match self.ctx_index(name) {
            Some(i) => {
                proof {
                    lemma_map_of_value(self.contexts@, i as int);
                }
                Some(self.contexts[i].1.url.clone())
            },
            None => None,
        }
    }
}

/// Whether an optional source value is present and not whitespace-only.
pub open spec fn opt_nonblank(o: Option<Seq<char>>) -> bool {
    o matches Some(s) && !is_blank(s)
}

/// The URL contributed by the named-context environment variable: the
/// store's binding for the trimmed name, when the name is non-empty and
/// bound; an unbound name contributes nothing (the source is skipped).
pub open spec fn spec_ctx_source(env_ctx: Option<Seq<char>>, cfg: CliConfig) -> Option<Seq<char>> {
    match env_ctx {
        Some(n) => {
            if spec_trim(n).len() > 0 && cfg.ctx_map().contains_key(spec_trim(n)) {
                Some(cfg.ctx_map()[spec_trim(n)])
            } else {
                None
            }
        },
        None => None,
    }
}

/// The URL contributed by the store's current context, when one is set
/// and bound.
pub open spec fn spec_current_source(cfg: CliConfig) -> Option<Seq<char>> {
    match cfg.current_name() {
        Some(c) => {
            if cfg.ctx_map().contains_key(c) {
                Some(cfg.ctx_map()[c])
            } else {
                None
            }
        },
        None => None,
    }
}

/// The resolved daemon target: the highest-priority non-blank source
/// among the explicit override, the primary URL variable, the alias URL
/// variable, the named-context variable, the current context, and the
/// hard-coded default.
pub open spec fn spec_resolve(
    explicit: Option<Seq<char>>,
    env_url: Option<Seq<char>>,
    env_connect: Option<Seq<char>>,
    env_ctx: Option<Seq<char>>,
    cfg: CliConfig,
) -> Seq<char> {
    if opt_nonblank(explicit) {
        explicit->0
    } else if opt_nonblank(env_url) {
        env_url->0
    } else if opt_nonblank(env_connect) {
        env_connect->0
    } else {
        match spec_ctx_source(env_ctx, cfg) {
            Some(u) => u,
            None => match spec_current_source(cfg) {
                Some(u) => u,
                None => "http://127.0.0.1:8500"@,
            },
        }
    }
}

/// Resolves the daemon base URL from the priority chain of sources, the
/// explicit override highest, the hard-coded default last. Whitespace-only
/// values are treated as absent; a named context that is not in the store
/// is skipped, not an error. No network access is involved.
pub fn resolve_connect(
    cli_connect: Option<String>,
    env_url: Option<String>,
    env_connect: Option<String>,
    env_ctx: Option<String>,
    cfg: &CliConfig,
) -> (r: String)
    requires
        cfg.wf(),
    ensures
        r@ == spec_resolve(
            cli_connect.deep_view(),
            env_url.deep_view(),
            env_connect.deep_view(),
            env_ctx.deep_view(),
            *cfg,
        ),
{
    match cli_connect {
        Some(c) => {
            if !str_is_blank(c.as_str()) {
                return c;
            }
        },
        None => {},
    }
    match env_url {
        Some(u) => {
            if !str_is_blank(u.as_str()) {
                return u;
            }
        },
        None => {},
    }
    match env_connect {
        Some(u) => {
            if !str_is_blank(u.as_str()) {
                return u;
            }
        },
        None => {},
    }
    match env_ctx {
        Some(n) => {
            let t = trim_str(n.as_str());
            if !t.as_str().is_empty() {
                match cfg.ctx_lookup(t.as_str()) {
                    Some(u) => {
                        return u;
                    },
                    None => {},
                }
            }
        },
        None => {},
    }
    match &cfg.current {
        Some(cur) => {
            match cfg.ctx_lookup(cur.as_str()) {
                Some(u) => {
                    return u;
                },
                None => {},
            }
        },
        None => {},
    }
    "http://127.0.0.1:8500".to_owned()
}

/// The default on-disk location of the context store: under the
/// configuration home when one is set, else under `.config` in the home
/// directory; an error when neither directory is known.
pub fn default_config_path(xdg_config_home: Option<String>, home: Option<String>) -> (r: Result<
    String,
    String,
>)
    ensures
        xdg_config_home matches Some(x) ==> (r matches Ok(p) && p@ == x@ + "/rgbldk/config.toml"@),
        xdg_config_home is None ==> (match home {
            Some(h) => r matches Ok(p) && p@ == h@ + "/.config/rgbldk/config.toml"@,
            None => r matches Err(m) && m@
                == "cannot determine config dir (missing $HOME and $XDG_CONFIG_HOME)"@,
        }),
{
    match xdg_config_home {
        Some(x) => {
            let mut p = x;
            p.append("/rgbldk/config.toml");
            Ok(p)
        },
        None => match home {
            Some(h) => {
                let mut p = h;
                p.append("/.config/rgbldk/config.toml");
                Ok(p)
            },
            None => Err(
                "cannot determine config dir (missing $HOME and $XDG_CONFIG_HOME)".to_owned(),
            ),
        },
    }
}

} // verus!
