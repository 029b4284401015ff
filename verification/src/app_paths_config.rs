//! The user's configured data locations of the supported applications, as
//! an in-memory map from application name to path.

use vstd::prelude::*;

use crate::text::{chars_eq, str_chars};

verus! {

/// Application name to configured path.
#[derive(Debug)]
pub struct AppPathsConfig {
    pub paths: Vec<(String, String)>,
}

/// The first path held under an application name.
pub open spec fn spec_config_path(entries: Seq<(String, String)>, app: Seq<char>) -> Option<
    Seq<char>,
>
    decreases entries.len(),
{
    if entries.len() == 0 {
        None
    } else if entries[0].0@ == app {
        Some(entries[0].1@)
    } else {
        spec_config_path(entries.drop_first(), app)
    }
}

/// When position `i` holds the first entry under `app`, the lookup finds it.
proof fn lemma_config_path_at(entries: Seq<(String, String)>, app: Seq<char>, i: int)
    requires
        0 <= i < entries.len(),
        entries[i].0@ == app,
        forall|j: int| 0 <= j < i ==> (#[trigger] entries[j]).0@ != app,
    ensures
        spec_config_path(entries, app) == Some(entries[i].1@),
    decreases entries.len(),
{
    if i > 0 {
        assert(forall|j: int|
            0 <= j < entries.drop_first().len() ==> #[trigger] entries.drop_first()[j] == entries[
            j + 1]);
        lemma_config_path_at(entries.drop_first(), app, i - 1);
    }
}

/// When no entry holds the name, the lookup finds nothing.
proof fn lemma_config_path_none(entries: Seq<(String, String)>, app: Seq<char>)
    requires
        forall|j: int| 0 <= j < entries.len() ==> (#[trigger] entries[j]).0@ != app,
    ensures
        spec_config_path(entries, app) is None,
    decreases entries.len(),
{
    if entries.len() > 0 {
        assert(forall|j: int|
            0 <= j < entries.drop_first().len() ==> #[trigger] entries.drop_first()[j] == entries[
            j + 1]);
        lemma_config_path_none(entries.drop_first(), app);
    }
}

impl Default for AppPathsConfig {
    /// An empty configuration.
    fn default() -> (r: Self)
        ensures
            r.paths@.len() == 0,
    {
        AppPathsConfig { paths: Vec::new() }
    }
}

impl AppPathsConfig {
    /// The same configuration as `Default`.
    pub fn new() -> (r: Self)
        ensures
            r.paths@.len() == 0,
    {
        Self::default()
    }

    /// The configured path of an application, when one is set.
    pub fn get_path(&self, app: &str) -> (r: Option<String>)
        ensures
            match r {
                Some(p) => spec_config_path(self.paths@, app@) == Some(p@),
                None => spec_config_path(self.paths@, app@) is None,
            },
    {
        let mut i: usize = 0;
        while i < self.paths.len()
            invariant
                i <= self.paths@.len(),
                forall|j: int| 0 <= j < i ==> (#[trigger] self.paths@[j]).0@ != app@,
            decreases self.paths@.len() - i,
        {
            let matches = {
                let cand = str_chars(self.paths[i].0.as_str());
                let target = str_chars(app);
                chars_eq(cand.as_slice(), target.as_slice())
            };
            if matches {
                proof {
                    lemma_config_path_at(self.paths@, app@, i as int);
                }
                return Some(self.paths[i].1.clone());
            }
            i = i + 1;
        }
        proof {
            lemma_config_path_none(self.paths@, app@);
        }
        None
    }

    /// Configure an application's path, replacing an earlier one.
    pub fn set_path(&mut self, app: &str, path: &str)
        ensures
            spec_config_path(final(self).paths@, app@) == Some(path@),
    {
        let mut i: usize = 0;
        let n = self.paths.len();
        while i < n
            invariant
                n == self.paths@.len(),
                forall|j: int| 0 <= j < i ==> (#[trigger] self.paths@[j]).0@ != app@,
            decreases n - i,
        {
            let matches = {
                let cand = str_chars(self.paths[i].0.as_str());
                let target = str_chars(app);
                chars_eq(cand.as_slice(), target.as_slice())
            };
            if matches {
                let slot = crate::seq_util::vec_index_mut(&mut self.paths, i);
                slot.1 = path.to_owned();
                proof {
                    lemma_config_path_at(self.paths@, app@, i as int);
                }
                return ;
            }
            i = i + 1;
        }
        self.paths.push((app.to_owned(), path.to_owned()));
        proof {
            lemma_config_path_at(self.paths@, app@, self.paths@.len() - 1);
        }
    }

    /// Drop every entry of an application.
    pub fn remove_path(&mut self, app: &str)
        ensures
            final(self).paths@ == old(self).paths@.filter(|e: (String, String)| e.0@ != app@),
    {
        let ghost orig = self.paths@;
        let mut kept: Vec<(String, String)> = Vec::new();
        let mut i: usize = 0;
        proof {
            crate::seq_util::lemma_filter_empty(
                orig.take(0),
                |e: (String, String)| e.0@ != app@,
            );
            assert(orig.take(0) =~= Seq::<(String, String)>::empty());
        }
        while i < self.paths.len()
            invariant
                i <= orig.len(),
                self.paths@ == orig,
                kept@ == orig.take(i as int).filter(|e: (String, String)| e.0@ != app@),
            decreases orig.len() - i,
        {
            let keep = {
                let cand = str_chars(self.paths[i].0.as_str());
                let target = str_chars(app);
                !chars_eq(cand.as_slice(), target.as_slice())
            };
            proof {
                assert(orig.take(i + 1) =~= orig.take(i as int).push(orig[i as int]));
                crate::seq_util::lemma_filter_push(
                    orig.take(i as int),
                    |e: (String, String)| e.0@ != app@,
                    orig[i as int],
                );
            }
            if keep {
                let entry = (self.paths[i].0.clone(), self.paths[i].1.clone());
                kept.push(entry);
            }
            i = i + 1;
        }
        proof {
            assert(orig.take(orig.len() as int) =~= orig);
        }
        self.paths = kept;
    }

    /// Whether an application has a configured path.
    pub fn has_path(&self, app: &str) -> (r: bool)
        ensures
            r == (spec_config_path(self.paths@, app@) is Some),
    {
        match self.get_path(app) {
            Some(_) => true,
            None => false,
        }
    }

    /// Whether every one of the given applications has a configured path.
    pub fn is_configured(&self, apps: &Vec<String>) -> (r: bool)
        ensures
            r == forall|i: int|
                0 <= i < apps@.len() ==> spec_config_path(
                    self.paths@,
                    (#[trigger] apps@[i])@,
                ) is Some,
    {
        let mut i: usize = 0;
        while i < apps.len()
            invariant
                i <= apps@.len(),
                forall|j: int|
                    0 <= j < i ==> spec_config_path(
                        self.paths@,
                        (#[trigger] apps@[j])@,
                    ) is Some,
            decreases apps@.len() - i,
        {
            if !self.has_path(apps[i].as_str()) {
                return false;
            }
            i = i + 1;
        }
        true
    }

    /// The names of every configured application, in order.
    pub fn get_configured_apps(&self) -> (r: Vec<String>)
        ensures
            r@.len() == self.paths@.len(),
            forall|i: int| 0 <= i < r@.len() ==> r@[i]@ == (#[trigger] self.paths@[i]).0@,
    {
        let mut out: Vec<String> = Vec::new();
        let mut i: usize = 0;
        while i < self.paths.len()
            invariant
                i <= self.paths@.len(),
                out@.len() == i,
                forall|j: int| 0 <= j < i ==> out@[j]@ == (#[trigger] self.paths@[j]).0@,
            decreases self.paths@.len() - i,
        {
            out.push(self.paths[i].0.clone());
            i = i + 1;
        }
        out
    }
}

} // verus!
