//! The settings service: the live application settings and the user's clean
//! rules. Persistence is the surrounding application's business; this
//! service owns the values and the rules' invariants.

use vstd::prelude::*;

use crate::rule_engine::copy_rule;
use crate::seq_util::{lemma_filter_empty, lemma_filter_push, vec_index_mut};
use crate::settings_models::{AppSettings, CleanRule};
use crate::error::DiskTidyError;
use crate::text::{chars_eq, str_chars};

verus! {

/// A partial update: only the fields set are changed.
#[derive(Debug, Clone)]
pub struct SettingsUpdate {
    pub auto_scan: Option<bool>,
    pub scan_on_startup: Option<bool>,
    pub default_scan_mode: Option<crate::scan::ScanMode>,
    pub default_clean_mode: Option<crate::cleaner_models::CleanMode>,
    pub confirm_before_clean: Option<bool>,
    pub show_notifications: Option<bool>,
    pub language: Option<String>,
    pub theme: Option<String>,
}

/// A field-by-field copy of the settings.
pub fn copy_settings(s: &AppSettings) -> (r: AppSettings)
    ensures
        r == *s,
{
    AppSettings {
        auto_scan: s.auto_scan,
        scan_on_startup: s.scan_on_startup,
        default_scan_mode: s.default_scan_mode,
        default_clean_mode: s.default_clean_mode,
        confirm_before_clean: s.confirm_before_clean,
        show_notifications: s.show_notifications,
        language: s.language.clone(),
        theme: s.theme.clone(),
    }
}

/// The settings applied by a partial update.
pub open spec fn spec_apply_update(s: AppSettings, u: SettingsUpdate) -> AppSettings {
    AppSettings {
        auto_scan: if u.auto_scan is Some {
            u.auto_scan->Some_0
        } else {
            s.auto_scan
        },
        scan_on_startup: if u.scan_on_startup is Some {
            u.scan_on_startup->Some_0
        } else {
            s.scan_on_startup
        },
        default_scan_mode: if u.default_scan_mode is Some {
            u.default_scan_mode->Some_0
        } else {
            s.default_scan_mode
        },
        default_clean_mode: if u.default_clean_mode is Some {
            u.default_clean_mode->Some_0
        } else {
            s.default_clean_mode
        },
        confirm_before_clean: if u.confirm_before_clean is Some {
            u.confirm_before_clean->Some_0
        } else {
            s.confirm_before_clean
        },
        show_notifications: if u.show_notifications is Some {
            u.show_notifications->Some_0
        } else {
            s.show_notifications
        },
        language: if u.language is Some {
            u.language->Some_0
        } else {
            s.language
        },
        theme: if u.theme is Some {
            u.theme->Some_0
        } else {
            s.theme
        },
    }
}

/// The settings service.
pub struct SettingsManager {
    settings: AppSettings,
    config_path: String,
    rules: Vec<CleanRule>,
}

impl SettingsManager {
    pub closed spec fn settings_view(&self) -> AppSettings {
        self.settings
    }

    pub closed spec fn rules_view(&self) -> Seq<CleanRule> {
        self.rules@
    }

    pub closed spec fn config_path_view(&self) -> Seq<char> {
        self.config_path@
    }

    /// A service holding the default settings and no rules.
    pub fn new() -> (r: SettingsManager)
        ensures
            !r.settings_view().auto_scan,
            r.settings_view().confirm_before_clean,
            r.settings_view().language@ == "zh-CN"@,
            r.rules_view().len() == 0,
    {
        SettingsManager {
            settings: AppSettings::default(),
            config_path: "settings.json".to_string(),
            rules: Vec::new(),
        }
    }

    /// A service remembering the configuration path it will be persisted
    /// under, holding the default settings and no rules.
    pub fn with_path(config_path: String) -> (r: SettingsManager)
        ensures
            !r.settings_view().auto_scan,
            r.settings_view().confirm_before_clean,
            r.settings_view().language@ == "zh-CN"@,
            r.rules_view().len() == 0,
            r.config_path_view() == config_path@,
    {
        SettingsManager { settings: AppSettings::default(), config_path, rules: Vec::new() }
    }

    /// A snapshot of the current settings.
    pub fn get_settings(&self) -> (r: AppSettings)
        ensures
            r == self.settings_view(),
    {
        copy_settings(&self.settings)
    }

    /// The configuration path this service was created for.
    pub fn get_config_path(&self) -> (r: &str)
        ensures
            r@ == self.config_path_view(),
    {
        self.config_path.as_str()
    }

    /// Replace the settings wholesale; the new settings are handed back.
    pub fn update_settings(&mut self, new_settings: AppSettings) -> (r: Result<
        AppSettings,
        DiskTidyError,
    >)
        ensures
            final(self).settings_view() == new_settings,
            final(self).rules_view() == old(self).rules_view(),
            final(self).config_path_view() == old(self).config_path_view(),
            r matches Ok(s) && s == new_settings,
    {
        let snapshot = copy_settings(&new_settings);
        self.settings = new_settings;
        Ok(snapshot)
    }

    /// Apply a partial update; the resulting settings are handed back.
    #[verifier::rlimit(50)]
    pub fn update_settings_partial(&mut self, updates: SettingsUpdate) -> (r: Result<
        AppSettings,
        DiskTidyError,
    >)
        ensures
            final(self).settings_view() == spec_apply_update(old(self).settings_view(), updates),
            final(self).rules_view() == old(self).rules_view(),
            final(self).config_path_view() == old(self).config_path_view(),
            r matches Ok(s) && s == final(self).settings_view(),
    {
        match updates.auto_scan {
            Some(v) => {
                self.settings.auto_scan = v;
            },
            None => {},
        }
        match updates.scan_on_startup {
            Some(v) => {
                self.settings.scan_on_startup = v;
            },
            None => {},
        }
        match updates.default_scan_mode {
            Some(v) => {
                self.settings.default_scan_mode = v;
            },
            None => {},
        }
        match updates.default_clean_mode {
            Some(v) => {
                self.settings.default_clean_mode = v;
            },
            None => {},
        }
        match updates.confirm_before_clean {
            Some(v) => {
                self.settings.confirm_before_clean = v;
            },
            None => {},
        }
        match updates.show_notifications {
            Some(v) => {
                self.settings.show_notifications = v;
            },
            None => {},
        }
        match updates.language {
            Some(v) => {
                self.settings.language = v;
            },
            None => {},
        }
        match updates.theme {
            Some(v) => {
                self.settings.theme = v;
            },
            None => {},
        }
        let snapshot = copy_settings(&self.settings);
        Ok(snapshot)
    }

    /// Put the default settings back; they are handed back. Every field
    /// returns to its default, whatever was set before.
    pub fn reset_settings(&mut self) -> (r: Result<AppSettings, DiskTidyError>)
        ensures
            !final(self).settings_view().auto_scan,
            !final(self).settings_view().scan_on_startup,
            final(self).settings_view().default_scan_mode == crate::scan::ScanMode::Quick,
            final(self).settings_view().default_clean_mode
                == crate::cleaner_models::CleanMode::MoveToTrash,
            final(self).settings_view().confirm_before_clean,
            final(self).settings_view().show_notifications,
            final(self).settings_view().language@ == "zh-CN"@,
            final(self).settings_view().theme@ == "dark"@,
            final(self).rules_view() == old(self).rules_view(),
            final(self).config_path_view() == old(self).config_path_view(),
            r matches Ok(s) && s == final(self).settings_view(),
    {
        self.settings = AppSettings::default();
        let snapshot = copy_settings(&self.settings);
        Ok(snapshot)
    }

    /// A snapshot of the rules, in order.
    pub fn get_rules(&self) -> (r: Vec<CleanRule>)
        ensures
            r@ == self.rules_view(),
    {
        let mut out: Vec<CleanRule> = Vec::new();
        let mut i: usize = 0;
        while i < self.rules.len()
            invariant
                i <= self.rules@.len(),
                out@ == self.rules@.take(i as int),
            decreases self.rules@.len() - i,
        {
            let copy = copy_rule(&self.rules[i]);
            out.push(copy);
            proof {
                assert(self.rules@.take(i + 1) =~= self.rules@.take(i as int).push(
                    self.rules@[i as int],
                ));
            }
            i = i + 1;
        }
        proof {
            assert(self.rules@.take(self.rules@.len() as int) =~= self.rules@);
        }
        out
    }

    /// Append a rule; it is handed back.
    pub fn add_rule(&mut self, rule: CleanRule) -> (r: Result<CleanRule, DiskTidyError>)
        ensures
            final(self).rules_view() == old(self).rules_view().push(rule),
            final(self).settings_view() == old(self).settings_view(),
            final(self).config_path_view() == old(self).config_path_view(),
            r matches Ok(given) && given == rule,
    {
        let snapshot = copy_rule(&rule);
        self.rules.push(rule);
        Ok(snapshot)
    }

    /// Remove every rule with this id; reports whether any rule left.
    pub fn remove_rule(&mut self, rule_id: &str) -> (r: Result<bool, DiskTidyError>)
        ensures
            final(self).rules_view() == old(self).rules_view().filter(
                |rule: CleanRule| rule.id@ != rule_id@,
            ),
            final(self).settings_view() == old(self).settings_view(),
            final(self).config_path_view() == old(self).config_path_view(),
            r matches Ok(removed) && removed == (final(self).rules_view().len() != old(
                self
            ).rules_view().len()),
    {
        let ghost orig = self.rules@;
        let initial_len = self.rules.len();
        let mut kept: Vec<CleanRule> = Vec::new();
        let mut i: usize = 0;
        proof {
            lemma_filter_empty(orig.take(0), |rule: CleanRule| rule.id@ != rule_id@);
            assert(orig.take(0) =~= Seq::<CleanRule>::empty());
        }
        while i < self.rules.len()
            invariant
                i <= orig.len(),
                self.rules@ == orig,
                self.settings == old(self).settings,
                self.config_path == old(self).config_path,
                kept@ == orig.take(i as int).filter(|rule: CleanRule| rule.id@ != rule_id@),
            decreases orig.len() - i,
        {
            let keep = {
                let cand = str_chars(self.rules[i].id.as_str());
                let target = str_chars(rule_id);
                !chars_eq(cand.as_slice(), target.as_slice())
            };
            proof {
                assert(orig.take(i + 1) =~= orig.take(i as int).push(orig[i as int]));
                lemma_filter_push(
                    orig.take(i as int),
                    |rule: CleanRule| rule.id@ != rule_id@,
                    orig[i as int],
                );
            }
            if keep {
                let copy = copy_rule(&self.rules[i]);
                kept.push(copy);
            }
            i = i + 1;
        }
        proof {
            assert(orig.take(orig.len() as int) =~= orig);
        }
        self.rules = kept;
        Ok(self.rules.len() != initial_len)
    }

    /// Replace the first rule sharing the new rule's id; it is handed back
    /// when one was found.
    pub fn update_rule(&mut self, rule: CleanRule) -> (r: Result<Option<CleanRule>, DiskTidyError>)
        ensures
            final(self).rules_view().len() == old(self).rules_view().len(),
            final(self).settings_view() == old(self).settings_view(),
            final(self).config_path_view() == old(self).config_path_view(),
            r matches Ok(found) && (found is Some ==> exists|i: int|
                0 <= i < old(self).rules_view().len() && final(self).rules_view() == old(
                    self
                ).rules_view().update(i, rule)),
            r matches Ok(found) && (found is None ==> final(self).rules_view() == old(
                self
            ).rules_view()),
    {
        let mut i: usize = 0;
        while i < self.rules.len()
            invariant
                i <= self.rules@.len(),
                self == old(self),
            decreases self.rules@.len() - i,
        {
            if self.rules[i].id.eq(&rule.id) {
                let snapshot = copy_rule(&rule);
                let slot = vec_index_mut(&mut self.rules, i);
                *slot = rule;
                proof {
                    assert(0 <= i < old(self).rules_view().len());
                    assert(self.rules_view() =~= old(self).rules_view().update(i as int, rule));
                }
                return Ok(Some(snapshot));
            }
            i = i + 1;
        }
        Ok(None)
    }

    /// The first rule with this id, when one exists.
    pub fn get_rule_by_id(&self, rule_id: &str) -> (r: Option<CleanRule>)
        ensures
            match r {
                Some(rule) => exists|i: int|
                    0 <= i < self.rules_view().len() && (#[trigger] self.rules_view()[i]) == rule
                        && rule.id@ == rule_id@,
                None => forall|i: int|
                    0 <= i < self.rules_view().len() ==> (#[trigger] self.rules_view()[i]).id@
                        != rule_id@,
            },
    {
        let mut i: usize = 0;
        while i < self.rules.len()
            invariant
                i <= self.rules@.len(),
                forall|j: int| 0 <= j < i ==> (#[trigger] self.rules@[j]).id@ != rule_id@,
            decreases self.rules@.len() - i,
        {
            let matches = {
                let cand = str_chars(self.rules[i].id.as_str());
                let target = str_chars(rule_id);
                chars_eq(cand.as_slice(), target.as_slice())
            };
            if matches {
                let copy = copy_rule(&self.rules[i]);
                proof {
                    assert((#[trigger] self.rules_view()[i as int]).id@ == rule_id@);
                }
                return Some(copy);
            }
            i = i + 1;
        }
        None
    }

    /// Flip the enabled flag of the first rule with this id; the updated
    /// rule is handed back when one was found.
    pub fn toggle_rule(&mut self, rule_id: &str) -> (r: Result<Option<CleanRule>, DiskTidyError>)
        ensures
            final(self).rules_view().len() == old(self).rules_view().len(),
            final(self).settings_view() == old(self).settings_view(),
            final(self).config_path_view() == old(self).config_path_view(),
            r matches Ok(found) && (found is None ==> final(self).rules_view() == old(
                self
            ).rules_view()),
    {
        let mut i: usize = 0;
        while i < self.rules.len()
            invariant
                i <= self.rules@.len(),
                self == old(self),
            decreases self.rules@.len() - i,
        {
            let matches = {
                let cand = str_chars(self.rules[i].id.as_str());
                let target = str_chars(rule_id);
                chars_eq(cand.as_slice(), target.as_slice())
            };
            if matches {
                let slot = vec_index_mut(&mut self.rules, i);
                slot.enabled = !slot.enabled;
                let updated = copy_rule(&self.rules[i]);
                return Ok(Some(updated));
            }
            i = i + 1;
        }
        Ok(None)
    }

    /// Replace settings and rules together, as an import hands them in.
    pub fn replace_all(&mut self, settings: AppSettings, rules: Vec<CleanRule>)
        ensures
            final(self).settings_view() == settings,
            final(self).rules_view() == rules@,
            final(self).config_path_view() == old(self).config_path_view(),
    {
        self.settings = settings;
        self.rules = rules;
    }
}

impl Default for SettingsManager {
    /// The same service as `new`.
    fn default() -> (r: Self)
        ensures
            !r.settings_view().auto_scan,
            r.rules_view().len() == 0,
    {
        Self::new()
    }
}

} // verus!
