//! The cache: session state that the program writes and reads back.
//!
//! A cache is always fully populated. What a stored document leaves out is
//! filled in from the defaults, field by field.

use crate::clock::{read_clock, UnixTime};
use crate::theme::{Antialias, Theme};
use vstd::prelude::*;

verus! {

/// The time between two checks for updates, in seconds: 24 hours.
pub const UPDATE_INTERVAL_SECS: u64 = 86_400;

/// How images are drawn.
#[derive(Debug, Clone, PartialEq, Eq, Structural)]
pub struct CacheImageSection {
    pub fit_stretches: bool,
    pub antialiasing: Antialias,
}

impl CacheImageSection {
    /// The section of a cache that was never written.
    pub open spec fn spec_default() -> CacheImageSection {
        CacheImageSection { fit_stretches: false, antialiasing: Antialias::Auto }
    }
}

impl Default for CacheImageSection {
    fn default() -> (section: CacheImageSection)
        ensures
            section == CacheImageSection::spec_default(),
    {
        CacheImageSection { fit_stretches: false, antialiasing: Antialias::Auto }
    }
}

/// Where the window was, and in which theme.
#[derive(Debug, Clone, PartialEq, Eq, Structural)]
pub struct CacheWindowSection {
    /// The only record of the theme: `true` for the dark one.
    pub dark: bool,
    pub win_w: u32,
    pub win_h: u32,
    pub win_x: i32,
    pub win_y: i32,
}

impl CacheWindowSection {
    /// The section of a cache that was never written.
    pub open spec fn spec_default() -> CacheWindowSection {
        CacheWindowSection { dark: false, win_w: 580, win_h: 558, win_x: 64, win_y: 64 }
    }
}

impl Default for CacheWindowSection {
    fn default() -> (section: CacheWindowSection)
        ensures
            section == CacheWindowSection::spec_default(),
    {
        CacheWindowSection { dark: false, win_w: 580, win_h: 558, win_x: 64, win_y: 64 }
    }
}

/// When the program last looked for updates.
#[derive(Debug, Clone, PartialEq, Eq, Structural)]
pub struct CacheUpdateSection {
    /// Seconds since the Unix epoch.
    pub last_checked: u64,
}

impl CacheUpdateSection {
    /// The section of a cache that was never written.
    pub open spec fn spec_default() -> CacheUpdateSection {
        CacheUpdateSection { last_checked: 0 }
    }

    /// Whether more than 24 hours lie between `last_checked` and `now`. A
    /// clock that stands before `last_checked`, or before the epoch, counts
    /// as no time elapsed.
    pub open spec fn spec_update_check_needed_at(&self, now: Option<UnixTime>) -> bool {
        match now {
            None => false,
            Some(now) => {
                let elapsed = now.secs - self.last_checked;
                elapsed > UPDATE_INTERVAL_SECS || (elapsed == UPDATE_INTERVAL_SECS && now.nanos
                    > 0)
            },
        }
    }

    /// The section after a check at `now`: the whole seconds of `now`, or
    /// zero where the clock cannot be read relative to the epoch.
    pub open spec fn spec_stamped(now: Option<UnixTime>) -> CacheUpdateSection {
        match now {
            None => CacheUpdateSection { last_checked: 0 },
            Some(now) => CacheUpdateSection { last_checked: now.secs },
        }
    }

    /// Whether a check for updates is due when the clock reads `now`.
    pub fn update_check_needed_at(&self, now: Option<UnixTime>) -> (needed: bool)
        ensures
            needed == self.spec_update_check_needed_at(now),
    {
        match now {
            None => false,
            Some(now) => {
                if now.secs < self.last_checked {
                    false
                } else {
                    let elapsed: u64 = now.secs - self.last_checked;
                    elapsed > UPDATE_INTERVAL_SECS || (elapsed == UPDATE_INTERVAL_SECS
                        && now.nanos > 0)
                }
            },
        }
    }

    /// Whether a check for updates is due by the system clock.
    pub fn update_check_needed(&self) -> (needed: bool)
        ensures
            exists|now: Option<UnixTime>| needed == self.spec_update_check_needed_at(now),
            needed ==> self.last_checked + UPDATE_INTERVAL_SECS <= u64::MAX,
    {
        let now = read_clock();
        self.update_check_needed_at(now)
    }

    /// Records a check for updates made when the clock reads `now`.
    pub fn set_update_check_time_at(&mut self, now: Option<UnixTime>)
        ensures
            *final(self) == CacheUpdateSection::spec_stamped(now),
    {
        self.last_checked = match now {
            None => 0,
            Some(now) => now.secs,
        };
    }

    /// Records a check for updates made now, by the system clock.
    pub fn set_update_check_time(&mut self)
        ensures
            exists|now: Option<UnixTime>| *final(self) == CacheUpdateSection::spec_stamped(now),
    {
        let now = read_clock();
        self.set_update_check_time_at(now);
    }

    /// A check is due once the clock is more than 24 hours past the last one,
    /// by any fraction of a second, and is not due while it is at most 24
    /// hours past it or behind it.
    pub proof fn lemma_update_schedule(self, now: UnixTime)
        ensures
            now.secs > self.last_checked + UPDATE_INTERVAL_SECS
                ==> self.spec_update_check_needed_at(Some(now)),
            now.secs == self.last_checked + UPDATE_INTERVAL_SECS
                ==> self.spec_update_check_needed_at(Some(now)) == (now.nanos > 0),
            now.secs < self.last_checked + UPDATE_INTERVAL_SECS
                ==> !self.spec_update_check_needed_at(Some(now)),
            now.secs <= self.last_checked ==> !self.spec_update_check_needed_at(Some(now)),
            !self.spec_update_check_needed_at(None),
    {
    }

    /// Right after a check has been recorded, none is due.
    pub proof fn lemma_stamped_not_due(now: Option<UnixTime>)
        ensures
            !CacheUpdateSection::spec_stamped(now).spec_update_check_needed_at(now),
    {
    }
}

impl Default for CacheUpdateSection {
    fn default() -> (section: CacheUpdateSection)
        ensures
            section == CacheUpdateSection::spec_default(),
    {
        CacheUpdateSection { last_checked: 0 }
    }
}

/// The window section of a stored cache, each field as far as it was stored.
#[derive(Debug, Clone, PartialEq, Eq, Structural)]
pub struct IncompleteWindowSection {
    pub dark: Option<bool>,
    pub win_w: Option<u32>,
    pub win_h: Option<u32>,
    pub win_x: Option<i32>,
    pub win_y: Option<i32>,
}

/// The update section of a stored cache, each field as far as it was stored.
#[derive(Debug, Clone, PartialEq, Eq, Structural)]
pub struct IncompleteUpdateSection {
    pub last_checked: Option<u64>,
}

/// The image section of a stored cache, each field as far as it was stored.
#[derive(Debug, Clone, PartialEq, Eq, Structural)]
pub struct IncompleteImageSection {
    pub fit_stretches: Option<bool>,
    pub antialiasing: Option<Antialias>,
}

/// A stored cache, each section as far as it was stored.
#[derive(Debug, Clone, PartialEq, Eq, Structural)]
pub struct IncompleteCache {
    pub window: Option<IncompleteWindowSection>,
    pub updates: Option<IncompleteUpdateSection>,
    pub image: Option<IncompleteImageSection>,
}

/// `stored` where it is there, `default` where it is not.
pub open spec fn stored_or<T>(stored: Option<T>, default: T) -> T {
    match stored {
        Some(value) => value,
        None => default,
    }
}

impl IncompleteWindowSection {
    /// A section of which nothing was stored.
    pub open spec fn spec_empty() -> IncompleteWindowSection {
        IncompleteWindowSection { dark: None, win_w: None, win_h: None, win_x: None, win_y: None }
    }

    /// The section with every missing field taken from the defaults.
    pub open spec fn filled(self) -> CacheWindowSection {
        let default = CacheWindowSection::spec_default();
        CacheWindowSection {
            dark: stored_or(self.dark, default.dark),
            win_w: stored_or(self.win_w, default.win_w),
            win_h: stored_or(self.win_h, default.win_h),
            win_x: stored_or(self.win_x, default.win_x),
            win_y: stored_or(self.win_y, default.win_y),
        }
    }
}

impl Default for IncompleteWindowSection {
    fn default() -> (section: IncompleteWindowSection)
        ensures
            section == IncompleteWindowSection::spec_empty(),
    {
        IncompleteWindowSection { dark: None, win_w: None, win_h: None, win_x: None, win_y: None }
    }
}

impl IncompleteUpdateSection {
    /// A section of which nothing was stored.
    pub open spec fn spec_empty() -> IncompleteUpdateSection {
        IncompleteUpdateSection { last_checked: None }
    }

    /// The section with every missing field taken from the defaults.
    pub open spec fn filled(self) -> CacheUpdateSection {
        CacheUpdateSection {
            last_checked: stored_or(
                self.last_checked,
                CacheUpdateSection::spec_default().last_checked,
            ),
        }
    }
}

impl Default for IncompleteUpdateSection {
    fn default() -> (section: IncompleteUpdateSection)
        ensures
            section == IncompleteUpdateSection::spec_empty(),
    {
        IncompleteUpdateSection { last_checked: None }
    }
}

impl IncompleteImageSection {
    /// A section of which nothing was stored.
    pub open spec fn spec_empty() -> IncompleteImageSection {
        IncompleteImageSection { fit_stretches: None, antialiasing: None }
    }

    /// The section with every missing field taken from the defaults.
    pub open spec fn filled(self) -> CacheImageSection {
        let default = CacheImageSection::spec_default();
        CacheImageSection {
            fit_stretches: stored_or(self.fit_stretches, default.fit_stretches),
            antialiasing: stored_or(self.antialiasing, default.antialiasing),
        }
    }
}

impl Default for IncompleteImageSection {
    fn default() -> (section: IncompleteImageSection)
        ensures
            section == IncompleteImageSection::spec_empty(),
    {
        IncompleteImageSection { fit_stretches: None, antialiasing: None }
    }
}

impl Default for IncompleteCache {
    fn default() -> (stored: IncompleteCache)
        ensures
            stored == IncompleteCache::spec_empty(),
    {
        IncompleteCache { window: None, updates: None, image: None }
    }
}

impl IncompleteCache {
    /// A cache of which nothing was stored.
    pub open spec fn spec_empty() -> IncompleteCache {
        IncompleteCache { window: None, updates: None, image: None }
    }

    /// The cache with every missing section and field taken from the
    /// defaults.
    pub open spec fn filled(self) -> Cache {
        Cache {
            window: match self.window {
                Some(window) => window.filled(),
                None => CacheWindowSection::spec_default(),
            },
            updates: match self.updates {
                Some(updates) => updates.filled(),
                None => CacheUpdateSection::spec_default(),
            },
            image: match self.image {
                Some(image) => image.filled(),
                None => CacheImageSection::spec_default(),
            },
        }
    }
}

impl From<IncompleteWindowSection> for CacheWindowSection {
    fn from(stored: IncompleteWindowSection) -> (section: CacheWindowSection) {
        let default = CacheWindowSection::default();
        CacheWindowSection {
            dark: stored.dark.unwrap_or(default.dark),
            win_w: stored.win_w.unwrap_or(default.win_w),
            win_h: stored.win_h.unwrap_or(default.win_h),
            win_x: stored.win_x.unwrap_or(default.win_x),
            win_y: stored.win_y.unwrap_or(default.win_y),
        }
    }
}

impl vstd::std_specs::convert::FromSpecImpl<IncompleteWindowSection> for CacheWindowSection {
    open spec fn obeys_from_spec() -> bool {
        true
    }

    open spec fn from_spec(stored: IncompleteWindowSection) -> CacheWindowSection {
        stored.filled()
    }
}

impl From<IncompleteUpdateSection> for CacheUpdateSection {
    fn from(stored: IncompleteUpdateSection) -> (section: CacheUpdateSection) {
        let default = CacheUpdateSection::default();
        CacheUpdateSection { last_checked: stored.last_checked.unwrap_or(default.last_checked) }
    }
}

impl vstd::std_specs::convert::FromSpecImpl<IncompleteUpdateSection> for CacheUpdateSection {
    open spec fn obeys_from_spec() -> bool {
        true
    }

    open spec fn from_spec(stored: IncompleteUpdateSection) -> CacheUpdateSection {
        stored.filled()
    }
}

impl From<IncompleteImageSection> for CacheImageSection {
    fn from(stored: IncompleteImageSection) -> (section: CacheImageSection) {
        let default = CacheImageSection::default();
        CacheImageSection {
            fit_stretches: stored.fit_stretches.unwrap_or(default.fit_stretches),
            antialiasing: stored.antialiasing.unwrap_or(default.antialiasing),
        }
    }
}

impl vstd::std_specs::convert::FromSpecImpl<IncompleteImageSection> for CacheImageSection {
    open spec fn obeys_from_spec() -> bool {
        true
    }

    open spec fn from_spec(stored: IncompleteImageSection) -> CacheImageSection {
        stored.filled()
    }
}

/// The whole cache.
#[derive(Debug, Clone, PartialEq, Eq, Structural)]
pub struct Cache {
    pub window: CacheWindowSection,
    pub updates: CacheUpdateSection,
    pub image: CacheImageSection,
}

impl Default for Cache {
    fn default() -> (cache: Cache)
        ensures
            cache == Cache::spec_default(),
    {
        Cache {
            window: CacheWindowSection::default(),
            updates: CacheUpdateSection::default(),
            image: CacheImageSection::default(),
        }
    }
}

impl From<IncompleteCache> for Cache {
    fn from(stored: IncompleteCache) -> (cache: Cache) {
        Cache {
            window: match stored.window {
                Some(window) => CacheWindowSection::from(window),
                None => CacheWindowSection::default(),
            },
            updates: match stored.updates {
                Some(updates) => CacheUpdateSection::from(updates),
                None => CacheUpdateSection::default(),
            },
            image: match stored.image {
                Some(image) => CacheImageSection::from(image),
                None => CacheImageSection::default(),
            },
        }
    }
}

impl vstd::std_specs::convert::FromSpecImpl<IncompleteCache> for Cache {
    open spec fn obeys_from_spec() -> bool {
        true
    }

    open spec fn from_spec(stored: IncompleteCache) -> Cache {
        stored.filled()
    }
}

impl Cache {
    /// The cache of a program that has never stored one.
    pub open spec fn spec_default() -> Cache {
        Cache {
            window: CacheWindowSection::spec_default(),
            updates: CacheUpdateSection::spec_default(),
            image: CacheImageSection::spec_default(),
        }
    }

    /// The theme that the window section records.
    pub open spec fn spec_theme(&self) -> Theme {
        if self.window.dark {
            Theme::Dark
        } else {
            Theme::Light
        }
    }

    /// The cache with `theme` recorded and nothing else changed.
    pub open spec fn with_theme(self, theme: Theme) -> Cache {
        Cache {
            window: CacheWindowSection { dark: theme == Theme::Dark, ..self.window },
            ..self
        }
    }

    /// The cache as a stored one in which nothing is missing.
    pub open spec fn as_stored(self) -> IncompleteCache {
        IncompleteCache {
            window: Some(
                IncompleteWindowSection {
                    dark: Some(self.window.dark),
                    win_w: Some(self.window.win_w),
                    win_h: Some(self.window.win_h),
                    win_x: Some(self.window.win_x),
                    win_y: Some(self.window.win_y),
                },
            ),
            updates: Some(IncompleteUpdateSection { last_checked: Some(self.updates.last_checked) }),
            image: Some(
                IncompleteImageSection {
                    fit_stretches: Some(self.image.fit_stretches),
                    antialiasing: Some(self.image.antialiasing),
                },
            ),
        }
    }

    /// The theme of the user interface.
    pub fn theme(&self) -> (theme: Theme)
        ensures
            theme == self.spec_theme(),
            (theme == Theme::Dark) == self.window.dark,
    {
        if self.window.dark {
            Theme::Dark
        } else {
            Theme::Light
        }
    }

    /// Records `theme` in the window section.
    pub fn set_theme(&mut self, theme: Theme)
        ensures
            *final(self) == old(self).with_theme(theme),
            final(self).spec_theme() == theme,
    {
        self.window.dark = theme == Theme::Dark;
    }

    /// Reading the theme after setting it gives the theme that was set.
    pub proof fn lemma_theme_after_set(self, theme: Theme)
        ensures
            self.with_theme(theme).spec_theme() == theme,
    {
    }

    /// Setting the theme that the cache already has changes nothing.
    pub proof fn lemma_set_own_theme(self)
        ensures
            self.with_theme(self.spec_theme()) == self,
    {
    }

    /// A stored cache with nothing in it fills to the default cache.
    pub proof fn lemma_empty_fills_to_default()
        ensures
            IncompleteCache::spec_empty().filled() == Cache::spec_default(),
            (IncompleteCache {
                window: Some(IncompleteWindowSection::spec_empty()),
                updates: Some(IncompleteUpdateSection::spec_empty()),
                image: Some(IncompleteImageSection::spec_empty()),
            }).filled() == Cache::spec_default(),
    {
    }

    /// Filling a stored cache in which nothing is missing changes no field.
    pub proof fn lemma_full_fills_to_itself(self)
        ensures
            self.as_stored().filled() == self,
    {
    }
}

} // verus!
