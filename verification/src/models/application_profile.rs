//! Application profiles: default behavior of known applications, how their
//! windows are recognised, custom handling rules, and the set of profiles
//! with the built-in defaults.
//!
//! Free-form parameters and configuration overrides are kept as JSON text;
//! times are milliseconds since the Unix epoch.

use vstd::prelude::*;
use crate::ids::{new_id, now_millis};
use crate::models::window_rule::{PositioningRule, FocusBehavior, opt_view};
use crate::text::{is_blank, str_is_blank, str_equal, contains_seq, str_contains, owned, push_str};

verus! {

/// Application window behavior characteristics.
#[derive(Debug, Clone, Copy, PartialEq, Eq, Structural)]
pub enum WindowBehavior {
    /// Standard window that follows tiling rules
    Standard,
    /// Always stays on top of other windows
    AlwaysOnTop,
    /// Cannot be tiled (e.g., system dialogs)
    NonTileable,
    /// Transient window (tooltips, pop-ups)
    Transient,
    /// Modal dialog
    Modal,
    /// Utility window (palette, toolbar)
    Utility,
}

/// How the application handles focus changes.
#[derive(Debug, Clone, Copy, PartialEq, Eq, Structural)]
pub enum FocusStealingBehavior {
    /// Normal focus behavior
    Normal,
    /// Application steals focus aggressively
    Aggressive,
    /// Application never steals focus
    Passive,
    /// Application focuses new windows but not existing ones
    NewWindowsOnly,
}

/// Window detection strategies for identifying app windows.
#[derive(Debug, Clone, Copy, PartialEq, Eq, Structural)]
pub enum WindowDetectionStrategy {
    /// Use bundle identifier only
    BundleId,
    /// Use process name
    ProcessName,
    /// Use window class information
    WindowClass,
    /// Use combination of multiple strategies
    Combined,
}

/// Rules for detecting windows belonging to an application.
#[derive(Debug, Clone)]
pub struct WindowDetectionRule {
    /// Detection strategy to use
    pub strategy: WindowDetectionStrategy,
    /// Primary identifier (bundle ID, process name, etc.)
    pub primary_identifier: String,
    /// Secondary identifiers for Combined strategy
    pub secondary_identifiers: Vec<String>,
    /// Regex pattern for window titles (optional)
    pub title_pattern: Option<String>,
    /// Regex pattern for window class names (optional)
    pub class_pattern: Option<String>,
}

/// Compatibility levels for applications.
#[derive(Debug, Clone, Copy, PartialEq, Eq, Structural)]
pub enum CompatibilityLevel {
    /// Fully compatible, all features work
    Full,
    /// Mostly compatible with minor issues
    Good,
    /// Basic compatibility with some limitations
    Limited,
    /// Compatibility issues, may not work properly
    Poor,
    /// Incompatible with tiling window manager
    Incompatible,
}

/// Compatibility notes and known issues.
#[derive(Debug, Clone)]
pub struct CompatibilityInfo {
    /// Known compatibility level
    pub level: CompatibilityLevel,
    /// Specific issues or limitations
    pub issues: Vec<String>,
    /// Workarounds or special handling required
    pub workarounds: Vec<String>,
    /// Version information if compatibility is version-specific
    pub version_notes: Option<String>,
}

/// Custom actions for application-specific handling.
#[derive(Debug, Clone, PartialEq, Eq)]
pub enum CustomAction {
    /// Ignore the window entirely
    Ignore,
    /// Force specific positioning rule
    ForcePositioning(PositioningRule),
    /// Delay window management for specified milliseconds
    DelayManagement(u32),
    /// Use custom window detection logic
    CustomDetection,
    /// Apply special focus handling
    SpecialFocus,
    /// Run custom script or command
    RunScript(String),
}

/// Custom handling rules for specific application scenarios.
#[derive(Debug, Clone)]
pub struct CustomHandlingRule {
    /// Condition that triggers this rule
    pub condition: String,
    /// Action to take when condition is met
    pub action: CustomAction,
    /// Optional parameters for the action, as JSON text
    pub parameters: Option<String>,
    /// Whether this rule is currently active
    pub enabled: bool,
}

/// Default behavior patterns for a specific application.
#[derive(Debug, Clone)]
pub struct ApplicationProfile {
    /// Unique identifier
    pub id: u128,
    /// macOS bundle identifier (e.g., com.apple.Terminal)
    pub bundle_identifier: String,
    /// Human-readable application name
    pub display_name: String,
    /// Default positioning rule for new windows
    pub default_positioning: PositioningRule,
    /// Preferred tiling patterns (in order of preference)
    pub preferred_tiling_patterns: Vec<u128>,
    /// Compatibility information and known issues
    pub compatibility_info: CompatibilityInfo,
    /// Rules for identifying application windows
    pub window_detection_rules: Vec<WindowDetectionRule>,
    /// How the application handles focus changes
    pub focus_stealing_behavior: FocusStealingBehavior,
    /// Default window behavior characteristics
    pub default_window_behavior: WindowBehavior,
    /// Default focus behavior for windows
    pub default_focus_behavior: FocusBehavior,
    /// Custom handling rules for special scenarios
    pub custom_rules: Vec<CustomHandlingRule>,
    /// Application-specific configuration overrides: keys and JSON values
    pub configuration_overrides: Vec<(String, String)>,
    /// Whether this profile is user-created or built-in
    pub is_user_profile: bool,
    /// Last updated time, in milliseconds since the Unix epoch
    pub last_updated: i64,
}

/// Errors that can occur with application profiles.
#[derive(Debug, Clone, PartialEq, Eq)]
pub enum ApplicationProfileError {
    EmptyBundleIdentifier,
    InvalidBundleIdentifier(String),
    EmptyDisplayName,
    EmptyDetectionIdentifier,
    EmptyCustomRuleCondition,
    DuplicateBundleIdentifier(String),
    ProfileNotFound(String),
    InvalidCustomActionParameters,
}

/// The message of an application profile error.
pub open spec fn profile_error_message(e: ApplicationProfileError) -> Seq<char> {
    match e {
        ApplicationProfileError::EmptyBundleIdentifier => "Bundle identifier cannot be empty"@,
        ApplicationProfileError::InvalidBundleIdentifier(b) => "Invalid bundle identifier format: "@ + b@,
        ApplicationProfileError::EmptyDisplayName => "Display name cannot be empty"@,
        ApplicationProfileError::EmptyDetectionIdentifier => "Detection identifier cannot be empty"@,
        ApplicationProfileError::EmptyCustomRuleCondition => "Custom rule condition cannot be empty"@,
        ApplicationProfileError::DuplicateBundleIdentifier(b) => "Duplicate bundle identifier: "@ + b@,
        ApplicationProfileError::ProfileNotFound(b) => "Profile not found for bundle ID: "@ + b@,
        ApplicationProfileError::InvalidCustomActionParameters => "Invalid custom action parameters"@,
    }
}

impl ApplicationProfileError {
    /// The human-readable message of this error.
    pub fn message(&self) -> (m: String)
        ensures
            m@ == profile_error_message(*self),
    {
        match self {
            ApplicationProfileError::EmptyBundleIdentifier => owned("Bundle identifier cannot be empty"),
            ApplicationProfileError::InvalidBundleIdentifier(b) => {
                let mut m = owned("Invalid bundle identifier format: ");
                push_str(&mut m, b.as_str());
                m
            },
            ApplicationProfileError::EmptyDisplayName => owned("Display name cannot be empty"),
            ApplicationProfileError::EmptyDetectionIdentifier => owned("Detection identifier cannot be empty"),
            ApplicationProfileError::EmptyCustomRuleCondition => owned("Custom rule condition cannot be empty"),
            ApplicationProfileError::DuplicateBundleIdentifier(b) => {
                let mut m = owned("Duplicate bundle identifier: ");
                push_str(&mut m, b.as_str());
                m
            },
            ApplicationProfileError::ProfileNotFound(b) => {
                let mut m = owned("Profile not found for bundle ID: ");
                push_str(&mut m, b.as_str());
                m
            },
            ApplicationProfileError::InvalidCustomActionParameters => owned("Invalid custom action parameters"),
        }
    }
}

/// Whether an optional name is present and equal to `id`.
pub open spec fn is_named(name: Option<Seq<char>>, id: Seq<char>) -> bool {
    name matches Some(n) && n == id
}

/// Whether some secondary identifier names the bundle or the process.
pub open spec fn secondary_matches(ids: Seq<String>, bundle: Option<Seq<char>>, process: Option<Seq<char>>) -> bool {
    exists|k: int| 0 <= k < ids.len() && (is_named(bundle, #[trigger] ids[k]@) || is_named(process, ids[k]@))
}

/// Whether a detection rule recognises an application by its bundle
/// identifier and process name.
pub open spec fn detection_matches(r: WindowDetectionRule, bundle: Option<Seq<char>>, process: Option<Seq<char>>) -> bool {
    let primary = r.primary_identifier@;
    match r.strategy {
        WindowDetectionStrategy::BundleId => is_named(bundle, primary),
        WindowDetectionStrategy::ProcessName => is_named(process, primary),
        WindowDetectionStrategy::WindowClass => is_named(bundle, primary),
        WindowDetectionStrategy::Combined => is_named(bundle, primary) || is_named(process, primary)
            || secondary_matches(r.secondary_identifiers@, bundle, process),
    }
}

/// Whether a profile recognises an application: by its bundle identifier,
/// or by one of its detection rules.
pub open spec fn profile_matches(p: ApplicationProfile, bundle: Option<Seq<char>>, process: Option<Seq<char>>) -> bool {
    is_named(bundle, p.bundle_identifier@) || exists|k: int|
        0 <= k < p.window_detection_rules@.len() && detection_matches(
            #[trigger] p.window_detection_rules@[k],
            bundle,
            process,
        )
}

/// The positioning forced by the first enabled rule whose condition the
/// title contains, among the first `n` custom rules.
pub open spec fn forced_positioning(rules: Seq<CustomHandlingRule>, title: Option<Seq<char>>) -> Option<PositioningRule>
    decreases rules.len(),
{
    if rules.len() == 0 {
        None
    } else {
        match forced_positioning(rules.drop_last(), title) {
            Some(p) => Some(p),
            None => {
                let r = rules.last();
                match (r.action, title) {
                    (CustomAction::ForcePositioning(pos), Some(t)) => if r.enabled && contains_seq(
                        t,
                        r.condition@,
                    ) {
                        Some(pos)
                    } else {
                        None
                    },
                    _ => None,
                }
            },
        }
    }
}

/// The position of the first enabled rule with the condition.
pub open spec fn custom_rule_for(rules: Seq<CustomHandlingRule>, condition: Seq<char>) -> Option<int>
    decreases rules.len(),
{
    if rules.len() == 0 {
        None
    } else {
        match custom_rule_for(rules.drop_last(), condition) {
            Some(i) => Some(i),
            None => if rules.last().enabled && rules.last().condition@ == condition {
                Some(rules.len() - 1)
            } else {
                None
            },
        }
    }
}

/// The first check a profile fails, if any.
pub open spec fn profile_problem(p: ApplicationProfile) -> Option<ApplicationProfileError> {
    if is_blank(p.bundle_identifier@) {
        Some(ApplicationProfileError::EmptyBundleIdentifier)
    } else if !p.bundle_identifier@.contains('.') {
        Some(ApplicationProfileError::InvalidBundleIdentifier(p.bundle_identifier))
    } else if is_blank(p.display_name@) {
        Some(ApplicationProfileError::EmptyDisplayName)
    } else if exists|k: int| 0 <= k < p.window_detection_rules@.len() && is_blank(
        (#[trigger] p.window_detection_rules@[k]).primary_identifier@,
    ) {
        Some(ApplicationProfileError::EmptyDetectionIdentifier)
    } else if exists|k: int| 0 <= k < p.custom_rules@.len() && is_blank(
        (#[trigger] p.custom_rules@[k]).condition@,
    ) {
        Some(ApplicationProfileError::EmptyCustomRuleCondition)
    } else {
        None
    }
}

/// A new profile's fields: user-created, standard behavior, nothing
/// preferred, detected or overridden yet.
pub open spec fn fresh_profile(
    id: u128,
    now: i64,
    bundle: String,
    display: String,
    positioning: PositioningRule,
    level: CompatibilityLevel,
    info: CompatibilityInfo,
    patterns: Vec<u128>,
    rules: Vec<WindowDetectionRule>,
    custom: Vec<CustomHandlingRule>,
    overrides: Vec<(String, String)>,
) -> ApplicationProfile {
    ApplicationProfile {
        id,
        bundle_identifier: bundle,
        display_name: display,
        default_positioning: positioning,
        preferred_tiling_patterns: patterns,
        compatibility_info: info,
        window_detection_rules: rules,
        focus_stealing_behavior: FocusStealingBehavior::Normal,
        default_window_behavior: WindowBehavior::Standard,
        default_focus_behavior: FocusBehavior::Never,
        custom_rules: custom,
        configuration_overrides: overrides,
        is_user_profile: true,
        last_updated: now,
    }
}

/// Whether a profile is a new one with the given fields.
pub open spec fn is_new_profile(
    p: ApplicationProfile,
    id: u128,
    now: i64,
    bundle: Seq<char>,
    display: Seq<char>,
    positioning: PositioningRule,
    level: CompatibilityLevel,
) -> bool {
    &&& p.id == id
    &&& p.bundle_identifier@ == bundle
    &&& p.display_name@ == display
    &&& p.default_positioning == positioning
    &&& p.preferred_tiling_patterns@.len() == 0
    &&& p.compatibility_info.level == level
    &&& p.compatibility_info.issues@.len() == 0
    &&& p.compatibility_info.workarounds@.len() == 0
    &&& p.compatibility_info.version_notes is None
    &&& p.window_detection_rules@.len() == 0
    &&& p.focus_stealing_behavior == FocusStealingBehavior::Normal
    &&& p.default_window_behavior == WindowBehavior::Standard
    &&& p.default_focus_behavior == FocusBehavior::Never
    &&& p.custom_rules@.len() == 0
    &&& p.configuration_overrides@.len() == 0
    &&& p.is_user_profile
    &&& p.last_updated == now
}

/// Whether a profile is what checking `bundle` and `display` gives: an
/// error for the first check they fail, else a new profile.
pub open spec fn new_profile_outcome(
    r: Result<ApplicationProfile, ApplicationProfileError>,
    id: u128,
    now: i64,
    bundle: Seq<char>,
    display: Seq<char>,
    positioning: PositioningRule,
    level: CompatibilityLevel,
) -> bool {
    if is_blank(bundle) {
        r == Err::<ApplicationProfile, ApplicationProfileError>(ApplicationProfileError::EmptyBundleIdentifier)
    } else if !bundle.contains('.') {
        r matches Err(ApplicationProfileError::InvalidBundleIdentifier(b)) && b@ == bundle
    } else if is_blank(display) {
        r == Err::<ApplicationProfile, ApplicationProfileError>(ApplicationProfileError::EmptyDisplayName)
    } else {
        r matches Ok(p) && is_new_profile(p, id, now, bundle, display, positioning, level)
    }
}

fn has_dot(s: &str) -> (b: bool)
    ensures
        b == s@.contains('.'),
{
    let cs = crate::text::chars_of(s);
    let mut i: usize = 0;
    while i < cs.len()
        invariant
            i <= cs@.len(),
            cs@ == s@,
            forall|j: int| 0 <= j < i ==> cs@[j] != '.',
        decreases cs.len() - i,
    {
        if cs[i] == '.' {
            return true;
        }
        i = i + 1;
    }
    false
}

fn opt_equal(a: Option<&str>, b: &str) -> (r: bool)
    ensures
        r == is_named(opt_view(a), b@),
{
    match a {
        Some(x) => str_equal(x, b),
        None => false,
    }
}

impl WindowDetectionRule {
    /// Whether this rule recognises an application by its bundle identifier
    /// and process name.
    pub fn matches(&self, bundle_id: Option<&str>, process_name: Option<&str>) -> (b: bool)
        ensures
            b == detection_matches(*self, opt_view(bundle_id), opt_view(process_name)),
    {
        let primary = self.primary_identifier.as_str();
        match self.strategy {
            WindowDetectionStrategy::BundleId => opt_equal(bundle_id, primary),
            WindowDetectionStrategy::ProcessName => opt_equal(process_name, primary),
            WindowDetectionStrategy::WindowClass => opt_equal(bundle_id, primary),
            WindowDetectionStrategy::Combined => {
                if opt_equal(bundle_id, primary) || opt_equal(process_name, primary) {
                    return true;
                }
                let ids = &self.secondary_identifiers;
                let mut k: usize = 0;
                while k < ids.len()
                    invariant
                        k <= ids@.len(),
                        ids@ == self.secondary_identifiers@,
                        self.strategy == WindowDetectionStrategy::Combined,
                        forall|j: int| 0 <= j < k ==> !(is_named(opt_view(bundle_id), #[trigger] ids@[j]@)
                            || is_named(opt_view(process_name), ids@[j]@)),
                    decreases ids.len() - k,
                {
                    if opt_equal(bundle_id, ids[k].as_str()) || opt_equal(process_name, ids[k].as_str()) {
                        assert(is_named(opt_view(bundle_id), ids@[k as int]@) || is_named(
                            opt_view(process_name),
                            ids@[k as int]@,
                        ));
                        return true;
                    }
                    k = k + 1;
                }
                false
            },
        }
    }
}

impl ApplicationProfile {
    /// A user profile with the given identifier and time; it is checked for
    /// a non-blank bundle identifier with a dot and a non-blank name.
    pub fn new_with(
        id: u128,
        now: i64,
        bundle_identifier: String,
        display_name: String,
        default_positioning: PositioningRule,
        compatibility_level: CompatibilityLevel,
    ) -> (r: Result<Self, ApplicationProfileError>)
        ensures
            new_profile_outcome(r, id, now, bundle_identifier@, display_name@, default_positioning, compatibility_level),
    {
        let profile = ApplicationProfile {
            id,
            bundle_identifier,
            display_name,
            default_positioning,
            preferred_tiling_patterns: Vec::new(),
            compatibility_info: CompatibilityInfo {
                level: compatibility_level,
                issues: Vec::new(),
                workarounds: Vec::new(),
                version_notes: None,
            },
            window_detection_rules: Vec::new(),
            focus_stealing_behavior: FocusStealingBehavior::Normal,
            default_window_behavior: WindowBehavior::Standard,
            default_focus_behavior: FocusBehavior::Never,
            custom_rules: Vec::new(),
            configuration_overrides: Vec::new(),
            is_user_profile: true,
            last_updated: now,
        };
        match profile.validate() {
            Ok(()) => Ok(profile),
            Err(e) => Err(e),
        }
    }

    /// A user profile with a fresh identifier, updated now.
    pub fn new(
        bundle_identifier: String,
        display_name: String,
        default_positioning: PositioningRule,
        compatibility_level: CompatibilityLevel,
    ) -> (r: Result<Self, ApplicationProfileError>)
        ensures
            exists|id: u128, now: i64| new_profile_outcome(
                r,
                id,
                now,
                bundle_identifier@,
                display_name@,
                default_positioning,
                compatibility_level,
            ),
    {
        let id = new_id();
        let now = now_millis();
        Self::new_with(id, now, bundle_identifier, display_name, default_positioning, compatibility_level)
    }

    /// Whether this profile recognises an application: by its bundle
    /// identifier, or by one of its detection rules.
    pub fn matches_application(
        &self,
        bundle_id: Option<&str>,
        process_name: Option<&str>,
        window_title: Option<&str>,
    ) -> (b: bool)
        ensures
            b == profile_matches(*self, opt_view(bundle_id), opt_view(process_name)),
    {
        if opt_equal(bundle_id, self.bundle_identifier.as_str()) {
            return true;
        }
        let mut k: usize = 0;
        while k < self.window_detection_rules.len()
            invariant
                k <= self.window_detection_rules@.len(),
                !is_named(opt_view(bundle_id), self.bundle_identifier@),
                forall|j: int| 0 <= j < k ==> !detection_matches(
                    #[trigger] self.window_detection_rules@[j],
                    opt_view(bundle_id),
                    opt_view(process_name),
                ),
            decreases self.window_detection_rules.len() - k,
        {
            if self.window_detection_rules[k].matches(bundle_id, process_name) {
                return true;
            }
            k = k + 1;
        }
        false
    }

    /// The positioning for a window: forced by the first enabled custom rule
    /// whose condition its title contains, else the default.
    pub fn get_effective_positioning(&self, window_title: Option<&str>) -> (r: PositioningRule)
        ensures
            r == match forced_positioning(self.custom_rules@, opt_view(window_title)) {
                Some(p) => p,
                None => self.default_positioning,
            },
    {
        let mut k: usize = 0;
        while k < self.custom_rules.len()
            invariant
                k <= self.custom_rules@.len(),
                forced_positioning(self.custom_rules@.take(k as int), opt_view(window_title)) is None,
            decreases self.custom_rules.len() - k,
        {
            let rule = &self.custom_rules[k];
            assert(self.custom_rules@.take(k + 1).drop_last() =~= self.custom_rules@.take(k as int));
            if rule.enabled {
                if let CustomAction::ForcePositioning(p) = &rule.action {
                    if let Some(title) = window_title {
                        if str_contains(title, rule.condition.as_str()) {
                            proof {
                                lemma_forced_prefix(self.custom_rules@, k as int, opt_view(window_title));
                            }
                            return *p;
                        }
                    }
                }
            }
            k = k + 1;
        }
        assert(self.custom_rules@.take(k as int) =~= self.custom_rules@);
        self.default_positioning
    }

    /// Whether the application can be tiled: full, good or limited compatibility.
    pub fn is_tiling_compatible(&self) -> (b: bool)
        ensures
            b == (self.compatibility_info.level == CompatibilityLevel::Full || self.compatibility_info.level
                == CompatibilityLevel::Good || self.compatibility_info.level == CompatibilityLevel::Limited),
    {
        match self.compatibility_info.level {
            CompatibilityLevel::Full | CompatibilityLevel::Good | CompatibilityLevel::Limited => true,
            _ => false,
        }
    }

    /// The action of the first enabled custom rule with the condition.
    pub fn get_custom_action(&self, condition: &str) -> (r: Option<&CustomAction>)
        ensures
            match custom_rule_for(self.custom_rules@, condition@) {
                Some(i) => r == Some(&self.custom_rules@[i].action),
                None => r is None,
            },
    {
        let mut k: usize = 0;
        while k < self.custom_rules.len()
            invariant
                k <= self.custom_rules@.len(),
                custom_rule_for(self.custom_rules@.take(k as int), condition@) is None,
            decreases self.custom_rules.len() - k,
        {
            assert(self.custom_rules@.take(k + 1).drop_last() =~= self.custom_rules@.take(k as int));
            if self.custom_rules[k].enabled && str_equal(self.custom_rules[k].condition.as_str(), condition) {
                proof {
                    lemma_custom_prefix(self.custom_rules@, k as int, condition@);
                }
                return Some(&self.custom_rules[k].action);
            }
            k = k + 1;
        }
        assert(self.custom_rules@.take(k as int) =~= self.custom_rules@);
        None
    }

    /// Adds a preferred pattern at time `now`, unless it is preferred already.
    pub fn add_preferred_pattern_at(&mut self, pattern_id: u128, now: i64)
        ensures
            old(self).preferred_tiling_patterns@.contains(pattern_id) ==> *final(self) == *old(self),
            !old(self).preferred_tiling_patterns@.contains(pattern_id) ==> *final(self) == (ApplicationProfile {
                preferred_tiling_patterns: final(self).preferred_tiling_patterns,
                last_updated: now,
                ..*old(self)
            }) && final(self).preferred_tiling_patterns@ == old(self).preferred_tiling_patterns@.push(pattern_id),
    {
        let mut k: usize = 0;
        while k < self.preferred_tiling_patterns.len()
            invariant
                k <= self.preferred_tiling_patterns@.len(),
                forall|j: int| 0 <= j < k ==> self.preferred_tiling_patterns@[j] != pattern_id,
            decreases self.preferred_tiling_patterns.len() - k,
        {
            if self.preferred_tiling_patterns[k] == pattern_id {
                return;
            }
            k = k + 1;
        }
        self.preferred_tiling_patterns.push(pattern_id);
        self.last_updated = now;
    }

    /// Adds a preferred pattern, unless it is preferred already.
    pub fn add_preferred_pattern(&mut self, pattern_id: u128)
        ensures
            old(self).preferred_tiling_patterns@.contains(pattern_id) ==> *final(self) == *old(self),
            !old(self).preferred_tiling_patterns@.contains(pattern_id) ==> *final(self) == (ApplicationProfile {
                preferred_tiling_patterns: final(self).preferred_tiling_patterns,
                last_updated: final(self).last_updated,
                ..*old(self)
            }) && final(self).preferred_tiling_patterns@ == old(self).preferred_tiling_patterns@.push(pattern_id),
    {
        let now = now_millis();
        self.add_preferred_pattern_at(pattern_id, now);
    }

    /// Removes a preferred pattern at time `now`; answers whether it was there.
    pub fn remove_preferred_pattern_at(&mut self, pattern_id: &u128, now: i64) -> (removed: bool)
        ensures
            removed == old(self).preferred_tiling_patterns@.contains(*pattern_id),
            !removed ==> *final(self) == *old(self),
            removed ==> exists|i: int| {
                &&& 0 <= i < old(self).preferred_tiling_patterns@.len()
                &&& old(self).preferred_tiling_patterns@[i] == *pattern_id
                &&& forall|j: int| 0 <= j < i ==> old(self).preferred_tiling_patterns@[j] != *pattern_id
                &&& #[trigger] final(self).preferred_tiling_patterns@ == old(self).preferred_tiling_patterns@.remove(i)
            } && *final(self) == (ApplicationProfile {
                preferred_tiling_patterns: final(self).preferred_tiling_patterns,
                last_updated: now,
                ..*old(self)
            }),
    {
        let mut k: usize = 0;
        while k < self.preferred_tiling_patterns.len()
            invariant
                k <= self.preferred_tiling_patterns@.len(),
                self.preferred_tiling_patterns@ == old(self).preferred_tiling_patterns@,
                *self == *old(self),
                forall|j: int| 0 <= j < k ==> self.preferred_tiling_patterns@[j] != *pattern_id,
            decreases self.preferred_tiling_patterns.len() - k,
        {
            if self.preferred_tiling_patterns[k] == *pattern_id {
                self.preferred_tiling_patterns.remove(k);
                self.last_updated = now;
                return true;
            }
            k = k + 1;
        }
        false
    }

    /// Removes a preferred pattern; answers whether it was there.
    pub fn remove_preferred_pattern(&mut self, pattern_id: &u128) -> (removed: bool)
        ensures
            removed == old(self).preferred_tiling_patterns@.contains(*pattern_id),
            !removed ==> *final(self) == *old(self),
            removed ==> exists|i: int| {
                &&& 0 <= i < old(self).preferred_tiling_patterns@.len()
                &&& old(self).preferred_tiling_patterns@[i] == *pattern_id
                &&& forall|j: int| 0 <= j < i ==> old(self).preferred_tiling_patterns@[j] != *pattern_id
                &&& #[trigger] final(self).preferred_tiling_patterns@ == old(self).preferred_tiling_patterns@.remove(i)
            } && *final(self) == (ApplicationProfile {
                preferred_tiling_patterns: final(self).preferred_tiling_patterns,
                last_updated: final(self).last_updated,
                ..*old(self)
            }),
    {
        let now = now_millis();
        self.remove_preferred_pattern_at(pattern_id, now)
    }

    /// Adds a custom handling rule at time `now`.
    pub fn add_custom_rule_at(&mut self, rule: CustomHandlingRule, now: i64)
        ensures
            final(self).custom_rules@ == old(self).custom_rules@.push(rule),
            *final(self) == (ApplicationProfile {
                custom_rules: final(self).custom_rules,
                last_updated: now,
                ..*old(self)
            }),
    {
        self.custom_rules.push(rule);
        self.last_updated = now;
    }

    /// Adds a custom handling rule.
    pub fn add_custom_rule(&mut self, rule: CustomHandlingRule)
        ensures
            final(self).custom_rules@ == old(self).custom_rules@.push(rule),
            *final(self) == (ApplicationProfile {
                custom_rules: final(self).custom_rules,
                last_updated: final(self).last_updated,
                ..*old(self)
            }),
    {
        let now = now_millis();
        self.add_custom_rule_at(rule, now);
    }

    /// Replaces the compatibility information at time `now`.
    pub fn update_compatibility_at(&mut self, info: CompatibilityInfo, now: i64)
        ensures
            *final(self) == (ApplicationProfile { compatibility_info: info, last_updated: now, ..*old(self) }),
    {
        self.compatibility_info = info;
        self.last_updated = now;
    }

    /// Replaces the compatibility information.
    pub fn update_compatibility(&mut self, info: CompatibilityInfo)
        ensures
            *final(self) == (ApplicationProfile {
                compatibility_info: info,
                last_updated: final(self).last_updated,
                ..*old(self)
            }),
    {
        let now = now_millis();
        self.update_compatibility_at(info, now);
    }

    /// Checks the profile: a non-blank bundle identifier with a dot, a
    /// non-blank name, non-blank detection identifiers and custom rule
    /// conditions, in that order.
    pub fn validate(&self) -> (r: Result<(), ApplicationProfileError>)
        ensures
            match profile_problem(*self) {
                Some(ApplicationProfileError::InvalidBundleIdentifier(b)) => r matches Err(
                    ApplicationProfileError::InvalidBundleIdentifier(c),
                ) && c@ == b@,
                Some(e) => r == Err::<(), ApplicationProfileError>(e),
                None => r is Ok,
            },
    {
        if str_is_blank(self.bundle_identifier.as_str()) {
            return Err(ApplicationProfileError::EmptyBundleIdentifier);
        }
        if !has_dot(self.bundle_identifier.as_str()) {
            return Err(ApplicationProfileError::InvalidBundleIdentifier(self.bundle_identifier.clone()));
        }
        if str_is_blank(self.display_name.as_str()) {
            return Err(ApplicationProfileError::EmptyDisplayName);
        }
        let mut k: usize = 0;
        while k < self.window_detection_rules.len()
            invariant
                k <= self.window_detection_rules@.len(),
                !is_blank(self.bundle_identifier@),
                self.bundle_identifier@.contains('.'),
                !is_blank(self.display_name@),
                forall|j: int| 0 <= j < k ==> !is_blank(
                    (#[trigger] self.window_detection_rules@[j]).primary_identifier@,
                ),
            decreases self.window_detection_rules.len() - k,
        {
            if str_is_blank(self.window_detection_rules[k].primary_identifier.as_str()) {
                assert(is_blank(self.window_detection_rules@[k as int].primary_identifier@));
                return Err(ApplicationProfileError::EmptyDetectionIdentifier);
            }
            k = k + 1;
        }
        let mut k: usize = 0;
        while k < self.custom_rules.len()
            invariant
                k <= self.custom_rules@.len(),
                !is_blank(self.bundle_identifier@),
                self.bundle_identifier@.contains('.'),
                !is_blank(self.display_name@),
                forall|j: int| 0 <= j < self.window_detection_rules@.len() ==> !is_blank(
                    (#[trigger] self.window_detection_rules@[j]).primary_identifier@,
                ),
                forall|j: int| 0 <= j < k ==> !is_blank((#[trigger] self.custom_rules@[j]).condition@),
            decreases self.custom_rules.len() - k,
        {
            if str_is_blank(self.custom_rules[k].condition.as_str()) {
                assert(is_blank(self.custom_rules@[k as int].condition@));
                return Err(ApplicationProfileError::EmptyCustomRuleCondition);
            }
            k = k + 1;
        }
        Ok(())
    }
}

proof fn lemma_forced_prefix(rules: Seq<CustomHandlingRule>, k: int, title: Option<Seq<char>>)
    requires
        0 <= k < rules.len(),
        forced_positioning(rules.take(k), title) is None,
        rules[k].enabled,
        rules[k].action matches CustomAction::ForcePositioning(_),
        title matches Some(t) && contains_seq(t, rules[k].condition@),
    ensures
        forced_positioning(rules, title) == Some(rules[k].action->ForcePositioning_0),
    decreases rules.len(),
{
    if k == rules.len() - 1 {
        assert(rules.drop_last() =~= rules.take(k));
    } else {
        assert(rules.drop_last().take(k) =~= rules.take(k));
        lemma_forced_prefix(rules.drop_last(), k, title);
    }
}

proof fn lemma_custom_prefix(rules: Seq<CustomHandlingRule>, k: int, condition: Seq<char>)
    requires
        0 <= k < rules.len(),
        custom_rule_for(rules.take(k), condition) is None,
        rules[k].enabled,
        rules[k].condition@ == condition,
    ensures
        custom_rule_for(rules, condition) == Some(k),
    decreases rules.len(),
{
    if k == rules.len() - 1 {
        assert(rules.drop_last() =~= rules.take(k));
    } else {
        assert(rules.drop_last().take(k) =~= rules.take(k));
        lemma_custom_prefix(rules.drop_last(), k, condition);
    }
}

/// The position of the first profile with the bundle identifier.
pub open spec fn first_with_bundle(s: Seq<ApplicationProfile>, b: Seq<char>) -> Option<int>
    decreases s.len(),
{
    if s.len() == 0 {
        None
    } else {
        match first_with_bundle(s.drop_last(), b) {
            Some(i) => Some(i),
            None => if s.last().bundle_identifier@ == b {
                Some(s.len() - 1)
            } else {
                None
            },
        }
    }
}

/// The position of the first profile that recognises an application.
pub open spec fn first_matching(s: Seq<ApplicationProfile>, bundle: Option<Seq<char>>, process: Option<Seq<char>>) -> Option<int>
    decreases s.len(),
{
    if s.len() == 0 {
        None
    } else {
        match first_matching(s.drop_last(), bundle, process) {
            Some(i) => Some(i),
            None => if profile_matches(s.last(), bundle, process) {
                Some(s.len() - 1)
            } else {
                None
            },
        }
    }
}

/// The position of the first profile with the identifier.
pub open spec fn first_with_id(s: Seq<ApplicationProfile>, id: u128) -> Option<int>
    decreases s.len(),
{
    if s.len() == 0 {
        None
    } else {
        match first_with_id(s.drop_last(), id) {
            Some(i) => Some(i),
            None => if s.last().id == id {
                Some(s.len() - 1)
            } else {
                None
            },
        }
    }
}

/// The profiles with a compatibility level, in order.
pub open spec fn profiles_with_level(s: Seq<ApplicationProfile>, level: CompatibilityLevel) -> Seq<ApplicationProfile>
    decreases s.len(),
{
    if s.len() == 0 {
        Seq::empty()
    } else {
        let rest = profiles_with_level(s.drop_last(), level);
        if s.last().compatibility_info.level == level {
            rest.push(s.last())
        } else {
            rest
        }
    }
}

/// The built-in profiles: bundle identifier, name, positioning and
/// compatibility of each.
pub open spec fn builtin_entry(i: int) -> (Seq<char>, Seq<char>, PositioningRule, CompatibilityLevel) {
    if i == 0 {
        ("com.apple.Terminal"@, "Terminal"@, PositioningRule::Auto, CompatibilityLevel::Full)
    } else if i == 1 {
        ("com.apple.Safari"@, "Safari"@, PositioningRule::Auto, CompatibilityLevel::Full)
    } else if i == 2 {
        ("com.microsoft.VSCode"@, "Visual Studio Code"@, PositioningRule::Auto, CompatibilityLevel::Full)
    } else if i == 3 {
        ("com.apple.finder"@, "Finder"@, PositioningRule::Floating, CompatibilityLevel::Good)
    } else if i == 4 {
        ("com.adobe.Photoshop"@, "Adobe Photoshop"@, PositioningRule::Auto, CompatibilityLevel::Limited)
    } else {
        ("com.apple.systempreferences"@, "System Preferences"@, PositioningRule::Floating, CompatibilityLevel::Poor)
    }
}

/// Whether a profile is the built-in one of an entry: a new profile of its
/// fields, marked built-in, detected by its bundle identifier.
pub open spec fn is_builtin_profile(p: ApplicationProfile, b: Seq<char>, d: Seq<char>, pos: PositioningRule, level: CompatibilityLevel) -> bool {
    &&& p.bundle_identifier@ == b
    &&& p.display_name@ == d
    &&& p.default_positioning == pos
    &&& p.preferred_tiling_patterns@.len() == 0
    &&& p.compatibility_info.level == level
    &&& p.compatibility_info.issues@.len() == 0
    &&& p.compatibility_info.workarounds@.len() == 0
    &&& p.compatibility_info.version_notes is None
    &&& p.focus_stealing_behavior == FocusStealingBehavior::Normal
    &&& p.default_window_behavior == WindowBehavior::Standard
    &&& p.default_focus_behavior == FocusBehavior::Never
    &&& p.custom_rules@.len() == 0
    &&& p.configuration_overrides@.len() == 0
    &&& !p.is_user_profile
    &&& p.window_detection_rules@.len() == 1
    &&& p.window_detection_rules@[0].strategy == WindowDetectionStrategy::BundleId
    &&& p.window_detection_rules@[0].primary_identifier@ == b
    &&& p.window_detection_rules@[0].secondary_identifiers@.len() == 0
    &&& p.window_detection_rules@[0].title_pattern is None
    &&& p.window_detection_rules@[0].class_pattern is None
}

fn builtin_profile(
    bundle: &str,
    display: &str,
    positioning: PositioningRule,
    level: CompatibilityLevel,
) -> (r: Result<ApplicationProfile, ApplicationProfileError>)
    requires
        !is_blank(bundle@),
        bundle@.contains('.'),
        !is_blank(display@),
    ensures
        r matches Ok(p) && is_builtin_profile(p, bundle@, display@, positioning, level),
{
    let mut p = match ApplicationProfile::new(owned(bundle), owned(display), positioning, level) {
        Ok(p) => p,
        Err(e) => {
            return Err(e);
        },
    };
    p.is_user_profile = false;
    p.window_detection_rules.push(
        WindowDetectionRule {
            strategy: WindowDetectionStrategy::BundleId,
            primary_identifier: owned(bundle),
            secondary_identifiers: Vec::new(),
            title_pattern: None,
            class_pattern: None,
        },
    );
    Ok(p)
}

/// A collection of application profiles, one per bundle identifier.
#[derive(Debug, Clone)]
pub struct ApplicationProfileSet {
    pub profiles: Vec<ApplicationProfile>,
}

impl ApplicationProfileSet {
    /// An empty set.
    pub fn new() -> (s: Self)
        ensures
            s.profiles@.len() == 0,
    {
        ApplicationProfileSet { profiles: Vec::new() }
    }

    fn index_with_bundle(&self, bundle_id: &str) -> (r: Option<usize>)
        ensures
            r matches Some(i) ==> first_with_bundle(self.profiles@, bundle_id@) == Some(i as int)
                && i < self.profiles@.len(),
            r is None ==> first_with_bundle(self.profiles@, bundle_id@) is None,
    {
        let mut i: usize = 0;
        while i < self.profiles.len()
            invariant
                i <= self.profiles@.len(),
                first_with_bundle(self.profiles@.take(i as int), bundle_id@) is None,
            decreases self.profiles.len() - i,
        {
            assert(self.profiles@.take(i + 1).drop_last() =~= self.profiles@.take(i as int));
            if str_equal(self.profiles[i].bundle_identifier.as_str(), bundle_id) {
                proof {
                    lemma_first_bundle_prefix(self.profiles@, i as int, bundle_id@);
                }
                return Some(i);
            }
            i = i + 1;
        }
        assert(self.profiles@.take(i as int) =~= self.profiles@);
        None
    }

    /// Adds a profile whose bundle identifier has none yet.
    pub fn add_profile(&mut self, profile: ApplicationProfile) -> (r: Result<(), ApplicationProfileError>)
        ensures
            first_with_bundle(old(self).profiles@, profile.bundle_identifier@) is Some ==> (r matches Err(
                ApplicationProfileError::DuplicateBundleIdentifier(b),
            ) && b@ == profile.bundle_identifier@) && *final(self) == *old(self),
            first_with_bundle(old(self).profiles@, profile.bundle_identifier@) is None ==> r is Ok
                && final(self).profiles@ == old(self).profiles@.push(profile),
    {
        if self.index_with_bundle(profile.bundle_identifier.as_str()).is_some() {
            return Err(ApplicationProfileError::DuplicateBundleIdentifier(profile.bundle_identifier));
        }
        self.profiles.push(profile);
        Ok(())
    }

    /// The profile with a bundle identifier.
    pub fn find_by_bundle_id(&self, bundle_id: &str) -> (r: Option<&ApplicationProfile>)
        ensures
            match first_with_bundle(self.profiles@, bundle_id@) {
                Some(i) => r == Some(&self.profiles@[i]),
                None => r is None,
            },
    {
        match self.index_with_bundle(bundle_id) {
            Some(i) => Some(&self.profiles[i]),
            None => None,
        }
    }

    /// The first profile that recognises an application.
    pub fn find_matching_profile(
        &self,
        bundle_id: Option<&str>,
        process_name: Option<&str>,
        window_title: Option<&str>,
    ) -> (r: Option<&ApplicationProfile>)
        ensures
            match first_matching(self.profiles@, opt_view(bundle_id), opt_view(process_name)) {
                Some(i) => r == Some(&self.profiles@[i]),
                None => r is None,
            },
    {
        let mut i: usize = 0;
        while i < self.profiles.len()
            invariant
                i <= self.profiles@.len(),
                first_matching(self.profiles@.take(i as int), opt_view(bundle_id), opt_view(process_name)) is None,
            decreases self.profiles.len() - i,
        {
            assert(self.profiles@.take(i + 1).drop_last() =~= self.profiles@.take(i as int));
            if self.profiles[i].matches_application(bundle_id, process_name, window_title) {
                proof {
                    lemma_first_matching_prefix(self.profiles@, i as int, opt_view(bundle_id), opt_view(process_name));
                }
                return Some(&self.profiles[i]);
            }
            i = i + 1;
        }
        assert(self.profiles@.take(i as int) =~= self.profiles@);
        None
    }

    /// The profiles with a compatibility level, in order.
    pub fn get_profiles_by_compatibility(&self, level: CompatibilityLevel) -> (r: Vec<&ApplicationProfile>)
        ensures
            r@.map_values(|p: &ApplicationProfile| *p) == profiles_with_level(self.profiles@, level),
    {
        let mut r: Vec<&ApplicationProfile> = Vec::new();
        let mut i: usize = 0;
        while i < self.profiles.len()
            invariant
                i <= self.profiles@.len(),
                r@.map_values(|p: &ApplicationProfile| *p) == profiles_with_level(self.profiles@.take(i as int), level),
            decreases self.profiles.len() - i,
        {
            assert(self.profiles@.take(i + 1).drop_last() =~= self.profiles@.take(i as int));
            let ghost r0 = r@;
            if self.profiles[i].compatibility_info.level == level {
                r.push(&self.profiles[i]);
                assert(r@.map_values(|p: &ApplicationProfile| *p) =~= r0.map_values(|p: &ApplicationProfile| *p).push(
                    self.profiles@[i as int],
                ));
            }
            i = i + 1;
        }
        assert(self.profiles@.take(i as int) =~= self.profiles@);
        r
    }

    /// Removes the first profile with an identifier; answers whether there was one.
    pub fn remove_profile(&mut self, id: u128) -> (removed: bool)
        ensures
            removed == first_with_id(old(self).profiles@, id) is Some,
            match first_with_id(old(self).profiles@, id) {
                Some(i) => final(self).profiles@ == old(self).profiles@.remove(i),
                None => final(self).profiles@ == old(self).profiles@,
            },
    {
        let mut i: usize = 0;
        while i < self.profiles.len()
            invariant
                i <= self.profiles@.len(),
                self.profiles@ == old(self).profiles@,
                first_with_id(self.profiles@.take(i as int), id) is None,
            decreases self.profiles.len() - i,
        {
            assert(self.profiles@.take(i + 1).drop_last() =~= self.profiles@.take(i as int));
            if self.profiles[i].id == id {
                proof {
                    lemma_first_id_prefix(self.profiles@, i as int, id);
                }
                self.profiles.remove(i);
                return true;
            }
            i = i + 1;
        }
        assert(self.profiles@.take(i as int) =~= self.profiles@);
        false
    }

    /// The set of built-in profiles of common macOS applications.
    pub fn create_with_defaults() -> (r: Result<Self, ApplicationProfileError>)
        ensures
            r matches Ok(set) && set.profiles@.len() == 6 && forall|i: int| 0 <= i < 6 ==> {
                let (b, d, pos, level) = builtin_entry(i);
                is_builtin_profile(#[trigger] set.profiles@[i], b, d, pos, level)
            },
    {
        proof {
            reveal_strlit("com.apple.Terminal");
            reveal_strlit("com.apple.Safari");
            reveal_strlit("com.microsoft.VSCode");
            reveal_strlit("com.apple.finder");
            reveal_strlit("com.adobe.Photoshop");
            reveal_strlit("com.apple.systempreferences");
            reveal_strlit("Terminal");
            reveal_strlit("Safari");
            reveal_strlit("Visual Studio Code");
            reveal_strlit("Finder");
            reveal_strlit("Adobe Photoshop");
            reveal_strlit("System Preferences");
        }
        let mut set = ApplicationProfileSet::new();
        assert("com.apple.Terminal"@[3] == '.');
        assert("com.apple.Safari"@[3] == '.');
        assert("com.microsoft.VSCode"@[3] == '.');
        assert("com.apple.finder"@[3] == '.');
        assert("com.adobe.Photoshop"@[3] == '.');
        assert("com.apple.systempreferences"@[3] == '.');
        assert(!is_blank("com.apple.Terminal"@) && !is_blank("Terminal"@)) by {
            assert(!crate::text::is_ws("com.apple.Terminal"@[0]));
            assert(!crate::text::is_ws("Terminal"@[0]));
        }
        assert(!is_blank("com.apple.Safari"@) && !is_blank("Safari"@)) by {
            assert(!crate::text::is_ws("com.apple.Safari"@[0]));
            assert(!crate::text::is_ws("Safari"@[0]));
        }
        assert(!is_blank("com.microsoft.VSCode"@) && !is_blank("Visual Studio Code"@)) by {
            assert(!crate::text::is_ws("com.microsoft.VSCode"@[0]));
            assert(!crate::text::is_ws("Visual Studio Code"@[0]));
        }
        assert(!is_blank("com.apple.finder"@) && !is_blank("Finder"@)) by {
            assert(!crate::text::is_ws("com.apple.finder"@[0]));
            assert(!crate::text::is_ws("Finder"@[0]));
        }
        assert(!is_blank("com.adobe.Photoshop"@) && !is_blank("Adobe Photoshop"@)) by {
            assert(!crate::text::is_ws("com.adobe.Photoshop"@[0]));
            assert(!crate::text::is_ws("Adobe Photoshop"@[0]));
        }
        assert(!is_blank("com.apple.systempreferences"@) && !is_blank("System Preferences"@)) by {
            assert(!crate::text::is_ws("com.apple.systempreferences"@[0]));
            assert(!crate::text::is_ws("System Preferences"@[0]));
        }
        let p0 = builtin_profile("com.apple.Terminal", "Terminal", PositioningRule::Auto, CompatibilityLevel::Full)?;
        let ghost s0 = set.profiles@;
        set.add_profile(p0)?;
        let p1 = builtin_profile("com.apple.Safari", "Safari", PositioningRule::Auto, CompatibilityLevel::Full)?;
        proof {
            lemma_bundle_absent(set.profiles@, "com.apple.Safari"@);
        }
        set.add_profile(p1)?;
        let p2 = builtin_profile(
            "com.microsoft.VSCode",
            "Visual Studio Code",
            PositioningRule::Auto,
            CompatibilityLevel::Full,
        )?;
        proof {
            lemma_bundle_absent(set.profiles@, "com.microsoft.VSCode"@);
        }
        set.add_profile(p2)?;
        let p3 = builtin_profile("com.apple.finder", "Finder", PositioningRule::Floating, CompatibilityLevel::Good)?;
        proof {
            assert(set.profiles@[1].bundle_identifier@[10] != "com.apple.finder"@[10]);
            lemma_bundle_absent(set.profiles@, "com.apple.finder"@);
        }
        set.add_profile(p3)?;
        let p4 = builtin_profile(
            "com.adobe.Photoshop",
            "Adobe Photoshop",
            PositioningRule::Auto,
            CompatibilityLevel::Limited,
        )?;
        proof {
            lemma_bundle_absent(set.profiles@, "com.adobe.Photoshop"@);
        }
        set.add_profile(p4)?;
        let p5 = builtin_profile(
            "com.apple.systempreferences",
            "System Preferences",
            PositioningRule::Floating,
            CompatibilityLevel::Poor,
        )?;
        proof {
            lemma_bundle_absent(set.profiles@, "com.apple.systempreferences"@);
        }
        set.add_profile(p5)?;
        Ok(set)
    }
}

impl Default for ApplicationProfile {
    /// An example profile: user-created, fully compatible, positioned
    /// automatically, with nothing preferred and no special rules, updated
    /// now.
    fn default() -> (p: Self)
        ensures
            p.bundle_identifier@ == "com.example.app"@,
            p.display_name@ == "Example App"@,
            p.default_positioning == PositioningRule::Auto,
            p.preferred_tiling_patterns@.len() == 0,
            p.compatibility_info.level == CompatibilityLevel::Full,
            p.compatibility_info.issues@.len() == 0,
            p.compatibility_info.workarounds@.len() == 0,
            p.compatibility_info.version_notes is None,
            p.window_detection_rules@.len() == 0,
            p.focus_stealing_behavior == FocusStealingBehavior::Normal,
            p.default_window_behavior == WindowBehavior::Standard,
            p.default_focus_behavior == FocusBehavior::Never,
            p.custom_rules@.len() == 0,
            p.configuration_overrides@.len() == 0,
            p.is_user_profile,
    {
        ApplicationProfile {
            id: new_id(),
            bundle_identifier: owned("com.example.app"),
            display_name: owned("Example App"),
            default_positioning: PositioningRule::Auto,
            preferred_tiling_patterns: Vec::new(),
            compatibility_info: CompatibilityInfo {
                level: CompatibilityLevel::Full,
                issues: Vec::new(),
                workarounds: Vec::new(),
                version_notes: None,
            },
            window_detection_rules: Vec::new(),
            focus_stealing_behavior: FocusStealingBehavior::Normal,
            default_window_behavior: WindowBehavior::Standard,
            default_focus_behavior: FocusBehavior::Never,
            custom_rules: Vec::new(),
            configuration_overrides: Vec::new(),
            is_user_profile: true,
            last_updated: now_millis(),
        }
    }
}

impl Default for ApplicationProfileSet {
    fn default() -> (s: Self)
        ensures
            s.profiles@.len() == 0,
    {
        ApplicationProfileSet::new()
    }
}

proof fn lemma_bundle_absent(s: Seq<ApplicationProfile>, b: Seq<char>)
    requires
        forall|j: int| 0 <= j < s.len() ==> (#[trigger] s[j]).bundle_identifier@ != b,
    ensures
        first_with_bundle(s, b) is None,
    decreases s.len(),
{
    if s.len() > 0 {
        let s2 = s.drop_last();
        assert forall|j: int| 0 <= j < s2.len() implies (#[trigger] s2[j]).bundle_identifier@ != b by {
            assert(s2[j] == s[j]);
        }
        lemma_bundle_absent(s2, b);
    }
}

proof fn lemma_first_bundle_prefix(s: Seq<ApplicationProfile>, i: int, b: Seq<char>)
    requires
        0 <= i < s.len(),
        first_with_bundle(s.take(i), b) is None,
        s[i].bundle_identifier@ == b,
    ensures
        first_with_bundle(s, b) == Some(i),
    decreases s.len(),
{
    if i == s.len() - 1 {
        assert(s.drop_last() =~= s.take(i));
    } else {
        assert(s.drop_last().take(i) =~= s.take(i));
        lemma_first_bundle_prefix(s.drop_last(), i, b);
    }
}

proof fn lemma_first_matching_prefix(s: Seq<ApplicationProfile>, i: int, bundle: Option<Seq<char>>, process: Option<Seq<char>>)
    requires
        0 <= i < s.len(),
        first_matching(s.take(i), bundle, process) is None,
        profile_matches(s[i], bundle, process),
    ensures
        first_matching(s, bundle, process) == Some(i),
    decreases s.len(),
{
    if i == s.len() - 1 {
        assert(s.drop_last() =~= s.take(i));
    } else {
        assert(s.drop_last().take(i) =~= s.take(i));
        lemma_first_matching_prefix(s.drop_last(), i, bundle, process);
    }
}

proof fn lemma_first_id_prefix(s: Seq<ApplicationProfile>, i: int, id: u128)
    requires
        0 <= i < s.len(),
        first_with_id(s.take(i), id) is None,
        s[i].id == id,
    ensures
        first_with_id(s, id) == Some(i),
    decreases s.len(),
{
    if i == s.len() - 1 {
        assert(s.drop_last() =~= s.take(i));
    } else {
        assert(s.drop_last().take(i) =~= s.take(i));
        lemma_first_id_prefix(s.drop_last(), i, id);
    }
}

} // verus!
