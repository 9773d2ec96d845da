//! Window rules: how windows of an application behave within a workspace,
//! which windows a rule applies to (by application identifier, exactly or
//! by glob, and by window title pattern), and their validation.

use vstd::prelude::*;
use crate::ids::new_id;
use crate::regex_support::{regex_compile_error, regex_match, regex_check, regex_is_match};
use crate::text::{is_blank, str_is_blank, chars_of, str_equal, owned, push_str, push_char};

verus! {

/// How a window should be positioned within a workspace.
#[derive(Debug, Clone, Copy, PartialEq, Eq, Structural)]
pub enum PositioningRule {
    /// Follow workspace tiling pattern automatically
    Auto,
    /// Fixed position and size coordinates
    Fixed,
    /// Floating window (user-controlled position)
    Floating,
    /// Fullscreen mode
    Fullscreen,
}

/// Auto-focus behavior for windows.
#[derive(Debug, Clone, Copy, PartialEq, Eq, Structural)]
pub enum FocusBehavior {
    /// Never auto-focus this window
    Never,
    /// Focus when window is created
    OnCreate,
    /// Focus when switching to this workspace
    OnSwitch,
}

/// Fixed position and size for windows with the fixed positioning rule.
#[derive(Debug, Clone, Copy, PartialEq, Eq, Structural)]
pub struct FixedGeometry {
    pub x: i32,
    pub y: i32,
    pub width: u32,
    pub height: u32,
}

/// Context for determining auto-focus behavior.
#[derive(Debug, Clone, Copy, PartialEq, Eq, Structural)]
pub enum FocusContext {
    WindowCreated,
    WorkspaceSwitch,
}

/// How specific applications or window types behave within a workspace.
#[derive(Debug, Clone)]
pub struct WindowRule {
    /// Unique identifier
    pub id: u128,
    /// Reference to parent workspace
    pub workspace_id: u128,
    /// Bundle ID or process name pattern for application matching
    pub application_identifier: String,
    /// Optional regex pattern for matching window titles
    pub window_title_pattern: Option<String>,
    /// How the window should be positioned
    pub positioning_rule: PositioningRule,
    /// Specific coordinates if positioning_rule is Fixed
    pub fixed_geometry: Option<FixedGeometry>,
    /// Layer priority for window stacking (higher = more on top)
    pub z_order_priority: u32,
    /// Auto-focus behavior for this window
    pub focus_behavior: FocusBehavior,
    /// Optional reference to ApplicationProfile for default behavior
    pub application_profile_id: Option<u128>,
}

/// Errors that can occur with window rules.
#[derive(Debug, Clone, PartialEq, Eq)]
pub enum WindowRuleError {
    EmptyApplicationIdentifier,
    EmptyWindowTitlePattern,
    InvalidRegexPattern(String, String),
    MissingFixedGeometry,
    InvalidGeometryDimensions,
    GeometryOutOfBounds,
}

/// The message of a window rule error.
pub open spec fn window_rule_error_message(e: WindowRuleError) -> Seq<char> {
    match e {
        WindowRuleError::EmptyApplicationIdentifier => "Application identifier cannot be empty"@,
        WindowRuleError::EmptyWindowTitlePattern => "Window title pattern cannot be empty"@,
        WindowRuleError::InvalidRegexPattern(p, m) => "Invalid regex pattern '"@ + p@ + "': "@ + m@,
        WindowRuleError::MissingFixedGeometry => "Fixed positioning rule requires fixed geometry"@,
        WindowRuleError::InvalidGeometryDimensions => "Geometry dimensions must be greater than 0"@,
        WindowRuleError::GeometryOutOfBounds => "Fixed geometry coordinates are outside screen bounds"@,
    }
}

impl WindowRuleError {
    /// The human-readable message of this error.
    pub fn message(&self) -> (m: String)
        ensures
            m@ == window_rule_error_message(*self),
    {
        match self {
            WindowRuleError::EmptyApplicationIdentifier => owned("Application identifier cannot be empty"),
            WindowRuleError::EmptyWindowTitlePattern => owned("Window title pattern cannot be empty"),
            WindowRuleError::InvalidRegexPattern(p, e) => {
                let mut m = owned("Invalid regex pattern '");
                push_str(&mut m, p.as_str());
                push_str(&mut m, "': ");
                push_str(&mut m, e.as_str());
                m
            },
            WindowRuleError::MissingFixedGeometry => owned("Fixed positioning rule requires fixed geometry"),
            WindowRuleError::InvalidGeometryDimensions => owned("Geometry dimensions must be greater than 0"),
            WindowRuleError::GeometryOutOfBounds => owned("Fixed geometry coordinates are outside screen bounds"),
        }
    }
}

/// Whether an application identifier is a glob: it holds `*` or `?`.
pub open spec fn is_glob(p: Seq<char>) -> bool {
    p.contains('*') || p.contains('?')
}

/// The regular expression text for one glob char: `.` is escaped, `*`
/// matches any run and `?` any one char.
pub open spec fn glob_char_regex(c: char) -> Seq<char> {
    if c == '.' {
        seq!['\\', '.']
    } else if c == '*' {
        seq!['.', '*']
    } else if c == '?' {
        seq!['.']
    } else {
        seq![c]
    }
}

/// The glob's chars translated to regular expression text.
pub open spec fn glob_body(p: Seq<char>) -> Seq<char>
    decreases p.len(),
{
    if p.len() == 0 {
        Seq::empty()
    } else {
        glob_body(p.drop_last()) + glob_char_regex(p.last())
    }
}

/// The anchored regular expression of a glob.
pub open spec fn glob_regex(p: Seq<char>) -> Seq<char> {
    seq!['^'] + glob_body(p) + seq!['$']
}

/// Whether a glob matches a text: by its regular expression, or by
/// equality where that does not compile.
pub open spec fn glob_matches(p: Seq<char>, t: Seq<char>) -> bool {
    match regex_compile_error(glob_regex(p)) {
        None => regex_match(glob_regex(p), t),
        Some(_) => p == t,
    }
}

/// Whether a rule's application identifier selects an application.
pub open spec fn app_matches(rule_app: Seq<char>, app: Seq<char>) -> bool {
    if is_glob(rule_app) {
        glob_matches(rule_app, app)
    } else {
        rule_app == app
    }
}

/// Translates a glob to its anchored regular expression.
pub fn glob_to_regex(pattern: &str) -> (r: String)
    ensures
        r@ == glob_regex(pattern@),
{
    let cs = chars_of(pattern);
    let mut r = owned("^");
    let mut i: usize = 0;
    proof {
        reveal_strlit("^");
    }
    assert(r@ == seq!['^'] + glob_body(cs@.take(0))) by {
        assert(cs@.take(0) =~= Seq::<char>::empty());
        assert(seq!['^'] + Seq::<char>::empty() =~= seq!['^']);
    }
    while i < cs.len()
        invariant
            i <= cs@.len(),
            cs@ == pattern@,
            r@ == seq!['^'] + glob_body(cs@.take(i as int)),
        decreases cs.len() - i,
    {
        let c = cs[i];
        assert(cs@.take(i + 1).drop_last() =~= cs@.take(i as int));
        if c == '.' {
            push_char(&mut r, '\\');
            push_char(&mut r, '.');
        } else if c == '*' {
            push_char(&mut r, '.');
            push_char(&mut r, '*');
        } else if c == '?' {
            push_char(&mut r, '.');
        } else {
            push_char(&mut r, c);
        }
        i = i + 1;
        assert(r@ =~= seq!['^'] + glob_body(cs@.take(i as int)));
    }
    assert(cs@.take(i as int) =~= pattern@);
    push_char(&mut r, '$');
    r
}

fn has_char(s: &str, c: char) -> (b: bool)
    ensures
        b == s@.contains(c),
{
    let cs = chars_of(s);
    let mut i: usize = 0;
    while i < cs.len()
        invariant
            i <= cs@.len(),
            cs@ == s@,
            forall|j: int| 0 <= j < i ==> cs@[j] != c,
        decreases cs.len() - i,
    {
        if cs[i] == c {
            return true;
        }
        i = i + 1;
    }
    false
}

/// Whether a rule applies to a window: its application identifier and, when
/// it has one, its title pattern.
pub open spec fn rule_matches(r: WindowRule, app: Seq<char>, title: Option<Seq<char>>) -> Result<bool, (Seq<char>, Seq<char>)> {
    if !app_matches(r.application_identifier@, app) {
        Ok(false)
    } else {
        match r.window_title_pattern {
            None => Ok(true),
            Some(p) => match title {
                None => Ok(false),
                Some(t) => match regex_compile_error(p@) {
                    None => Ok(regex_match(p@, t)),
                    Some(m) => Err((p@, m)),
                },
            },
        }
    }
}

/// The first check a rule fails, if any.
pub open spec fn rule_problem(r: WindowRule) -> Option<WindowRuleError> {
    if is_blank(r.application_identifier@) {
        Some(WindowRuleError::EmptyApplicationIdentifier)
    } else if r.window_title_pattern matches Some(p) && is_blank(p@) {
        Some(WindowRuleError::EmptyWindowTitlePattern)
    } else if r.positioning_rule == PositioningRule::Fixed && r.fixed_geometry is None {
        Some(WindowRuleError::MissingFixedGeometry)
    } else if r.fixed_geometry matches Some(g) && (g.width == 0 || g.height == 0) {
        Some(WindowRuleError::InvalidGeometryDimensions)
    } else {
        None
    }
}

/// Whether a rule's title pattern is present, not blank, and does not compile.
pub open spec fn pattern_fails(r: WindowRule) -> bool {
    r.window_title_pattern matches Some(p) && !is_blank(p@) && regex_compile_error(p@) is Some
}

/// Whether `res` is the outcome of validating a rule: blank identifier,
/// blank pattern, a pattern that does not compile, missing geometry and
/// empty geometry are checked in that order.
pub open spec fn validation_outcome(r: WindowRule, res: Result<(), WindowRuleError>) -> bool {
    if is_blank(r.application_identifier@) {
        res == Err::<(), WindowRuleError>(WindowRuleError::EmptyApplicationIdentifier)
    } else if r.window_title_pattern matches Some(p) && is_blank(p@) {
        res == Err::<(), WindowRuleError>(WindowRuleError::EmptyWindowTitlePattern)
    } else if pattern_fails(r) {
        res matches Err(WindowRuleError::InvalidRegexPattern(p, m)) && r.window_title_pattern
            matches Some(q) && p@ == q@ && regex_compile_error(q@) == Some(m@)
    } else {
        match rule_problem(r) {
            Some(e) => res == Err::<(), WindowRuleError>(e),
            None => res is Ok,
        }
    }
}

/// The outcome of building a rule, without the rule.
pub open spec fn unit_of(r: Result<WindowRule, WindowRuleError>) -> Result<(), WindowRuleError> {
    match r {
        Ok(_) => Ok(()),
        Err(e) => Err(e),
    }
}

/// The contents of an optional string slice.
pub open spec fn opt_view(t: Option<&str>) -> Option<Seq<char>> {
    match t {
        Some(s) => Some(s@),
        None => None,
    }
}

/// The rule with the given fields.
pub open spec fn rule_of(
    id: u128,
    workspace_id: u128,
    application_identifier: String,
    window_title_pattern: Option<String>,
    positioning_rule: PositioningRule,
    fixed_geometry: Option<FixedGeometry>,
    z_order_priority: u32,
    focus_behavior: FocusBehavior,
    application_profile_id: Option<u128>,
) -> WindowRule {
    WindowRule {
        id,
        workspace_id,
        application_identifier,
        window_title_pattern,
        positioning_rule,
        fixed_geometry,
        z_order_priority,
        focus_behavior,
        application_profile_id,
    }
}

impl WindowRule {
    /// A rule with the given identifier; it is checked as `validate` does.
    pub fn new_with(
        id: u128,
        workspace_id: u128,
        application_identifier: String,
        window_title_pattern: Option<String>,
        positioning_rule: PositioningRule,
        fixed_geometry: Option<FixedGeometry>,
        z_order_priority: u32,
        focus_behavior: FocusBehavior,
        application_profile_id: Option<u128>,
    ) -> (r: Result<Self, WindowRuleError>)
        ensures
            ({
                let rule = WindowRule {
                    id,
                    workspace_id,
                    application_identifier,
                    window_title_pattern,
                    positioning_rule,
                    fixed_geometry,
                    z_order_priority,
                    focus_behavior,
                    application_profile_id,
                };
                &&& validation_outcome(rule, unit_of(r))
                &&& r matches Ok(x) ==> x == rule
            }),
    {
        let rule = WindowRule {
            id,
            workspace_id,
            application_identifier,
            window_title_pattern,
            positioning_rule,
            fixed_geometry,
            z_order_priority,
            focus_behavior,
            application_profile_id,
        };
        match rule.validate() {
            Ok(()) => Ok(rule),
            Err(e) => Err(e),
        }
    }

    /// A rule with a fresh identifier; it is checked as `validate` does.
    pub fn new(
        workspace_id: u128,
        application_identifier: String,
        window_title_pattern: Option<String>,
        positioning_rule: PositioningRule,
        fixed_geometry: Option<FixedGeometry>,
        z_order_priority: u32,
        focus_behavior: FocusBehavior,
        application_profile_id: Option<u128>,
    ) -> (r: Result<Self, WindowRuleError>)
        ensures
            validation_outcome(
                rule_of(0, workspace_id, application_identifier, window_title_pattern, positioning_rule,
                fixed_geometry, z_order_priority, focus_behavior, application_profile_id),
                unit_of(r),
            ),
            r matches Ok(x) ==> x == rule_of(x.id, workspace_id, application_identifier,
                window_title_pattern, positioning_rule, fixed_geometry, z_order_priority,
                focus_behavior, application_profile_id),
    {
        let id = new_id();
        Self::new_with(
            id,
            workspace_id,
            application_identifier,
            window_title_pattern,
            positioning_rule,
            fixed_geometry,
            z_order_priority,
            focus_behavior,
            application_profile_id,
        )
    }

    /// Glob-style matching: the glob's regular expression decides, or
    /// equality where that does not compile.
    pub fn glob_match(&self, pattern: &str, text: &str) -> (b: bool)
        ensures
            b == glob_matches(pattern@, text@),
    {
        let re = glob_to_regex(pattern);
        match regex_check(re.as_str()) {
            Ok(()) => regex_is_match(re.as_str(), text),
            Err(_) => str_equal(pattern, text),
        }
    }

    /// Whether this rule applies to an application and window title. A
    /// title pattern that does not compile is an error.
    pub fn matches(&self, app_identifier: &str, window_title: Option<&str>) -> (r: Result<bool, WindowRuleError>)
        ensures
            match rule_matches(*self, app_identifier@, opt_view(window_title)) {
                Ok(b) => r == Ok::<bool, WindowRuleError>(b),
                Err((p, m)) => r matches Err(WindowRuleError::InvalidRegexPattern(a, b)) && a@ == p && b@ == m,
            },
    {
        let id = self.application_identifier.as_str();
        let app_ok = if has_char(id, '*') || has_char(id, '?') {
            self.glob_match(id, app_identifier)
        } else {
            str_equal(id, app_identifier)
        };
        if !app_ok {
            return Ok(false);
        }
        match &self.window_title_pattern {
            Some(pattern) => match window_title {
                Some(title) => match regex_check(pattern.as_str()) {
                    Ok(()) => Ok(regex_is_match(pattern.as_str(), title)),
                    Err(m) => Err(WindowRuleError::InvalidRegexPattern(pattern.clone(), m)),
                },
                None => Ok(false),
            },
            None => Ok(true),
        }
    }

    /// The geometry a fixed rule places its window at: its own, else the
    /// default. Other rules place nothing.
    pub fn get_effective_geometry(&self, default_geometry: Option<&FixedGeometry>) -> (r: Option<FixedGeometry>)
        ensures
            r == if self.positioning_rule == PositioningRule::Fixed {
                match self.fixed_geometry {
                    Some(g) => Some(g),
                    None => match default_geometry {
                        Some(d) => Some(*d),
                        None => None,
                    },
                }
            } else {
                None
            },
    {
        match self.positioning_rule {
            PositioningRule::Fixed => match self.fixed_geometry {
                Some(g) => Some(g),
                None => match default_geometry {
                    Some(d) => Some(*d),
                    None => None,
                },
            },
            _ => None,
        }
    }

    /// Whether this rule asks for a z-order: its priority is above zero.
    pub fn has_z_order_priority(&self) -> (b: bool)
        ensures
            b == (self.z_order_priority > 0),
    {
        self.z_order_priority > 0
    }

    /// Whether windows of this rule take focus in the context.
    pub fn should_auto_focus(&self, context: FocusContext) -> (b: bool)
        ensures
            b == match context {
                FocusContext::WindowCreated => self.focus_behavior == FocusBehavior::OnCreate,
                FocusContext::WorkspaceSwitch => self.focus_behavior == FocusBehavior::OnSwitch,
            },
    {
        match context {
            FocusContext::WindowCreated => self.focus_behavior == FocusBehavior::OnCreate,
            FocusContext::WorkspaceSwitch => self.focus_behavior == FocusBehavior::OnSwitch,
        }
    }

    /// Checks the rule: a non-blank application identifier, a title pattern
    /// that is not blank and compiles, geometry for fixed positioning, and
    /// geometry with non-zero dimensions.
    pub fn validate(&self) -> (r: Result<(), WindowRuleError>)
        ensures
            validation_outcome(*self, r),
    {
        if str_is_blank(self.application_identifier.as_str()) {
            return Err(WindowRuleError::EmptyApplicationIdentifier);
        }
        if let Some(pattern) = &self.window_title_pattern {
            if str_is_blank(pattern.as_str()) {
                return Err(WindowRuleError::EmptyWindowTitlePattern);
            }
            match regex_check(pattern.as_str()) {
                Ok(()) => {},
                Err(m) => {
                    return Err(WindowRuleError::InvalidRegexPattern(pattern.clone(), m));
                },
            }
        }
        if self.positioning_rule == PositioningRule::Fixed && self.fixed_geometry.is_none() {
            return Err(WindowRuleError::MissingFixedGeometry);
        }
        if let Some(g) = &self.fixed_geometry {
            if g.width == 0 || g.height == 0 {
                return Err(WindowRuleError::InvalidGeometryDimensions);
            }
        }
        Ok(())
    }

    /// A copy of the rule.
    pub fn duplicate(&self) -> (r: Self)
        ensures
            r == *self,
    {
        WindowRule {
            id: self.id,
            workspace_id: self.workspace_id,
            application_identifier: self.application_identifier.clone(),
            window_title_pattern: match &self.window_title_pattern {
                Some(p) => Some(p.clone()),
                None => None,
            },
            positioning_rule: self.positioning_rule,
            fixed_geometry: self.fixed_geometry,
            z_order_priority: self.z_order_priority,
            focus_behavior: self.focus_behavior,
            application_profile_id: self.application_profile_id,
        }
    }
}

impl Default for WindowRule {
    fn default() -> (r: Self)
        ensures
            r.application_identifier@ == "com.example.app"@,
            r.window_title_pattern is None,
            r.positioning_rule == PositioningRule::Auto,
            r.fixed_geometry is None,
            r.z_order_priority == 0,
            r.focus_behavior == FocusBehavior::Never,
            r.application_profile_id is None,
    {
        WindowRule {
            id: new_id(),
            workspace_id: new_id(),
            application_identifier: owned("com.example.app"),
            window_title_pattern: None,
            positioning_rule: PositioningRule::Auto,
            fixed_geometry: None,
            z_order_priority: 0,
            focus_behavior: FocusBehavior::Never,
            application_profile_id: None,
        }
    }
}

} // verus!
