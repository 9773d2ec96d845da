//! Monitor configurations: how a workspace behaves on a given monitor,
//! which monitor a configuration applies to, scaling, the usable area, and
//! the set of configurations of a workspace.
//!
//! The scale factor is kept in thousandths: 1000 stands for 1.0.

use vstd::prelude::*;
use crate::ids::new_id;
use crate::text::{is_blank, str_is_blank, str_equal, owned, push_str};
use crate::models::tiling_pattern::{ratio_text, push_ratio};

verus! {

/// Screen area definition with position and dimensions.
#[derive(Debug, Clone, Copy, PartialEq, Eq, Structural)]
pub struct ScreenArea {
    pub x: i32,
    pub y: i32,
    pub width: u32,
    pub height: u32,
}

/// Preferred monitor orientation.
#[derive(Debug, Clone, Copy, PartialEq, Eq, Structural)]
pub enum OrientationPreference {
    /// Use current orientation
    Current,
    /// Prefer landscape orientation
    Landscape,
    /// Prefer portrait orientation
    Portrait,
    /// Match primary monitor orientation
    MatchPrimary,
}

/// Monitor characteristics for identification.
#[derive(Debug)]
pub struct MonitorInfo {
    /// Display name from system
    pub display_name: String,
    /// Hardware model identifier
    pub model_identifier: Option<String>,
    /// Serial number if available
    pub serial_number: Option<String>,
    /// Physical size in millimeters
    pub physical_size_mm: Option<(u32, u32)>,
    /// Native resolution
    pub native_resolution: (u32, u32),
}

/// Workspace behavior for a specific monitor setup.
#[derive(Debug, Clone)]
pub struct MonitorConfiguration {
    /// Unique identifier
    pub id: u128,
    /// Reference to parent workspace
    pub workspace_id: u128,
    /// System monitor identification
    pub monitor_identifier: String,
    /// Additional monitor information for better matching
    pub monitor_info: Option<MonitorInfo>,
    /// Main tiling pattern for this monitor
    pub primary_pattern_id: u128,
    /// Fallback pattern for overflow windows
    pub secondary_pattern_id: Option<u128>,
    /// Screen area to use for tiling (excludes dock, menu bar, etc.)
    pub active_area: ScreenArea,
    /// Preferred monitor orientation
    pub orientation_preference: OrientationPreference,
    /// DPI scaling factor for window sizing, in thousandths (1000 is 1.0)
    pub scale_factor: u32,
    /// Whether this monitor is the primary display
    pub is_primary: bool,
    /// Whether to handle fullscreen windows specially on this monitor
    pub handle_fullscreen: bool,
}

/// Errors that can occur with monitor configurations.
#[derive(Debug, Clone, PartialEq, Eq)]
pub enum MonitorConfigurationError {
    EmptyMonitorIdentifier,
    EmptyDisplayName,
    InvalidActiveArea,
    /// The scale factor, in thousandths
    InvalidScaleFactor(u32),
    InvalidNativeResolution,
    WorkspaceMismatch,
    DuplicateMonitorIdentifier(String),
    MonitorNotFound(String),
    ConfigurationOutOfBounds,
}

/// The message of a monitor configuration error.
pub open spec fn monitor_error_message(e: MonitorConfigurationError) -> Seq<char> {
    match e {
        MonitorConfigurationError::EmptyMonitorIdentifier => "Monitor identifier cannot be empty"@,
        MonitorConfigurationError::EmptyDisplayName => "Display name cannot be empty"@,
        MonitorConfigurationError::InvalidActiveArea => "Active area must have non-zero dimensions"@,
        MonitorConfigurationError::InvalidScaleFactor(s) => "Scale factor must be between 0.0 and 5.0, got "@
            + ratio_text(s as nat),
        MonitorConfigurationError::InvalidNativeResolution => "Native resolution must have non-zero dimensions"@,
        MonitorConfigurationError::WorkspaceMismatch => "Workspace ID mismatch"@,
        MonitorConfigurationError::DuplicateMonitorIdentifier(m) => "Duplicate monitor identifier: "@ + m@,
        MonitorConfigurationError::MonitorNotFound(m) => "Monitor not found: "@ + m@,
        MonitorConfigurationError::ConfigurationOutOfBounds => "Monitor configuration is outside screen bounds"@,
    }
}

impl MonitorConfigurationError {
    /// The human-readable message of this error.
    pub fn message(&self) -> (m: String)
        ensures
            m@ == monitor_error_message(*self),
    {
        match self {
            MonitorConfigurationError::EmptyMonitorIdentifier => owned("Monitor identifier cannot be empty"),
            MonitorConfigurationError::EmptyDisplayName => owned("Display name cannot be empty"),
            MonitorConfigurationError::InvalidActiveArea => owned("Active area must have non-zero dimensions"),
            MonitorConfigurationError::InvalidScaleFactor(s) => {
                let mut m = owned("Scale factor must be between 0.0 and 5.0, got ");
                push_ratio(&mut m, *s);
                m
            },
            MonitorConfigurationError::InvalidNativeResolution => owned(
                "Native resolution must have non-zero dimensions",
            ),
            MonitorConfigurationError::WorkspaceMismatch => owned("Workspace ID mismatch"),
            MonitorConfigurationError::DuplicateMonitorIdentifier(id) => {
                let mut m = owned("Duplicate monitor identifier: ");
                push_str(&mut m, id.as_str());
                m
            },
            MonitorConfigurationError::MonitorNotFound(id) => {
                let mut m = owned("Monitor not found: ");
                push_str(&mut m, id.as_str());
                m
            },
            MonitorConfigurationError::ConfigurationOutOfBounds => owned(
                "Monitor configuration is outside screen bounds",
            ),
        }
    }
}

/// Whether two optional strings are both present and equal.
pub open spec fn both_equal(a: Option<String>, b: Option<String>) -> bool {
    a matches Some(x) && b matches Some(y) && x@ == y@
}

/// Whether a configuration applies to a monitor: by identifier, or by its
/// model, serial number, or display name and resolution when both sides
/// describe the monitor.
pub open spec fn monitor_matches(c: MonitorConfiguration, id: Seq<char>, info: Option<MonitorInfo>) -> bool {
    ||| c.monitor_identifier@ == id
    ||| match (c.monitor_info, info) {
        (Some(ci), Some(cur)) => {
            ||| both_equal(ci.model_identifier, cur.model_identifier)
            ||| both_equal(ci.serial_number, cur.serial_number)
            ||| (ci.display_name@ == cur.display_name@ && ci.native_resolution == cur.native_resolution)
        },
        _ => false,
    }
}

/// The value behind an optional reference.
pub open spec fn deref_info(info: Option<&MonitorInfo>) -> Option<MonitorInfo> {
    match info {
        Some(i) => Some(*i),
        None => None,
    }
}

/// A dimension scaled by a factor in thousandths, rounded half away from
/// zero, capped at the largest dimension.
pub open spec fn scaled_dim(v: u32, s: u32) -> u32 {
    let r = (2 * v * s + 1000) / 2000;
    if r > u32::MAX {
        u32::MAX
    } else {
        r as u32
    }
}

/// A coordinate scaled by a factor in thousandths, rounded half away from
/// zero, kept within the coordinate range.
pub open spec fn scaled_coord(v: i32, s: u32) -> i32 {
    let mag = (2 * (if v < 0 { -v } else { v as int }) * s + 1000) / 2000;
    let r = if v < 0 { -mag } else { mag };
    if r > i32::MAX {
        i32::MAX
    } else if r < i32::MIN {
        i32::MIN
    } else {
        r as i32
    }
}

/// The overlap of the active area and the full screen, empty where they do
/// not overlap.
pub open spec fn usable_area(active: ScreenArea, full: ScreenArea) -> ScreenArea {
    let x = if active.x >= full.x { active.x } else { full.x };
    let y = if active.y >= full.y { active.y } else { full.y };
    let ar = active.x + active.width;
    let fr = full.x + full.width;
    let right = if ar <= fr { ar } else { fr };
    let ab = active.y + active.height;
    let fb = full.y + full.height;
    let bottom = if ab <= fb { ab } else { fb };
    ScreenArea {
        x,
        y,
        width: if right - x > 0 { (right - x) as u32 } else { 0 },
        height: if bottom - y > 0 { (bottom - y) as u32 } else { 0 },
    }
}

/// Whether an area's edges can be computed in screen coordinates.
pub open spec fn screen_area_fits(a: ScreenArea) -> bool {
    a.width <= i32::MAX && a.height <= i32::MAX && a.x + a.width <= i32::MAX && a.y + a.height <= i32::MAX
}

/// Whether the usable area of two areas can be computed in screen
/// coordinates: their edges and the overlap's size stay within range.
pub open spec fn usable_area_fits(active: ScreenArea, full: ScreenArea) -> bool {
    let x = if active.x >= full.x { active.x } else { full.x };
    let y = if active.y >= full.y { active.y } else { full.y };
    let ar = active.x + active.width;
    let fr = full.x + full.width;
    let right = if ar <= fr { ar } else { fr };
    let ab = active.y + active.height;
    let fb = full.y + full.height;
    let bottom = if ab <= fb { ab } else { fb };
    &&& screen_area_fits(active)
    &&& screen_area_fits(full)
    &&& i32::MIN <= right - x <= i32::MAX
    &&& i32::MIN <= bottom - y <= i32::MAX
}

/// The first check a configuration fails, if any.
pub open spec fn configuration_problem(c: MonitorConfiguration) -> Option<MonitorConfigurationError> {
    if is_blank(c.monitor_identifier@) {
        Some(MonitorConfigurationError::EmptyMonitorIdentifier)
    } else if c.active_area.width == 0 || c.active_area.height == 0 {
        Some(MonitorConfigurationError::InvalidActiveArea)
    } else if c.scale_factor == 0 || c.scale_factor > 5000 {
        Some(MonitorConfigurationError::InvalidScaleFactor(c.scale_factor))
    } else if c.monitor_info matches Some(info) && is_blank(info.display_name@) {
        Some(MonitorConfigurationError::EmptyDisplayName)
    } else if c.monitor_info matches Some(info) && (info.native_resolution.0 == 0
        || info.native_resolution.1 == 0) {
        Some(MonitorConfigurationError::InvalidNativeResolution)
    } else {
        None
    }
}

fn opt_str_equal(a: &Option<String>, b: &Option<String>) -> (r: bool)
    ensures
        r == both_equal(*a, *b),
{
    match (a, b) {
        (Some(x), Some(y)) => str_equal(x.as_str(), y.as_str()),
        _ => false,
    }
}

impl MonitorInfo {
    /// A copy of the monitor information.
    pub fn duplicate(&self) -> (r: Self)
        ensures
            r == *self,
    {
        MonitorInfo {
            display_name: self.display_name.clone(),
            model_identifier: match &self.model_identifier {
                Some(m) => Some(m.clone()),
                None => None,
            },
            serial_number: match &self.serial_number {
                Some(s) => Some(s.clone()),
                None => None,
            },
            physical_size_mm: self.physical_size_mm,
            native_resolution: self.native_resolution,
        }
    }
}

impl Clone for MonitorInfo {
    fn clone(&self) -> (r: Self)
        ensures
            r == *self,
    {
        self.duplicate()
    }
}

impl MonitorConfiguration {
    /// A configuration with the given identifier; it is checked as
    /// `validate` does.
    pub fn new_with(
        id: u128,
        workspace_id: u128,
        monitor_identifier: String,
        monitor_info: Option<MonitorInfo>,
        primary_pattern_id: u128,
        secondary_pattern_id: Option<u128>,
        active_area: ScreenArea,
        orientation_preference: OrientationPreference,
        scale_factor: u32,
        is_primary: bool,
        handle_fullscreen: bool,
    ) -> (r: Result<Self, MonitorConfigurationError>)
        ensures
            ({
                let c = MonitorConfiguration {
                    id,
                    workspace_id,
                    monitor_identifier,
                    monitor_info,
                    primary_pattern_id,
                    secondary_pattern_id,
                    active_area,
                    orientation_preference,
                    scale_factor,
                    is_primary,
                    handle_fullscreen,
                };
                match configuration_problem(c) {
                    Some(e) => r == Err::<Self, MonitorConfigurationError>(e),
                    None => r == Ok::<Self, MonitorConfigurationError>(c),
                }
            }),
    {
        let c = MonitorConfiguration {
            id,
            workspace_id,
            monitor_identifier,
            monitor_info,
            primary_pattern_id,
            secondary_pattern_id,
            active_area,
            orientation_preference,
            scale_factor,
            is_primary,
            handle_fullscreen,
        };
        match c.validate() {
            Ok(()) => Ok(c),
            Err(e) => Err(e),
        }
    }

    /// A configuration with a fresh identifier; it is checked as `validate`
    /// does.
    pub fn new(
        workspace_id: u128,
        monitor_identifier: String,
        monitor_info: Option<MonitorInfo>,
        primary_pattern_id: u128,
        secondary_pattern_id: Option<u128>,
        active_area: ScreenArea,
        orientation_preference: OrientationPreference,
        scale_factor: u32,
        is_primary: bool,
        handle_fullscreen: bool,
    ) -> (r: Result<Self, MonitorConfigurationError>)
        ensures
            ({
                let c = MonitorConfiguration {
                    id: 0,
                    workspace_id,
                    monitor_identifier,
                    monitor_info,
                    primary_pattern_id,
                    secondary_pattern_id,
                    active_area,
                    orientation_preference,
                    scale_factor,
                    is_primary,
                    handle_fullscreen,
                };
                &&& match configuration_problem(c) {
                    Some(e) => r == Err::<Self, MonitorConfigurationError>(e),
                    None => r is Ok,
                }
                &&& r matches Ok(x) ==> x == (MonitorConfiguration { id: x.id, ..c })
            }),
    {
        Self::new_with(
            new_id(),
            workspace_id,
            monitor_identifier,
            monitor_info,
            primary_pattern_id,
            secondary_pattern_id,
            active_area,
            orientation_preference,
            scale_factor,
            is_primary,
            handle_fullscreen,
        )
    }

    /// Whether this configuration applies to a monitor.
    pub fn matches_monitor(&self, monitor_id: &str, monitor_info: Option<&MonitorInfo>) -> (b: bool)
        ensures
            b == monitor_matches(*self, monitor_id@, deref_info(monitor_info)),
    {
        if str_equal(self.monitor_identifier.as_str(), monitor_id) {
            return true;
        }
        match (&self.monitor_info, monitor_info) {
            (Some(ci), Some(cur)) => {
                if opt_str_equal(&ci.model_identifier, &cur.model_identifier) {
                    return true;
                }
                if opt_str_equal(&ci.serial_number, &cur.serial_number) {
                    return true;
                }
                str_equal(ci.display_name.as_str(), cur.display_name.as_str())
                    && ci.native_resolution.0 == cur.native_resolution.0
                    && ci.native_resolution.1 == cur.native_resolution.1
            },
            _ => false,
        }
    }

    /// The pattern for a window count: the secondary one (when there is one)
    /// beyond the primary pattern's window limit.
    pub fn get_effective_pattern_id(&self, window_count: usize, max_primary_windows: usize) -> (r: u128)
        ensures
            r == if window_count > max_primary_windows {
                match self.secondary_pattern_id {
                    Some(s) => s,
                    None => self.primary_pattern_id,
                }
            } else {
                self.primary_pattern_id
            },
    {
        if window_count > max_primary_windows {
            match self.secondary_pattern_id {
                Some(s) => s,
                None => self.primary_pattern_id,
            }
        } else {
            self.primary_pattern_id
        }
    }

    /// Dimensions scaled by the monitor's factor.
    pub fn scale_dimensions(&self, width: u32, height: u32) -> (r: (u32, u32))
        ensures
            r == (scaled_dim(width, self.scale_factor), scaled_dim(height, self.scale_factor)),
    {
        (scale_dim(width, self.scale_factor), scale_dim(height, self.scale_factor))
    }

    /// A position scaled by the monitor's factor.
    pub fn scale_position(&self, x: i32, y: i32) -> (r: (i32, i32))
        ensures
            r == (scaled_coord(x, self.scale_factor), scaled_coord(y, self.scale_factor)),
    {
        (scale_coord(x, self.scale_factor), scale_coord(y, self.scale_factor))
    }

    /// The usable area for tiling: the active area within the full screen.
    pub fn get_usable_area(&self, full_screen_area: &ScreenArea) -> (r: ScreenArea)
        requires
            usable_area_fits(self.active_area, *full_screen_area),
        ensures
            r == usable_area(self.active_area, *full_screen_area),
    {
        let a = self.active_area;
        let f = *full_screen_area;
        let x = if a.x >= f.x { a.x } else { f.x };
        let y = if a.y >= f.y { a.y } else { f.y };
        let ar = a.x + a.width as i32;
        let fr = f.x + f.width as i32;
        let right = if ar <= fr { ar } else { fr };
        let ab = a.y + a.height as i32;
        let fb = f.y + f.height as i32;
        let bottom = if ab <= fb { ab } else { fb };
        let dw = right - x;
        let dh = bottom - y;
        ScreenArea {
            x,
            y,
            width: if dw > 0 { dw as u32 } else { 0 },
            height: if dh > 0 { dh as u32 } else { 0 },
        }
    }

    /// Whether a monitor of the given size has the preferred orientation.
    pub fn orientation_matches(&self, monitor_width: u32, monitor_height: u32) -> (b: bool)
        ensures
            b == match self.orientation_preference {
                OrientationPreference::Landscape => monitor_width >= monitor_height,
                OrientationPreference::Portrait => monitor_height > monitor_width,
                _ => true,
            },
    {
        match self.orientation_preference {
            OrientationPreference::Current => true,
            OrientationPreference::Landscape => monitor_width >= monitor_height,
            OrientationPreference::Portrait => monitor_height > monitor_width,
            OrientationPreference::MatchPrimary => true,
        }
    }

    /// Replaces the active area; an area with a zero dimension is refused.
    pub fn update_active_area(&mut self, new_area: ScreenArea) -> (r: Result<(), MonitorConfigurationError>)
        ensures
            new_area.width == 0 || new_area.height == 0 ==> r == Err::<(), MonitorConfigurationError>(
                MonitorConfigurationError::InvalidActiveArea,
            ) && *final(self) == *old(self),
            !(new_area.width == 0 || new_area.height == 0) ==> r is Ok && *final(self)
                == (MonitorConfiguration { active_area: new_area, ..*old(self) }),
    {
        if new_area.width == 0 || new_area.height == 0 {
            return Err(MonitorConfigurationError::InvalidActiveArea);
        }
        self.active_area = new_area;
        Ok(())
    }

    /// Checks the configuration: a non-blank identifier, a non-empty active
    /// area, a scale factor above 0 and at most 5, and, with monitor
    /// information, a non-blank display name and a non-zero resolution.
    pub fn validate(&self) -> (r: Result<(), MonitorConfigurationError>)
        ensures
            r == match configuration_problem(*self) {
                Some(e) => Err::<(), MonitorConfigurationError>(e),
                None => Ok(()),
            },
    {
        if str_is_blank(self.monitor_identifier.as_str()) {
            return Err(MonitorConfigurationError::EmptyMonitorIdentifier);
        }
        if self.active_area.width == 0 || self.active_area.height == 0 {
            return Err(MonitorConfigurationError::InvalidActiveArea);
        }
        if self.scale_factor == 0 || self.scale_factor > 5000 {
            return Err(MonitorConfigurationError::InvalidScaleFactor(self.scale_factor));
        }
        if let Some(info) = &self.monitor_info {
            if str_is_blank(info.display_name.as_str()) {
                return Err(MonitorConfigurationError::EmptyDisplayName);
            }
            if info.native_resolution.0 == 0 || info.native_resolution.1 == 0 {
                return Err(MonitorConfigurationError::InvalidNativeResolution);
            }
        }
        Ok(())
    }

    /// A copy of the configuration.
    pub fn duplicate(&self) -> (r: Self)
        ensures
            r == *self,
    {
        MonitorConfiguration {
            id: self.id,
            workspace_id: self.workspace_id,
            monitor_identifier: self.monitor_identifier.clone(),
            monitor_info: match &self.monitor_info {
                Some(i) => Some(i.duplicate()),
                None => None,
            },
            primary_pattern_id: self.primary_pattern_id,
            secondary_pattern_id: self.secondary_pattern_id,
            active_area: self.active_area,
            orientation_preference: self.orientation_preference,
            scale_factor: self.scale_factor,
            is_primary: self.is_primary,
            handle_fullscreen: self.handle_fullscreen,
        }
    }
}

fn scale_dim(v: u32, s: u32) -> (r: u32)
    ensures
        r == scaled_dim(v, s),
{
    assert(2 * (v as u128) * (s as u128) + 1000 < 0x1_0000_0000_0000_0000_0000_0000_0000_0000) by (nonlinear_arith)
        requires
            v <= u32::MAX,
            s <= u32::MAX,
    ;
    let q: u128 = (2 * (v as u128) * (s as u128) + 1000) / 2000;
    if q > u32::MAX as u128 {
        u32::MAX
    } else {
        q as u32
    }
}

fn scale_coord(v: i32, s: u32) -> (r: i32)
    ensures
        r == scaled_coord(v, s),
{
    let neg = v < 0;
    let mag_in: u128 = if neg { (-(v as i128)) as u128 } else { v as u128 };
    assert(2 * mag_in * (s as u128) + 1000 < 0x1_0000_0000_0000_0000_0000_0000_0000_0000) by (nonlinear_arith)
        requires
            mag_in <= 0x8000_0000,
            s <= u32::MAX,
    ;
    let mag: u128 = (2 * mag_in * (s as u128) + 1000) / 2000;
    if neg {
        if mag > 0x8000_0000 {
            i32::MIN
        } else {
            (-(mag as i128)) as i32
        }
    } else {
        if mag > i32::MAX as u128 {
            i32::MAX
        } else {
            mag as i32
        }
    }
}

impl Default for MonitorConfiguration {
    fn default() -> (c: Self)
        ensures
            c.monitor_identifier@ == "main"@,
            c.monitor_info is None,
            c.secondary_pattern_id is None,
            c.active_area == (ScreenArea { x: 0, y: 0, width: 1920, height: 1080 }),
            c.orientation_preference == OrientationPreference::Current,
            c.scale_factor == 1000,
            c.is_primary,
            c.handle_fullscreen,
    {
        MonitorConfiguration {
            id: new_id(),
            workspace_id: new_id(),
            monitor_identifier: owned("main"),
            monitor_info: None,
            primary_pattern_id: new_id(),
            secondary_pattern_id: None,
            active_area: ScreenArea { x: 0, y: 0, width: 1920, height: 1080 },
            orientation_preference: OrientationPreference::Current,
            scale_factor: 1000,
            is_primary: true,
            handle_fullscreen: true,
        }
    }
}

/// The position of the first configuration that applies to a monitor.
pub open spec fn first_match(s: Seq<MonitorConfiguration>, id: Seq<char>, info: Option<MonitorInfo>) -> Option<int>
    decreases s.len(),
{
    if s.len() == 0 {
        None
    } else {
        match first_match(s.drop_last(), id, info) {
            Some(i) => Some(i),
            None => if monitor_matches(s.last(), id, info) {
                Some(s.len() - 1)
            } else {
                None
            },
        }
    }
}

/// The position of the first configuration with the identifier.
pub open spec fn first_with_identifier(s: Seq<MonitorConfiguration>, id: Seq<char>) -> Option<int>
    decreases s.len(),
{
    if s.len() == 0 {
        None
    } else {
        match first_with_identifier(s.drop_last(), id) {
            Some(i) => Some(i),
            None => if s.last().monitor_identifier@ == id {
                Some(s.len() - 1)
            } else {
                None
            },
        }
    }
}

/// The position of the first primary configuration.
pub open spec fn first_primary(s: Seq<MonitorConfiguration>) -> Option<int>
    decreases s.len(),
{
    if s.len() == 0 {
        None
    } else {
        match first_primary(s.drop_last()) {
            Some(i) => Some(i),
            None => if s.last().is_primary {
                Some(s.len() - 1)
            } else {
                None
            },
        }
    }
}

/// The configurations of a workspace, one per monitor identifier, with a
/// fallback for monitors none applies to.
#[derive(Debug, Clone)]
pub struct MonitorConfigurationSet {
    pub workspace_id: u128,
    pub configurations: Vec<MonitorConfiguration>,
    pub fallback_configuration: Option<MonitorConfiguration>,
}

impl MonitorConfigurationSet {
    /// An empty set for a workspace.
    pub fn new(workspace_id: u128) -> (s: Self)
        ensures
            s.workspace_id == workspace_id,
            s.configurations@.len() == 0,
            s.fallback_configuration is None,
    {
        MonitorConfigurationSet { workspace_id, configurations: Vec::new(), fallback_configuration: None }
    }

    fn index_with_identifier(&self, monitor_id: &str) -> (r: Option<usize>)
        ensures
            r matches Some(i) ==> first_with_identifier(self.configurations@, monitor_id@) == Some(i as int),
            r is None ==> first_with_identifier(self.configurations@, monitor_id@) is None,
    {
        let mut i: usize = 0;
        while i < self.configurations.len()
            invariant
                i <= self.configurations@.len(),
                first_with_identifier(self.configurations@.take(i as int), monitor_id@) is None,
            decreases self.configurations.len() - i,
        {
            assert(self.configurations@.take(i + 1).drop_last() =~= self.configurations@.take(i as int));
            if str_equal(self.configurations[i].monitor_identifier.as_str(), monitor_id) {
                proof {
                    lemma_prefix_first(self.configurations@, i as int, monitor_id@);
                }
                return Some(i);
            }
            i = i + 1;
        }
        assert(self.configurations@.take(i as int) =~= self.configurations@);
        None
    }

    /// Adds a configuration of this set's workspace whose monitor has none yet.
    pub fn add_configuration(&mut self, config: MonitorConfiguration) -> (r: Result<(), MonitorConfigurationError>)
        ensures
            config.workspace_id != old(self).workspace_id ==> r == Err::<(), MonitorConfigurationError>(
                MonitorConfigurationError::WorkspaceMismatch,
            ) && *final(self) == *old(self),
            config.workspace_id == old(self).workspace_id && first_with_identifier(
                old(self).configurations@,
                config.monitor_identifier@,
            ) is Some ==> (r matches Err(MonitorConfigurationError::DuplicateMonitorIdentifier(m))
                && m@ == config.monitor_identifier@) && *final(self) == *old(self),
            config.workspace_id == old(self).workspace_id && first_with_identifier(
                old(self).configurations@,
                config.monitor_identifier@,
            ) is None ==> r is Ok && final(self).configurations@ == old(self).configurations@.push(config)
                && final(self).workspace_id == old(self).workspace_id
                && final(self).fallback_configuration == old(self).fallback_configuration,
    {
        if config.workspace_id != self.workspace_id {
            return Err(MonitorConfigurationError::WorkspaceMismatch);
        }
        if self.index_with_identifier(config.monitor_identifier.as_str()).is_some() {
            return Err(MonitorConfigurationError::DuplicateMonitorIdentifier(config.monitor_identifier));
        }
        self.configurations.push(config);
        Ok(())
    }

    /// The first configuration that applies to a monitor, else the fallback.
    pub fn find_configuration(&self, monitor_id: &str, monitor_info: Option<&MonitorInfo>) -> (r: Option<&MonitorConfiguration>)
        ensures
            match first_match(self.configurations@, monitor_id@, deref_info(monitor_info)) {
                Some(i) => r == Some(&self.configurations@[i]),
                None => match self.fallback_configuration {
                    Some(f) => r == Some(&f),
                    None => r is None,
                },
            },
    {
        let mut i: usize = 0;
        while i < self.configurations.len()
            invariant
                i <= self.configurations@.len(),
                first_match(self.configurations@.take(i as int), monitor_id@, deref_info(monitor_info)) is None,
            decreases self.configurations.len() - i,
        {
            assert(self.configurations@.take(i + 1).drop_last() =~= self.configurations@.take(i as int));
            if self.configurations[i].matches_monitor(monitor_id, monitor_info) {
                proof {
                    lemma_prefix_first_match(self.configurations@, i as int, monitor_id@, deref_info(monitor_info));
                }
                return Some(&self.configurations[i]);
            }
            i = i + 1;
        }
        assert(self.configurations@.take(i as int) =~= self.configurations@);
        match &self.fallback_configuration {
            Some(f) => Some(f),
            None => None,
        }
    }

    /// The first primary configuration.
    pub fn get_primary_configuration(&self) -> (r: Option<&MonitorConfiguration>)
        ensures
            match first_primary(self.configurations@) {
                Some(i) => r == Some(&self.configurations@[i]),
                None => r is None,
            },
    {
        let mut i: usize = 0;
        while i < self.configurations.len()
            invariant
                i <= self.configurations@.len(),
                first_primary(self.configurations@.take(i as int)) is None,
            decreases self.configurations.len() - i,
        {
            assert(self.configurations@.take(i + 1).drop_last() =~= self.configurations@.take(i as int));
            if self.configurations[i].is_primary {
                proof {
                    lemma_prefix_first_primary(self.configurations@, i as int);
                }
                return Some(&self.configurations[i]);
            }
            i = i + 1;
        }
        assert(self.configurations@.take(i as int) =~= self.configurations@);
        None
    }

    /// Updates the configuration of a monitor (the first with its
    /// identifier) with `updater`, which takes it and gives back the
    /// updated configuration and its outcome.
    pub fn update_configuration<F>(&mut self, monitor_id: &str, updater: F) -> (r: Result<(), MonitorConfigurationError>)
        where
            F: FnOnce(MonitorConfiguration) -> (MonitorConfiguration, Result<(), MonitorConfigurationError>),
        requires
            forall|c: MonitorConfiguration| call_requires(updater, (c,)),
        ensures
            final(self).workspace_id == old(self).workspace_id,
            final(self).fallback_configuration == old(self).fallback_configuration,
            match first_with_identifier(old(self).configurations@, monitor_id@) {
                Some(i) => call_ensures(
                    updater,
                    (old(self).configurations@[i],),
                    (final(self).configurations@[i], r),
                ),
                None => (r matches Err(MonitorConfigurationError::MonitorNotFound(m)) && m@ == monitor_id@)
                    && final(self).configurations@ == old(self).configurations@,
            },
            first_with_identifier(old(self).configurations@, monitor_id@) matches Some(i)
                ==> final(self).configurations@ == old(self).configurations@.update(i, final(self).configurations@[i]),
    {
        let found = self.index_with_identifier(monitor_id);
        proof {
            lemma_first_with_identifier_range(self.configurations@, monitor_id@);
        }
        match found {
            Some(i) => {
                assert(first_with_identifier(old(self).configurations@, monitor_id@) == Some(i as int));
                let current = self.configurations[i].duplicate();
                let result = updater(current);
                assert(call_ensures(updater, (old(self).configurations@[i as int],), result));
                let (updated, outcome) = result;
                self.configurations.set(i, updated);
                outcome
            },
            None => Err(MonitorConfigurationError::MonitorNotFound(owned(monitor_id))),
        }
    }
}

proof fn lemma_first_with_identifier_range(s: Seq<MonitorConfiguration>, id: Seq<char>)
    ensures
        first_with_identifier(s, id) matches Some(i) ==> 0 <= i < s.len() && s[i].monitor_identifier@ == id,
    decreases s.len(),
{
    if s.len() > 0 {
        lemma_first_with_identifier_range(s.drop_last(), id);
    }
}

proof fn lemma_prefix_first(s: Seq<MonitorConfiguration>, i: int, id: Seq<char>)
    requires
        0 <= i < s.len(),
        first_with_identifier(s.take(i), id) is None,
        s[i].monitor_identifier@ == id,
    ensures
        first_with_identifier(s, id) == Some(i),
    decreases s.len(),
{
    if i == s.len() - 1 {
        assert(s.drop_last() =~= s.take(i));
    } else {
        assert(s.drop_last().take(i) =~= s.take(i));
        lemma_prefix_first(s.drop_last(), i, id);
    }
}

proof fn lemma_prefix_first_match(s: Seq<MonitorConfiguration>, i: int, id: Seq<char>, info: Option<MonitorInfo>)
    requires
        0 <= i < s.len(),
        first_match(s.take(i), id, info) is None,
        monitor_matches(s[i], id, info),
    ensures
        first_match(s, id, info) == Some(i),
    decreases s.len(),
{
    if i == s.len() - 1 {
        assert(s.drop_last() =~= s.take(i));
    } else {
        assert(s.drop_last().take(i) =~= s.take(i));
        lemma_prefix_first_match(s.drop_last(), i, id, info);
    }
}

proof fn lemma_prefix_first_primary(s: Seq<MonitorConfiguration>, i: int)
    requires
        0 <= i < s.len(),
        first_primary(s.take(i)) is None,
        s[i].is_primary,
    ensures
        first_primary(s) == Some(i),
    decreases s.len(),
{
    if i == s.len() - 1 {
        assert(s.drop_last() =~= s.take(i));
    } else {
        assert(s.drop_last().take(i) =~= s.take(i));
        lemma_prefix_first_primary(s.drop_last(), i);
    }
}

} // verus!
