//! macOS permissions: the permissions TilleRS needs, the cache of their
//! statuses, which to check and to request, the summary of a check and the
//! instructions shown to the user. Querying the system happens outside;
//! the decisions around it are made here.

use vstd::prelude::*;
use crate::text::{owned, push_str, push_decimal, decimal};

verus! {

/// Errors related to permission checking and management.
#[derive(Debug, Clone, PartialEq, Eq)]
pub enum PermissionError {
    Denied { permission: String },
    CheckFailed { message: String },
    SystemError { message: String },
}

/// The message of a permission error.
pub open spec fn permission_error_message(e: PermissionError) -> Seq<char> {
    match e {
        PermissionError::Denied { permission } => "Permission denied: "@ + permission@,
        PermissionError::CheckFailed { message } => "Permission check failed: "@ + message@,
        PermissionError::SystemError { message } => "macOS API error: "@ + message@,
    }
}

impl PermissionError {
    /// The human-readable message of this error.
    pub fn message(&self) -> (m: String)
        ensures
            m@ == permission_error_message(*self),
    {
        match self {
            PermissionError::Denied { permission } => {
                let mut m = owned("Permission denied: ");
                push_str(&mut m, permission.as_str());
                m
            },
            PermissionError::CheckFailed { message } => {
                let mut m = owned("Permission check failed: ");
                push_str(&mut m, message.as_str());
                m
            },
            PermissionError::SystemError { message } => {
                let mut m = owned("macOS API error: ");
                push_str(&mut m, message.as_str());
                m
            },
        }
    }
}

/// Types of permissions required by TilleRS.
#[derive(Debug, Clone, Copy, PartialEq, Eq, Hash, Structural)]
pub enum PermissionType {
    /// Accessibility API access for window manipulation
    Accessibility,
    /// Input monitoring for global keyboard shortcuts
    InputMonitoring,
    /// Screen recording (optional, for advanced window detection)
    ScreenRecording,
}

/// The name a permission is shown under.
pub open spec fn permission_name(p: PermissionType) -> Seq<char> {
    match p {
        PermissionType::Accessibility => "Accessibility"@,
        PermissionType::InputMonitoring => "Input Monitoring"@,
        PermissionType::ScreenRecording => "Screen Recording"@,
    }
}

impl PermissionType {
    /// The name the permission is shown under.
    pub fn display_name(&self) -> (r: &'static str)
        ensures
            r@ == permission_name(*self),
    {
        match self {
            PermissionType::Accessibility => "Accessibility",
            PermissionType::InputMonitoring => "Input Monitoring",
            PermissionType::ScreenRecording => "Screen Recording",
        }
    }
}

/// Permission status for a specific permission type.
#[derive(Debug, Clone, Copy, PartialEq, Eq, Structural)]
pub enum PermissionStatus {
    /// Permission is granted
    Granted,
    /// Permission is denied
    Denied,
    /// Permission status is unknown or indeterminate
    Unknown,
    /// Permission was not requested yet
    NotRequested,
}

/// The status a system probe answers with.
pub fn status_from_probe(granted: bool) -> (s: PermissionStatus)
    ensures
        s == if granted { PermissionStatus::Granted } else { PermissionStatus::Denied },
{
    if granted {
        PermissionStatus::Granted
    } else {
        PermissionStatus::Denied
    }
}

/// Configuration for permission checking behavior.
#[derive(Debug, Clone)]
pub struct PermissionConfig {
    /// How long a checked status stays valid, in milliseconds
    pub check_interval: u64,
    /// Whether to automatically prompt for permissions
    pub auto_prompt: bool,
    /// Required permissions (app will not function without these)
    pub required_permissions: Vec<PermissionType>,
    /// Optional permissions (app can function with degraded features)
    pub optional_permissions: Vec<PermissionType>,
}

impl Default for PermissionConfig {
    fn default() -> (c: Self)
        ensures
            c.check_interval == 30_000,
            c.auto_prompt,
            c.required_permissions@ == seq![PermissionType::Accessibility, PermissionType::InputMonitoring],
            c.optional_permissions@ == seq![PermissionType::ScreenRecording],
    {
        PermissionConfig {
            check_interval: 30_000,
            auto_prompt: true,
            required_permissions: vec![PermissionType::Accessibility, PermissionType::InputMonitoring],
            optional_permissions: vec![PermissionType::ScreenRecording],
        }
    }
}

/// A cached status: the permission, its status and when it was checked
/// (milliseconds since the Unix epoch).
pub type CachedStatus = (PermissionType, PermissionStatus, i64);

/// Whether the entries have pairwise different permissions.
pub open spec fn cache_keys_unique(c: Seq<CachedStatus>) -> bool {
    forall|i: int, j: int| 0 <= i < j < c.len() ==> (#[trigger] c[i]).0 != (#[trigger] c[j]).0
}

/// The cached entry of a permission, if any.
pub open spec fn cache_entry(c: Seq<CachedStatus>, p: PermissionType) -> Option<(PermissionStatus, i64)>
    decreases c.len(),
{
    if c.len() == 0 {
        None
    } else if c.last().0 == p {
        Some((c.last().1, c.last().2))
    } else {
        cache_entry(c.drop_last(), p)
    }
}

/// Time elapsed since `t` as seen at `now`, never negative.
pub open spec fn elapsed(now: i64, t: i64) -> int {
    if now >= t {
        now - t
    } else {
        0
    }
}

/// The list of statuses as a sequence of pairs.
pub type StatusList = Vec<(PermissionType, PermissionStatus)>;

/// The status a list gives a permission: the first entry for it.
pub open spec fn status_in(s: Seq<(PermissionType, PermissionStatus)>, p: PermissionType) -> Option<PermissionStatus>
    decreases s.len(),
{
    if s.len() == 0 {
        None
    } else if s[0].0 == p {
        Some(s[0].1)
    } else {
        status_in(s.drop_first(), p)
    }
}

/// Number of entries that are granted and whose permission is (or is not,
/// with `required` false) in `req`.
pub open spec fn granted_count(
    s: Seq<(PermissionType, PermissionStatus)>,
    req: Seq<PermissionType>,
    required: bool,
) -> nat
    decreases s.len(),
{
    if s.len() == 0 {
        0
    } else {
        granted_count(s.drop_last(), req, required) + if s.last().1 == PermissionStatus::Granted
            && req.contains(s.last().0) == required {
            1nat
        } else {
            0nat
        }
    }
}

/// The permissions of the entries that are in `req` and not granted, in order.
pub open spec fn missing_in(s: Seq<(PermissionType, PermissionStatus)>, req: Seq<PermissionType>) -> Seq<PermissionType>
    decreases s.len(),
{
    if s.len() == 0 {
        Seq::empty()
    } else {
        let rest = missing_in(s.drop_last(), req);
        if s.last().1 != PermissionStatus::Granted && req.contains(s.last().0) {
            rest.push(s.last().0)
        } else {
            rest
        }
    }
}

/// The user-facing steps to enable a permission.
pub open spec fn permission_instructions(p: PermissionType) -> Seq<char> {
    match p {
        PermissionType::Accessibility => "To enable TilleRS window management:\n1. Open System Preferences > Security & Privacy > Privacy\n2. Select 'Accessibility' from the list\n3. Click the lock icon and enter your password\n4. Check the box next to 'TilleRS'\n5. Restart TilleRS"@,
        PermissionType::InputMonitoring => "To enable TilleRS keyboard shortcuts:\n1. Open System Preferences > Security & Privacy > Privacy\n2. Select 'Input Monitoring' from the list\n3. Click the lock icon and enter your password\n4. Check the box next to 'TilleRS'\n5. Restart TilleRS"@,
        PermissionType::ScreenRecording => "To enable advanced window detection (optional):\n1. Open System Preferences > Security & Privacy > Privacy\n2. Select 'Screen Recording' from the list\n3. Click the lock icon and enter your password\n4. Check the box next to 'TilleRS'\n5. Restart TilleRS"@,
    }
}

/// Whether a list of permissions contains one.
/// Whether no permission has two entries in the list (the list stands for
/// a map from permissions to statuses).
pub open spec fn statuses_unique(s: Seq<(PermissionType, PermissionStatus)>) -> bool {
    forall|i: int, j: int| 0 <= i < j < s.len() ==> (#[trigger] s[i]).0 != (#[trigger] s[j]).0
}

/// The permissions of a list, each once, in the order of their first entry.
pub open spec fn distinct_in_order(s: Seq<PermissionType>) -> Seq<PermissionType>
    decreases s.len(),
{
    if s.len() == 0 {
        Seq::empty()
    } else {
        let r = distinct_in_order(s.drop_last());
        if r.contains(s.last()) {
            r
        } else {
            r.push(s.last())
        }
    }
}

/// Taking each permission once leaves no repeat and keeps every permission.
pub proof fn lemma_distinct_in_order(s: Seq<PermissionType>)
    ensures
        distinct_in_order(s).no_duplicates(),
        forall|p: PermissionType| distinct_in_order(s).contains(p) <==> s.contains(p),
    decreases s.len(),
{
    if s.len() > 0 {
        let d = s.drop_last();
        lemma_distinct_in_order(d);
        let r = distinct_in_order(d);
        assert forall|p: PermissionType| s.contains(p) <==> (d.contains(p) || p == s.last()) by {
            if s.contains(p) {
                let k = choose|k: int| 0 <= k < s.len() && s[k] == p;
                if k < s.len() - 1 {
                    assert(d[k] == p);
                }
            }
            if d.contains(p) {
                let k = choose|k: int| 0 <= k < d.len() && d[k] == p;
                assert(s[k] == p);
            }
            if p == s.last() {
                assert(s[s.len() - 1] == p);
            }
        }
        if !r.contains(s.last()) {
            let t = r.push(s.last());
            assert forall|a: int, b: int| 0 <= a < t.len() && 0 <= b < t.len() && a != b implies t[a] != t[b] by {
                if a < r.len() && b < r.len() {
                } else if a < r.len() {
                    assert(r.contains(t[a]));
                } else {
                    assert(r.contains(t[b]));
                }
            }
            assert forall|p: PermissionType| t.contains(p) <==> (r.contains(p) || p == s.last()) by {
                if t.contains(p) {
                    let k = choose|k: int| 0 <= k < t.len() && t[k] == p;
                    if k < r.len() {
                        assert(r[k] == p);
                    }
                }
                if r.contains(p) {
                    let k = choose|k: int| 0 <= k < r.len() && r[k] == p;
                    assert(t[k] == p);
                }
                if p == s.last() {
                    assert(t[r.len() as int] == p);
                }
            }
        }
    }
}

/// The permissions missing from a list that holds each permission once are
/// each listed once, and each has an entry in the list.
pub proof fn lemma_missing_unique(s: Seq<(PermissionType, PermissionStatus)>, req: Seq<PermissionType>)
    requires
        statuses_unique(s),
    ensures
        missing_in(s, req).no_duplicates(),
        forall|p: PermissionType| #[trigger] missing_in(s, req).contains(p) ==> exists|i: int| 0 <= i < s.len() && s[i].0 == p,
    decreases s.len(),
{
    if s.len() > 0 {
        let d = s.drop_last();
        assert(statuses_unique(d)) by {
            assert forall|i: int, j: int| 0 <= i < j < d.len() implies (#[trigger] d[i]).0 != (#[trigger] d[j]).0 by {
                assert(d[i] == s[i]);
                assert(d[j] == s[j]);
            }
        }
        lemma_missing_unique(d, req);
        let r = missing_in(d, req);
        let t = missing_in(s, req);
        assert forall|p: PermissionType| #[trigger] r.contains(p) implies exists|i: int| 0 <= i < s.len() && s[i].0 == p by {
            let i = choose|i: int| 0 <= i < d.len() && d[i].0 == p;
            assert(s[i] == d[i]);
        }
        if s.last().1 != PermissionStatus::Granted && req.contains(s.last().0) {
            assert(!r.contains(s.last().0)) by {
                if r.contains(s.last().0) {
                    let i = choose|i: int| 0 <= i < d.len() && d[i].0 == s.last().0;
                    assert(s[i] == d[i]);
                    assert(s[i].0 != s[s.len() - 1].0);
                }
            }
            assert forall|a: int, b: int| 0 <= a < t.len() && 0 <= b < t.len() && a != b implies t[a] != t[b] by {
                if a < r.len() && b < r.len() {
                } else if a < r.len() {
                    assert(r.contains(t[a]));
                } else {
                    assert(r.contains(t[b]));
                }
            }
            assert forall|p: PermissionType| #[trigger] t.contains(p) implies exists|i: int| 0 <= i < s.len() && s[i].0 == p by {
                let k = choose|k: int| 0 <= k < t.len() && t[k] == p;
                if k < r.len() {
                    assert(r[k] == p);
                    assert(r.contains(p));
                } else {
                    assert(s[s.len() - 1].0 == p);
                }
            }
        }
    }
}

fn list_contains(list: &Vec<PermissionType>, p: PermissionType) -> (b: bool)
    ensures
        b == list@.contains(p),
{
    let mut i: usize = 0;
    while i < list.len()
        invariant
            i <= list.len(),
            forall|j: int| 0 <= j < i ==> list@[j] != p,
        decreases list.len() - i,
    {
        if list[i] == p {
            return true;
        }
        i = i + 1;
    }
    false
}

/// Summary of current permission status.
#[derive(Debug, Clone)]
pub struct PermissionSummary {
    /// Whether all required permissions are granted
    pub all_required_granted: bool,
    /// Whether the app can function (has minimum required permissions)
    pub can_function: bool,
    /// Number of required permissions granted
    pub required_granted: usize,
    /// Total number of required permissions
    pub required_total: usize,
    /// Number of optional permissions granted
    pub optional_granted: usize,
    /// Total number of optional permissions
    pub optional_total: usize,
    /// Individual permission statuses
    pub statuses: Vec<(PermissionType, PermissionStatus)>,
    /// The permissions the configuration requires
    pub required_permissions: Vec<PermissionType>,
}

/// The description of a summary.
pub open spec fn summary_description(s: PermissionSummary) -> Seq<char> {
    if s.all_required_granted {
        "All permissions granted ("@ + decimal(s.required_granted as nat) + "/"@ + decimal(
            s.required_total as nat,
        ) + " required, "@ + decimal(s.optional_granted as nat) + "/"@ + decimal(
            s.optional_total as nat,
        ) + " optional)"@
    } else {
        "Missing permissions ("@ + decimal(s.required_granted as nat) + "/"@ + decimal(
            s.required_total as nat,
        ) + " required granted)"@
    }
}

impl PermissionSummary {
    /// A human-readable description of the permission status.
    pub fn description(&self) -> (r: String)
        ensures
            r@ == summary_description(*self),
    {
        if self.all_required_granted {
            let mut m = owned("All permissions granted (");
            push_decimal(&mut m, self.required_granted as u64);
            push_str(&mut m, "/");
            push_decimal(&mut m, self.required_total as u64);
            push_str(&mut m, " required, ");
            push_decimal(&mut m, self.optional_granted as u64);
            push_str(&mut m, "/");
            push_decimal(&mut m, self.optional_total as u64);
            push_str(&mut m, " optional)");
            m
        } else {
            let mut m = owned("Missing permissions (");
            push_decimal(&mut m, self.required_granted as u64);
            push_str(&mut m, "/");
            push_decimal(&mut m, self.required_total as u64);
            push_str(&mut m, " required granted)");
            m
        }
    }

    /// The required permissions that are not granted, in the order of the statuses.
    pub fn missing_required_permissions(&self) -> (r: Vec<PermissionType>)
        ensures
            r@ == missing_in(self.statuses@, self.required_permissions@),
            statuses_unique(self.statuses@) ==> r@.no_duplicates(),
    {
        proof {
            if statuses_unique(self.statuses@) {
                lemma_missing_unique(self.statuses@, self.required_permissions@);
            }
        }
        let mut r: Vec<PermissionType> = Vec::new();
        let mut i: usize = 0;
        while i < self.statuses.len()
            invariant
                i <= self.statuses@.len(),
                r@ == missing_in(self.statuses@.take(i as int), self.required_permissions@),
            decreases self.statuses.len() - i,
        {
            let (p, s) = self.statuses[i];
            assert(self.statuses@.take(i + 1).drop_last() =~= self.statuses@.take(i as int));
            if s != PermissionStatus::Granted && list_contains(&self.required_permissions, p) {
                r.push(p);
            }
            i = i + 1;
        }
        assert(self.statuses@.take(self.statuses@.len() as int) =~= self.statuses@);
        r
    }
}

/// Permission checker: the configuration, the cache of checked statuses and
/// the time of the last full check.
pub struct PermissionChecker {
    config: PermissionConfig,
    status_cache: Vec<CachedStatus>,
    last_check: Option<i64>,
}

impl PermissionChecker {
    /// The checker's invariant: one cache entry per permission.
    pub closed spec fn wf(&self) -> bool {
        cache_keys_unique(self.status_cache@)
    }

    /// The configuration.
    pub closed spec fn config_view(&self) -> PermissionConfig {
        self.config
    }

    /// The cache of checked statuses.
    pub closed spec fn cache(&self) -> Seq<CachedStatus> {
        self.status_cache@
    }

    /// The time of the last full check.
    pub closed spec fn last_check_view(&self) -> Option<i64> {
        self.last_check
    }

    /// Create a permission checker with an empty cache.
    pub fn new(config: PermissionConfig) -> (c: Self)
        ensures
            c.wf(),
            c.config_view() == config,
            c.cache().len() == 0,
            c.last_check_view() is None,
    {
        PermissionChecker { config, status_cache: Vec::new(), last_check: None }
    }

    /// Whether nothing is cached.
    pub fn is_cache_empty(&self) -> (b: bool)
        ensures
            b == (self.cache().len() == 0),
    {
        self.status_cache.len() == 0
    }

    /// The time of the last full check.
    pub fn last_check(&self) -> (t: Option<i64>)
        ensures
            t == self.last_check_view(),
    {
        self.last_check
    }

    /// The cached status of a permission if it was checked less than the
    /// check interval before `now`.
    pub fn cached_status_at(&self, permission: PermissionType, now: i64) -> (r: Option<PermissionStatus>)
        ensures
            r == match cache_entry(self.cache(), permission) {
                Some((s, t)) => if elapsed(now, t) < self.config_view().check_interval {
                    Some(s)
                } else {
                    None
                },
                None => None,
            },
    {
        let mut i = self.status_cache.len();
        assert(self.status_cache@.take(i as int) =~= self.status_cache@);
        while i > 0
            invariant
                i <= self.status_cache@.len(),
                cache_entry(self.status_cache@, permission) == cache_entry(
                    self.status_cache@.take(i as int),
                    permission,
                ),
            decreases i,
        {
            let (p, s, t) = self.status_cache[i - 1];
            let ghost pre = self.status_cache@.take(i as int);
            assert(pre.drop_last() =~= self.status_cache@.take(i - 1));
            if p == permission {
                let age: i128 = if now >= t { now as i128 - t as i128 } else { 0 };
                if age < self.config.check_interval as i128 {
                    return Some(s);
                } else {
                    return None;
                }
            }
            i = i - 1;
        }
        None
    }

    /// Records the status of a permission as checked at `now`.
    pub fn record_status(&mut self, permission: PermissionType, status: PermissionStatus, now: i64)
        requires
            old(self).wf(),
        ensures
            final(self).wf(),
            final(self).config_view() == old(self).config_view(),
            final(self).last_check_view() == old(self).last_check_view(),
            cache_entry(final(self).cache(), permission) == Some((status, now)),
            forall|q: PermissionType| q != permission ==> cache_entry(final(self).cache(), q) == cache_entry(
                old(self).cache(),
                q,
            ),
    {
        let ghost c0 = self.status_cache@;
        let ghost cfg = self.config;
        let ghost last = self.last_check;
        let mut i: usize = 0;
        while i < self.status_cache.len()
            invariant
                i <= self.status_cache@.len(),
                self.status_cache@ == c0,
                cache_keys_unique(c0),
                self.config == cfg,
                self.last_check == last,
                old(self).config == cfg,
                old(self).last_check == last,
                old(self).status_cache@ == c0,
                forall|j: int| 0 <= j < i ==> (#[trigger] c0[j]).0 != permission,
            decreases self.status_cache.len() - i,
        {
            if self.status_cache[i].0 == permission {
                self.status_cache.set(i, (permission, status, now));
                proof {
                    lemma_cache_set(c0, i as int, (permission, status, now));
                }
                return;
            }
            i = i + 1;
        }
        proof {
            lemma_cache_absent(c0, permission);
        }
        self.status_cache.push((permission, status, now));
        proof {
            let c1 = c0.push((permission, status, now));
            assert(c1.drop_last() =~= c0);
            assert forall|q: PermissionType| q != permission implies cache_entry(c1, q) == cache_entry(c0, q) by {}
            assert forall|a: int, b: int| 0 <= a < b < c1.len() implies (#[trigger] c1[a]).0 != (#[trigger] c1[b]).0 by {
                if b == c0.len() {
                    assert(c1[a] == c0[a]);
                }
            }
        }
    }

    /// Records that a full check happened at `now`.
    pub fn record_check_time(&mut self, now: i64)
        requires
            old(self).wf(),
        ensures
            final(self).wf(),
            final(self).last_check_view() == Some(now),
            final(self).cache() == old(self).cache(),
            final(self).config_view() == old(self).config_view(),
    {
        self.last_check = Some(now);
    }

    /// The permissions a full check looks at: the required ones, then the
    /// optional ones, each once (a permission listed again is checked under
    /// the same entry).
    pub fn permissions_to_check(&self) -> (r: Vec<PermissionType>)
        ensures
            r@ == distinct_in_order(self.config_view().required_permissions@ + self.config_view().optional_permissions@),
            r@.no_duplicates(),
            forall|p: PermissionType| r@.contains(p) <==> (self.config_view().required_permissions@.contains(p)
                || self.config_view().optional_permissions@.contains(p)),
    {
        let ghost all = self.config.required_permissions@ + self.config.optional_permissions@;
        let nr = self.config.required_permissions.len();
        let mut r: Vec<PermissionType> = Vec::new();
        let mut i: usize = 0;
        assert(all.take(0) =~= Seq::<PermissionType>::empty());
        while i < nr
            invariant
                all == self.config.required_permissions@ + self.config.optional_permissions@,
                nr == self.config.required_permissions@.len(),
                i <= nr,
                r@ == distinct_in_order(all.take(i as int)),
            decreases nr - i,
        {
            let p = self.config.required_permissions[i];
            assert(p == all[i as int]);
            assert(all.take(i + 1).drop_last() =~= all.take(i as int));
            if !list_contains(&r, p) {
                r.push(p);
            }
            i = i + 1;
        }
        let no = self.config.optional_permissions.len();
        let mut j: usize = 0;
        while j < no
            invariant
                all == self.config.required_permissions@ + self.config.optional_permissions@,
                nr == self.config.required_permissions@.len(),
                no == self.config.optional_permissions@.len(),
                j <= no,
                r@ == distinct_in_order(all.take(nr + j)),
            decreases no - j,
        {
            let p = self.config.optional_permissions[j];
            assert(p == all[nr + j]);
            assert(all.take(nr + j + 1).drop_last() =~= all.take(nr + j));
            if !list_contains(&r, p) {
                r.push(p);
            }
            j = j + 1;
        }
        assert(all.take(nr + no) =~= all);
        proof {
            lemma_distinct_in_order(all);
            assert forall|p: PermissionType| all.contains(p) <==> (self.config.required_permissions@.contains(p)
                || self.config.optional_permissions@.contains(p)) by {
                let rq = self.config.required_permissions@;
                let op = self.config.optional_permissions@;
                if all.contains(p) {
                    let k = choose|k: int| 0 <= k < all.len() && all[k] == p;
                    if k < rq.len() {
                        assert(rq[k] == p);
                    } else {
                        assert(op[k - rq.len()] == p);
                    }
                }
                if rq.contains(p) {
                    let k = choose|k: int| 0 <= k < rq.len() && rq[k] == p;
                    assert(all[k] == p);
                }
                if op.contains(p) {
                    let k = choose|k: int| 0 <= k < op.len() && op[k] == p;
                    assert(all[k + rq.len()] == p);
                }
            }
            assert forall|p: PermissionType| r@.contains(p) <==> (self.config.required_permissions@.contains(p)
                || self.config.optional_permissions@.contains(p)) by {
                assert(r@.contains(p) <==> all.contains(p));
            }
        }
        r
    }

    /// Whether each required permission has a granted status in the list.
    pub fn all_required_permissions_granted(&self, statuses: &StatusList) -> (b: bool)
        ensures
            b == forall|k: int| 0 <= k < self.config_view().required_permissions@.len() ==> status_in(
                statuses@,
                #[trigger] self.config_view().required_permissions@[k],
            ) == Some(PermissionStatus::Granted),
    {
        let req = &self.config.required_permissions;
        let mut k: usize = 0;
        while k < req.len()
            invariant
                k <= req@.len(),
                req@ == self.config.required_permissions@,
                forall|j: int| 0 <= j < k ==> status_in(statuses@, #[trigger] req@[j]) == Some(
                    PermissionStatus::Granted,
                ),
            decreases req.len() - k,
        {
            let s = find_status(statuses, req[k]);
            match s {
                Some(PermissionStatus::Granted) => {},
                _ => {
                    assert(!(status_in(statuses@, self.config_view().required_permissions@[k as int]) == Some(
                        PermissionStatus::Granted,
                    )));
                    return false;
                },
            }
            k = k + 1;
        }
        true
    }

    /// The permissions to prompt for: none without auto-prompting, else the
    /// required ones whose status in the list is not granted, in list order.
    pub fn permissions_to_request(&self, statuses: &StatusList) -> (r: Vec<PermissionType>)
        ensures
            r@ == if self.config_view().auto_prompt {
                missing_in(statuses@, self.config_view().required_permissions@)
            } else {
                Seq::empty()
            },
    {
        if !self.config.auto_prompt {
            return Vec::new();
        }
        let mut r: Vec<PermissionType> = Vec::new();
        let mut i: usize = 0;
        while i < statuses.len()
            invariant
                i <= statuses@.len(),
                r@ == missing_in(statuses@.take(i as int), self.config.required_permissions@),
            decreases statuses.len() - i,
        {
            let (p, s) = statuses[i];
            assert(statuses@.take(i + 1).drop_last() =~= statuses@.take(i as int));
            if s != PermissionStatus::Granted && list_contains(&self.config.required_permissions, p) {
                r.push(p);
            }
            i = i + 1;
        }
        assert(statuses@.take(statuses@.len() as int) =~= statuses@);
        r
    }

    /// User-friendly instructions for enabling a permission.
    pub fn get_permission_instructions(&self, permission: &PermissionType) -> (r: String)
        ensures
            r@ == permission_instructions(*permission),
    {
        match permission {
            PermissionType::Accessibility => owned(
                "To enable TilleRS window management:\n1. Open System Preferences > Security & Privacy > Privacy\n2. Select 'Accessibility' from the list\n3. Click the lock icon and enter your password\n4. Check the box next to 'TilleRS'\n5. Restart TilleRS",
            ),
            PermissionType::InputMonitoring => owned(
                "To enable TilleRS keyboard shortcuts:\n1. Open System Preferences > Security & Privacy > Privacy\n2. Select 'Input Monitoring' from the list\n3. Click the lock icon and enter your password\n4. Check the box next to 'TilleRS'\n5. Restart TilleRS",
            ),
            PermissionType::ScreenRecording => owned(
                "To enable advanced window detection (optional):\n1. Open System Preferences > Security & Privacy > Privacy\n2. Select 'Screen Recording' from the list\n3. Click the lock icon and enter your password\n4. Check the box next to 'TilleRS'\n5. Restart TilleRS",
            ),
        }
    }

    /// The summary of a full check's statuses: granted required and optional
    /// permissions counted, the totals from the configuration.
    pub fn get_permission_summary(&self, statuses: &StatusList) -> (s: PermissionSummary)
        requires
            statuses@.len() < usize::MAX,
        ensures
            s.required_granted == granted_count(statuses@, self.config_view().required_permissions@, true),
            s.optional_granted == granted_count(statuses@, self.config_view().required_permissions@, false),
            s.required_total == self.config_view().required_permissions@.len(),
            s.optional_total == self.config_view().optional_permissions@.len(),
            s.all_required_granted == (s.required_granted == s.required_total),
            s.can_function == s.all_required_granted,
            s.statuses@ == statuses@,
            s.required_permissions@ == self.config_view().required_permissions@,
            statuses_unique(statuses@) ==> statuses_unique(s.statuses@) && missing_in(
                s.statuses@,
                s.required_permissions@,
            ).no_duplicates(),
    {
        proof {
            if statuses_unique(statuses@) {
                lemma_missing_unique(statuses@, self.config.required_permissions@);
            }
        }
        let req = &self.config.required_permissions;
        let mut required_granted: usize = 0;
        let mut optional_granted: usize = 0;
        let mut i: usize = 0;
        while i < statuses.len()
            invariant
                i <= statuses@.len(),
                statuses@.len() < usize::MAX,
                req@ == self.config.required_permissions@,
                required_granted == granted_count(statuses@.take(i as int), req@, true),
                optional_granted == granted_count(statuses@.take(i as int), req@, false),
                required_granted + optional_granted <= i,
            decreases statuses.len() - i,
        {
            let (p, st) = statuses[i];
            assert(statuses@.take(i + 1).drop_last() =~= statuses@.take(i as int));
            if st == PermissionStatus::Granted {
                if list_contains(req, p) {
                    required_granted = required_granted + 1;
                } else {
                    optional_granted = optional_granted + 1;
                }
            }
            i = i + 1;
        }
        assert(statuses@.take(statuses@.len() as int) =~= statuses@);
        let all_required_granted = required_granted == req.len();
        PermissionSummary {
            all_required_granted,
            can_function: all_required_granted,
            required_granted,
            required_total: req.len(),
            optional_granted,
            optional_total: self.config.optional_permissions.len(),
            statuses: copy_statuses(statuses),
            required_permissions: req.clone(),
        }
    }
}

/// A copy of a list of statuses.
pub fn copy_statuses(statuses: &StatusList) -> (r: StatusList)
    ensures
        r@ == statuses@,
{
    let mut r: StatusList = Vec::new();
    let mut i: usize = 0;
    while i < statuses.len()
        invariant
            i <= statuses@.len(),
            r@ == statuses@.take(i as int),
        decreases statuses.len() - i,
    {
        r.push(statuses[i]);
        i = i + 1;
        assert(r@ =~= statuses@.take(i as int));
    }
    assert(statuses@.take(i as int) =~= statuses@);
    r
}

/// The status a list gives a permission.
pub fn find_status(statuses: &StatusList, p: PermissionType) -> (r: Option<PermissionStatus>)
    ensures
        r == status_in(statuses@, p),
{
    let mut i: usize = 0;
    assert(statuses@.skip(0) =~= statuses@);
    while i < statuses.len()
        invariant
            i <= statuses@.len(),
            status_in(statuses@, p) == status_in(statuses@.skip(i as int), p),
        decreases statuses.len() - i,
    {
        let ghost rest = statuses@.skip(i as int);
        assert(rest[0] == statuses@[i as int]);
        assert(rest.drop_first() =~= statuses@.skip(i + 1));
        if statuses[i].0 == p {
            return Some(statuses[i].1);
        }
        i = i + 1;
    }
    None
}

proof fn lemma_cache_set(c: Seq<CachedStatus>, i: int, e: CachedStatus)
    requires
        cache_keys_unique(c),
        0 <= i < c.len(),
        c[i].0 == e.0,
        forall|j: int| 0 <= j < i ==> (#[trigger] c[j]).0 != e.0,
    ensures
        cache_keys_unique(c.update(i, e)),
        cache_entry(c.update(i, e), e.0) == Some((e.1, e.2)),
        forall|q: PermissionType| q != e.0 ==> cache_entry(c.update(i, e), q) == cache_entry(c, q),
    decreases c.len(),
{
    let d = c.update(i, e);
    assert forall|a: int, b: int| 0 <= a < b < d.len() implies (#[trigger] d[a]).0 != (#[trigger] d[b]).0 by {
        assert(d[a].0 == c[a].0);
        assert(d[b].0 == c[b].0);
    }
    if i == c.len() - 1 {
        assert(d.drop_last() =~= c.drop_last());
        assert(d.last() == e);
        assert forall|q: PermissionType| q != e.0 implies cache_entry(d, q) == cache_entry(c, q) by {
            assert(cache_entry(d, q) == cache_entry(d.drop_last(), q));
            assert(cache_entry(c, q) == cache_entry(c.drop_last(), q));
        }
    } else {
        assert(c.last().0 != e.0);
        let c2 = c.drop_last();
        assert forall|a: int, b: int| 0 <= a < b < c2.len() implies (#[trigger] c2[a]).0 != (#[trigger] c2[b]).0 by {
            assert(c2[a] == c[a]);
            assert(c2[b] == c[b]);
        }
        lemma_cache_set(c2, i, e);
        assert(d.drop_last() =~= c2.update(i, e));
        assert(d.last() == c.last());
        assert forall|q: PermissionType| q != e.0 implies cache_entry(d, q) == cache_entry(c, q) by {
            if c.last().0 != q {
                assert(cache_entry(d, q) == cache_entry(d.drop_last(), q));
                assert(cache_entry(c, q) == cache_entry(c2, q));
            }
        }
    }
}

proof fn lemma_cache_absent(c: Seq<CachedStatus>, p: PermissionType)
    requires
        forall|j: int| 0 <= j < c.len() ==> (#[trigger] c[j]).0 != p,
    ensures
        cache_entry(c, p) is None,
    decreases c.len(),
{
    if c.len() > 0 {
        assert(c.last().0 != p);
        let c2 = c.drop_last();
        assert forall|j: int| 0 <= j < c2.len() implies (#[trigger] c2[j]).0 != p by {
            assert(c2[j] == c[j]);
        }
        lemma_cache_absent(c2, p);
    }
}

} // verus!
