//! The simulation engine: dice, cards, fighters, the arena and the reports.

pub mod arena;
pub mod cards;
pub mod combat;
pub mod course;
pub mod distance;
pub mod fight_report;
pub mod fighter;
pub mod random;
pub mod roller;
pub mod rounds;
pub mod turn;

use vstd::prelude::*;
use crate::character::Character;
use crate::character::Sheet;
use crate::gradient::Gradient;
use crate::modification::CharModification;
use crate::selection::GroupId;
use crate::simulator::fight_report::FightReport;
use crate::simulator::fight_report::ReportView;

verus! {

/// How many fights a report rests on.
pub const COUNT_FIGHTS: u32 = 5000;

/// After how many rounds a fight is called a draw.
pub const MAX_ROUNDS: u32 = 100;

/// The two groups that fight each other: the sheets of their characters,
/// in order. Names play no part in it.
#[derive(Debug)]
pub struct GroupData {
    pub group_left: Vec<Sheet>,
    pub group_right: Vec<Sheet>,
}

/// A configuration as two sequences of sheets.
#[verifier::ext_equal]
pub struct ConfigView {
    pub left: Seq<Sheet>,
    pub right: Seq<Sheet>,
}

impl View for GroupData {
    type V = ConfigView;

    open spec fn view(&self) -> ConfigView {
        ConfigView { left: self.group_left@, right: self.group_right@ }
    }
}

/// The sheets of `characters`, in order.
pub open spec fn sheets_of(characters: Seq<Character>) -> Seq<Sheet> {
    characters.map_values(|c: Character| c.spec_sheet())
}

/// Takes the sheets of the characters, in order.
pub fn strip_names(characters: &Vec<Character>) -> (r: Vec<Sheet>)
    ensures
        r@ == sheets_of(characters@),
{
    let mut sheets: Vec<Sheet> = Vec::new();
    let mut i: usize = 0;
    while i < characters.len()
        invariant
            i <= characters.len(),
            sheets.len() == i,
            forall|k: int| 0 <= k < i ==> #[trigger] sheets[k] == characters[k].spec_sheet(),
        decreases characters.len() - i,
    {
        sheets.push(characters[i].sheet());
        i = i + 1;
    }
    assert(sheets@ =~= sheets_of(characters@));
    sheets
}

fn same_sheets(a: &Vec<Sheet>, b: &Vec<Sheet>) -> (r: bool)
    ensures
        r == (a@ == b@),
{
    if a.len() != b.len() {
        return false;
    }
    let mut i: usize = 0;
    while i < a.len()
        invariant
            i <= a.len(),
            a.len() == b.len(),
            forall|k: int| 0 <= k < i ==> a[k] == b[k],
        decreases a.len() - i,
    {
        if !a[i].same(&b[i]) {
            return false;
        }
        i = i + 1;
    }
    assert(a@ =~= b@);
    true
}

fn copy_sheets(sheets: &Vec<Sheet>) -> (r: Vec<Sheet>)
    ensures
        r@ == sheets@,
{
    let mut copy: Vec<Sheet> = Vec::new();
    let mut i: usize = 0;
    while i < sheets.len()
        invariant
            i <= sheets.len(),
            copy.len() == i,
            forall|k: int| 0 <= k < i ==> copy[k] == sheets[k],
        decreases sheets.len() - i,
    {
        copy.push(sheets[i]);
        i = i + 1;
    }
    assert(copy@ =~= sheets@);
    copy
}

impl GroupData {
    /// The configuration in which `group_left` fights `group_right`.
    pub fn new(group_left: &Vec<Character>, group_right: &Vec<Character>) -> (r: Self)
        ensures
            r.group_left@ == sheets_of(group_left@),
            r.group_right@ == sheets_of(group_right@),
    {
        GroupData { group_left: strip_names(group_left), group_right: strip_names(group_right) }
    }

    /// Whether two configurations hold the same sheets in the same order.
    pub fn same(&self, other: &GroupData) -> (r: bool)
        ensures
            r == (self@ == other@),
    {
        let r = same_sheets(&self.group_left, &other.group_left) && same_sheets(
            &self.group_right,
            &other.group_right,
        );
        proof {
            if r {
                assert(self@ =~= other@);
            }
        }
        r
    }

    /// A copy of the configuration.
    pub fn duplicate(&self) -> (r: GroupData)
        ensures
            r@ == self@,
    {
        let r = GroupData {
            group_left: copy_sheets(&self.group_left),
            group_right: copy_sheets(&self.group_right),
        };
        assert(r@ =~= self@);
        r
    }

    /// Whether the configuration has the character that `modification`
    /// is about.
    pub open spec fn has(config: ConfigView, modification: CharModification) -> bool {
        match modification.group_id {
            GroupId::Left => modification.index.0 < config.left.len(),
            GroupId::Right => modification.index.0 < config.right.len(),
        }
    }

    /// The configuration after the modification: the one character it is
    /// about has its sheet edited, everything else stays.
    pub open spec fn modified(config: ConfigView, modification: CharModification) -> ConfigView {
        let at = modification.index.0 as int;
        match modification.group_id {
            GroupId::Left => ConfigView {
                left: config.left.update(at, modification.modification.applied(config.left[at])),
                ..config
            },
            GroupId::Right => ConfigView {
                right: config.right.update(
                    at,
                    modification.modification.applied(config.right[at]),
                ),
                ..config
            },
        }
    }

    /// Whether the configuration has the character that `modification`
    /// is about.
    pub fn can_apply(&self, modification: &CharModification) -> (r: bool)
        ensures
            r == Self::has(self@, *modification),
    {
        match modification.group_id {
            GroupId::Left => modification.index.0 < self.group_left.len(),
            GroupId::Right => modification.index.0 < self.group_right.len(),
        }
    }

    /// Edits the sheet of one character. The character must exist.
    pub fn apply_mod(&mut self, modification: CharModification)
        requires
            Self::has(old(self)@, modification),
        ensures
            final(self)@ == Self::modified(old(self)@, modification),
    {
        let at = modification.index.into_usize();
        match modification.group_id {
            GroupId::Left => {
                let mut sheet = self.group_left[at];
                modification.modification.apply(&mut sheet);
                self.group_left.set(at, sheet);
            },
            GroupId::Right => {
                let mut sheet = self.group_right[at];
                modification.modification.apply(&mut sheet);
                self.group_right.set(at, sheet);
            },
        }
        assert(self@ =~= Self::modified(old(self)@, modification));
    }
}

/// `100 * resolved / requested`, and 100 where nothing was requested.
pub open spec fn progress_of(requested: int, resolved: int) -> int {
    if requested == 0 {
        100
    } else {
        100 * resolved / requested
    }
}

/// Counts the jobs that were requested and those that are done.
#[derive(Debug, Clone, Copy, PartialEq, Eq, Structural)]
pub struct ProgressTracker {
    requested: usize,
    resolved: usize,
}

impl ProgressTracker {
    #[verifier::type_invariant]
    spec fn wf(self) -> bool {
        self.resolved <= self.requested
    }

    pub closed spec fn requested(self) -> int {
        self.requested as int
    }

    pub closed spec fn resolved(self) -> int {
        self.resolved as int
    }

    pub fn new() -> (r: Self)
        ensures
            r.requested() == 0,
            r.resolved() == 0,
    {
        ProgressTracker { requested: 0, resolved: 0 }
    }

    /// How many jobs are still out.
    pub fn open_jobs(&self) -> (r: usize)
        ensures
            r == self.requested() - self.resolved(),
            0 <= self.resolved() <= self.requested(),
    {
        proof {
            use_type_invariant(self);
        }
        self.requested - self.resolved
    }

    /// Counts a job that was handed out.
    pub fn add_request(&mut self)
        requires
            old(self).requested() < usize::MAX,
        ensures
            final(self).requested() == old(self).requested() + 1,
            final(self).resolved() == old(self).resolved(),
    {
        proof {
            use_type_invariant(&*self);
        }
        self.requested = self.requested + 1;
    }

    /// Counts a job that came back. It must have been handed out.
    pub fn add_resolved(&mut self)
        requires
            old(self).resolved() < old(self).requested(),
        ensures
            final(self).requested() == old(self).requested(),
            final(self).resolved() == old(self).resolved() + 1,
    {
        self.resolved = self.resolved + 1;
    }

    /// The share of the jobs that are done, in percent. At 100 percent the
    /// counters start over, once `reset_timeout_reached` says that the
    /// last request is long enough ago.
    pub fn get_progress(&mut self, reset_timeout_reached: bool) -> (r: u8)
        ensures
            r == progress_of(old(self).requested(), old(self).resolved()),
            r <= 100,
            r == 100 <==> old(self).resolved() == old(self).requested(),
            r == 100 && reset_timeout_reached ==> final(self).requested() == 0 && final(self).resolved() == 0,
            !(r == 100 && reset_timeout_reached) ==> *final(self) == *old(self),
    {
        proof {
            use_type_invariant(&*self);
        }
        if self.requested == 0 {
            return 100;
        }
        let scaled: u128 = 100 * (self.resolved as u128);
        let progress: u128 = scaled / (self.requested as u128);
        proof {
            let n = self.requested as int;
            let k = self.resolved as int;
            vstd::arithmetic::div_mod::lemma_fundamental_div_mod(100 * k, n);
            vstd::arithmetic::div_mod::lemma_mod_bound(100 * k, n);
            vstd::arithmetic::div_mod::lemma_div_pos_is_pos(100 * k, n);
            let q = 100 * k / n;
            let m = (100 * k) % n;
            assert(q <= 100) by (nonlinear_arith)
                requires
                    100 * k == n * q + m,
                    0 <= m,
                    k <= n,
                    n > 0,
            ;
            assert(q == 100 <==> k == n) by (nonlinear_arith)
                requires
                    100 * k == n * q + m,
                    0 <= m < n,
                    0 <= k <= n,
                    n > 0,
                    q <= 100,
            ;
        }
        let progress: u8 = progress as u8;
        if progress == 100 && reset_timeout_reached {
            *self = ProgressTracker { requested: 0, resolved: 0 };
        }
        progress
    }
}

impl Default for ProgressTracker {
    fn default() -> (r: Self)
        ensures
            r.requested() == 0,
            r.resolved() == 0,
    {
        ProgressTracker::new()
    }
}

/// What is known of one configuration: its report, or that the report is
/// still being computed.
#[derive(Debug)]
pub struct CacheEntry {
    pub key: GroupData,
    pub report: Option<FightReport>,
}

/// What a caller is told of an entry: its report, or the pending report.
pub open spec fn told(entry: CacheEntry) -> ReportView {
    match entry.report {
        Some(report) => report@,
        None => ReportView::none(),
    }
}

/// Whether no configuration has two entries.
pub open spec fn distinct_keys(slots: Seq<CacheEntry>) -> bool {
    forall|i: int, j: int|
        0 <= i < slots.len() && 0 <= j < slots.len() && i != j ==> slots[i].key@ != slots[j].key@
}

/// Whether `key` has an entry.
pub open spec fn cached(slots: Seq<CacheEntry>, key: ConfigView) -> bool {
    exists|i: int| 0 <= i < slots.len() && (#[trigger] slots[i]).key@ == key
}

/// Where the entry of `key` stands, if it has one.
pub open spec fn slot_of(slots: Seq<CacheEntry>, key: ConfigView) -> int {
    choose|i: int| 0 <= i < slots.len() && (#[trigger] slots[i]).key@ == key
}

/// Whether the report of `key` is awaited: it has an entry without a
/// report.
pub open spec fn pending(slots: Seq<CacheEntry>, key: ConfigView) -> bool {
    cached(slots, key) && slots[slot_of(slots, key)].report is None
}

/// In a cache without double entries, the entry of a configuration is the
/// one that holds it.
pub proof fn lemma_slot_is_unique(slots: Seq<CacheEntry>, at: int)
    requires
        distinct_keys(slots),
        0 <= at < slots.len(),
    ensures
        cached(slots, slots[at].key@),
        slot_of(slots, slots[at].key@) == at,
{
    let found = slot_of(slots, slots[at].key@);
    assert(slots[found].key@ == slots[at].key@);
}

/// How many entries are still being computed.
pub open spec fn pending_count(slots: Seq<CacheEntry>) -> nat
    decreases slots.len(),
{
    if slots.len() == 0 {
        0
    } else {
        pending_count(slots.drop_last()) + if slots.last().report is None {
            1nat
        } else {
            0nat
        }
    }
}

/// What a request for the report of `key` does to the cache: a
/// configuration that has an entry keeps it; a new one gets a pending
/// entry, and a job must be started for it. With the cache come what the
/// caller is told, and whether a job must be started.
pub open spec fn after_request(slots: Seq<CacheEntry>, key: GroupData) -> (
    Seq<CacheEntry>,
    ReportView,
    bool,
) {
    if cached(slots, key@) {
        (slots, told(slots[slot_of(slots, key@)]), false)
    } else {
        (slots.push(CacheEntry { key, report: None }), ReportView::none(), true)
    }
}

/// What the arrival of `report` for `key` does to the cache: a pending
/// entry takes the report; without one nothing changes.
pub open spec fn after_delivery(slots: Seq<CacheEntry>, key: ConfigView, report: FightReport) -> (
    Seq<CacheEntry>,
    bool,
) {
    if cached(slots, key) && slots[slot_of(slots, key)].report is None {
        let at = slot_of(slots, key);
        (slots.update(at, CacheEntry { key: slots[at].key, report: Some(report) }), true)
    } else {
        (slots, false)
    }
}

/// A second request for the same configuration, with nothing delivered in
/// between, is told the same as the first, starts no job, and leaves the
/// cache as the first request left it.
pub proof fn lemma_request_twice(slots: Seq<CacheEntry>, key: GroupData)
    requires
        distinct_keys(slots),
    ensures
        ({
            let first = after_request(slots, key);
            let second = after_request(first.0, key);
            &&& second.0 == first.0
            &&& second.1 == first.1
            &&& !second.2
            &&& distinct_keys(first.0)
        }),
{
    let first = after_request(slots, key);
    if cached(slots, key@) {
    } else {
        let entry = CacheEntry { key, report: None };
        let grown = slots.push(entry);
        assert(grown[slots.len() as int].key@ == key@);
        let at = slot_of(grown, key@);
        if at < slots.len() {
            assert(grown[at] == slots[at]);
            assert(cached(slots, key@));
        }
        assert(grown[at] == entry);
        assert forall|i: int, j: int|
            0 <= i < grown.len() && 0 <= j < grown.len() && i != j implies grown[i].key@
            != grown[j].key@ by {
            if i < slots.len() && j < slots.len() {
                assert(grown[i] == slots[i] && grown[j] == slots[j]);
            } else if i < slots.len() {
                assert(grown[i] == slots[i]);
            } else {
                assert(grown[j] == slots[j]);
            }
        }
    }
}

/// A report is delivered once: a second delivery for the same
/// configuration changes nothing, whatever it brings.
pub proof fn lemma_deliver_once(
    slots: Seq<CacheEntry>,
    key: ConfigView,
    report: FightReport,
    later: FightReport,
)
    requires
        distinct_keys(slots),
    ensures
        ({
            let first = after_delivery(slots, key, report);
            let second = after_delivery(first.0, key, later);
            &&& second.0 == first.0
            &&& !second.1
            &&& distinct_keys(first.0)
            &&& first.0.len() == slots.len()
        }),
{
    let first = after_delivery(slots, key, report);
    if first.1 {
        let at = slot_of(slots, key);
        let filled = first.0;
        assert(filled[at].key@ == key);
        let again = slot_of(filled, key);
        if again != at {
            assert(filled[again] == slots[again]);
        }
        assert forall|i: int, j: int|
            0 <= i < filled.len() && 0 <= j < filled.len() && i != j implies filled[i].key@
            != filled[j].key@ by {
            assert(filled[i].key@ == slots[i].key@);
            assert(filled[j].key@ == slots[j].key@);
        }
    }
}

proof fn lemma_pending_push(slots: Seq<CacheEntry>, entry: CacheEntry)
    ensures
        pending_count(slots.push(entry)) == pending_count(slots) + if entry.report is None {
            1nat
        } else {
            0nat
        },
{
    assert(slots.push(entry).drop_last() =~= slots);
}

proof fn lemma_pending_update(slots: Seq<CacheEntry>, at: int, entry: CacheEntry)
    requires
        0 <= at < slots.len(),
    ensures
        pending_count(slots.update(at, entry)) + (if slots[at].report is None {
            1nat
        } else {
            0nat
        }) == pending_count(slots) + if entry.report is None {
            1nat
        } else {
            0nat
        },
    decreases slots.len(),
{
    let updated = slots.update(at, entry);
    if at == slots.len() - 1 {
        assert(updated.drop_last() =~= slots.drop_last());
    } else {
        lemma_pending_update(slots.drop_last(), at, entry);
        assert(updated.drop_last() =~= slots.drop_last().update(at, entry));
    }
}

proof fn lemma_pending_bound(slots: Seq<CacheEntry>)
    ensures
        pending_count(slots) <= slots.len(),
    decreases slots.len(),
{
    if slots.len() > 0 {
        lemma_pending_bound(slots.drop_last());
    }
}

/// The difference of two totals as a caller is told them: pending if
/// either is.
pub open spec fn total_change(new_total: Option<int>, old_total: Option<int>) -> Option<int> {
    match (new_total, old_total) {
        (Some(a), Some(b)) => Some(a - b),
        _ => None,
    }
}

/// The total that a caller is told for `config`: that of its report, if
/// it has one that is complete.
pub open spec fn total_told(slots: Seq<CacheEntry>, config: ConfigView) -> Option<int> {
    if cached(slots, config) {
        told(slots[slot_of(slots, config)]).total()
    } else {
        None
    }
}

/// The bookkeeping of a simulator: the configuration in view, the reports
/// that are known or awaited, and the progress of the jobs. It decides
/// which jobs to start; running them is left to its owner.
#[derive(Debug)]
pub struct Simulator {
    report_map: Vec<CacheEntry>,
    group_data: GroupData,
    progress: ProgressTracker,
}

impl Simulator {
    /// The entries of the cache, oldest first.
    pub closed spec fn slots(&self) -> Seq<CacheEntry> {
        self.report_map@
    }

    /// The configuration in view.
    pub closed spec fn config(&self) -> ConfigView {
        self.group_data@
    }

    /// The counters of the jobs.
    pub closed spec fn tracker(&self) -> ProgressTracker {
        self.progress
    }

    /// No configuration has two entries, and the entries that are pending
    /// are the jobs that are out.
    pub open spec fn wf(&self) -> bool {
        &&& distinct_keys(self.slots())
        &&& 0 <= self.tracker().resolved() <= self.tracker().requested() <= self.slots().len()
        &&& pending_count(self.slots()) == self.tracker().requested() - self.tracker().resolved()
    }

    /// A simulator with `group_left` against `group_right` in view, and
    /// nothing computed or requested.
    pub fn new(group_left: &Vec<Character>, group_right: &Vec<Character>) -> (r: Self)
        ensures
            r.wf(),
            r.slots() == Seq::<CacheEntry>::empty(),
            r.config().left == sheets_of(group_left@),
            r.config().right == sheets_of(group_right@),
            r.tracker().requested() == 0,
            r.tracker().resolved() == 0,
    {
        Simulator {
            report_map: Vec::new(),
            group_data: GroupData::new(group_left, group_right),
            progress: ProgressTracker::new(),
        }
    }

    /// Puts other groups in view. Nothing is computed or forgotten.
    pub fn update(&mut self, group_left: &Vec<Character>, group_right: &Vec<Character>)
        requires
            old(self).wf(),
        ensures
            final(self).wf(),
            final(self).config().left == sheets_of(group_left@),
            final(self).config().right == sheets_of(group_right@),
            final(self).slots() == old(self).slots(),
            final(self).tracker() == old(self).tracker(),
    {
        self.group_data = GroupData::new(group_left, group_right);
    }

    fn position(&self, key: &GroupData) -> (r: Option<usize>)
        ensures
            match r {
                Some(at) => at < self.slots().len() && self.slots()[at as int].key@ == key@,
                None => !cached(self.slots(), key@),
            },
    {
        let mut i: usize = 0;
        while i < self.report_map.len()
            invariant
                i <= self.report_map.len(),
                forall|k: int| 0 <= k < i ==> (#[trigger] self.report_map[k]).key@ != key@,
            decreases self.report_map.len() - i,
        {
            if self.report_map[i].key.same(key) {
                return Some(i);
            }
            i = i + 1;
        }
        None
    }

    /// The report of `group_data` as far as it is known, and whether a job
    /// must be started for it. A configuration that is asked about for the
    /// first time gets a pending entry before its job is started, so that
    /// no second job is ever started for it.
    pub fn request_report(&mut self, group_data: GroupData) -> (r: (FightReport, bool))
        requires
            old(self).wf(),
        ensures
            final(self).wf(),
            final(self).config() == old(self).config(),
            (final(self).slots(), r.0@, r.1) == after_request(old(self).slots(), group_data),
            r.1 ==> final(self).tracker().requested() == old(self).tracker().requested() + 1
                && final(self).tracker().resolved() == old(self).tracker().resolved(),
            !r.1 ==> final(self).tracker() == old(self).tracker(),
            r.1 ==> pending(final(self).slots(), group_data@),
            forall|other: ConfigView| #[trigger]
                pending(old(self).slots(), other) ==> pending(final(self).slots(), other),
    {
        let ghost key = group_data@;
        match self.position(&group_data) {
            Some(at) => {
                proof {
                    assert(slot_of(self.slots(), group_data@) == at);
                }
                let report = match self.report_map[at].report {
                    Some(report) => report,
                    None => FightReport::none(),
                };
                (report, false)
            },
            None => {
                proof {
                    lemma_request_twice(self.slots(), group_data);
                    lemma_pending_push(self.slots(), CacheEntry { key: group_data, report: None });
                }
                self.report_map.push(CacheEntry { key: group_data, report: None });
                let entries = self.report_map.len();
                assert(old(self).tracker().requested() < entries);
                self.progress.add_request();
                proof {
                    let grown = self.slots();
                    lemma_slot_is_unique(grown, grown.len() - 1);
                    assert forall|other: ConfigView| #[trigger]
                        pending(old(self).slots(), other) implies pending(grown, other) by {
                        let at = slot_of(old(self).slots(), other);
                        assert(grown[at] == old(self).slots()[at]);
                        lemma_slot_is_unique(grown, at);
                    }
                }
                (FightReport::none(), true)
            },
        }
    }

    /// Takes in the report that a job brought back. It goes into the
    /// pending entry of its configuration and counts as resolved; where
    /// there is no such entry, it is dropped. Says whether it was taken.
    pub fn deliver(&mut self, group_data: &GroupData, report: FightReport) -> (accepted: bool)
        requires
            old(self).wf(),
        ensures
            final(self).wf(),
            final(self).config() == old(self).config(),
            (final(self).slots(), accepted) == after_delivery(
                old(self).slots(),
                group_data@,
                report,
            ),
            accepted ==> final(self).tracker().requested() == old(self).tracker().requested()
                && final(self).tracker().resolved() == old(self).tracker().resolved() + 1,
            !accepted ==> final(self).tracker() == old(self).tracker(),
            accepted == pending(old(self).slots(), group_data@),
            forall|other: ConfigView|
                other != group_data@ ==> (#[trigger] pending(final(self).slots(), other)
                    == pending(old(self).slots(), other)),
    {
        match self.position(group_data) {
            Some(at) => {
                proof {
                    assert(slot_of(self.slots(), group_data@) == at);
                }
                if self.report_map[at].report.is_some() {
                    return false;
                }
                proof {
                    lemma_deliver_once(self.slots(), group_data@, report, report);
                    lemma_pending_update(
                        self.slots(),
                        at as int,
                        CacheEntry { key: self.slots()[at as int].key, report: Some(report) },
                    );
                    lemma_pending_bound(self.slots());
                }
                let ghost filled = CacheEntry {
                    key: self.slots()[at as int].key,
                    report: Some(report),
                };
                self.report_map[at].report = Some(report);
                assert(self.report_map@ =~= old(self).report_map@.update(at as int, filled));
                self.progress.add_resolved();
                proof {
                    let before = old(self).slots();
                    let after = self.slots();
                    assert forall|other: ConfigView| other != group_data@ implies (#[trigger] pending(
                        after,
                        other,
                    ) == pending(before, other)) by {
                        if cached(before, other) {
                            let i = slot_of(before, other);
                            assert(after[i].key@ == other);
                            lemma_slot_is_unique(after, i);
                        }
                        if cached(after, other) {
                            let i = slot_of(after, other);
                            assert(before[i].key@ == other);
                            lemma_slot_is_unique(before, i);
                        }
                    }
                }
                true
            },
            None => false,
        }
    }

    /// The share of the jobs that are done, in percent: 100 where none is
    /// out. At 100 percent the counters start over, once
    /// `reset_timeout_reached` says that the last request is long enough
    /// ago.
    pub fn progress(&mut self, reset_timeout_reached: bool) -> (r: u8)
        requires
            old(self).wf(),
        ensures
            final(self).wf(),
            final(self).config() == old(self).config(),
            final(self).slots() == old(self).slots(),
            r == progress_of(old(self).tracker().requested(), old(self).tracker().resolved()),
            r <= 100,
            r == 100 <==> pending_count(old(self).slots()) == 0,
            r == 100 && reset_timeout_reached ==> final(self).tracker().requested() == 0 && final(self).tracker().resolved() == 0,
            !(r == 100 && reset_timeout_reached) ==> final(self).tracker() == old(self).tracker(),
    {
        self.progress.get_progress(reset_timeout_reached)
    }

    /// The report of the configuration in view as far as it is known, and
    /// the configuration again if a job must be started for it.
    pub fn report(&mut self) -> (r: (FightReport, Option<GroupData>))
        requires
            old(self).wf(),
        ensures
            final(self).wf(),
            final(self).config() == old(self).config(),
            r.1 is Some ==> r.1->Some_0@ == old(self).config(),
            exists|key: GroupData| #[trigger]
                key@ == old(self).config() && (final(self).slots(), r.0@, r.1 is Some)
                    == after_request(old(self).slots(), key),
            r.1 is Some ==> pending(final(self).slots(), old(self).config())
                && final(self).tracker().requested() == old(self).tracker().requested() + 1
                && final(self).tracker().resolved() == old(self).tracker().resolved(),
            r.1 is None ==> final(self).tracker() == old(self).tracker(),
            forall|other: ConfigView| #[trigger]
                pending(old(self).slots(), other) ==> pending(final(self).slots(), other),
    {
        let key = self.group_data.duplicate();
        let (report, dispatch) = self.request_report(key);
        let job = if dispatch {
            Some(self.group_data.duplicate())
        } else {
            None
        };
        (report, job)
    }

    /// What the modification would be worth: the total of the
    /// configuration in view after it, less the total before it; pending
    /// until both are known. With it come the configurations for which a
    /// job must be started: the one in view, then the modified one, each
    /// only where it was asked about for the first time. Their reports are
    /// awaited from then on. The character that is modified must exist.
    pub fn gradient(&mut self, modification: CharModification) -> (r: (Gradient, Vec<GroupData>))
        requires
            old(self).wf(),
            GroupData::has(old(self).config(), modification),
        ensures
            final(self).wf(),
            final(self).config() == old(self).config(),
            r.1.len() <= 2,
            exists|before: GroupData, after: GroupData| #[trigger]
                before@ == old(self).config() && #[trigger] after@ == GroupData::modified(
                    old(self).config(),
                    modification,
                ) && ({
                    let first = after_request(old(self).slots(), before);
                    let second = after_request(first.0, after);
                    &&& final(self).slots() == second.0
                    &&& r.0@ == total_change(second.1.total(), first.1.total())
                    &&& r.1.len() == (if first.2 { 1int } else { 0int }) + (if second.2 {
                        1int
                    } else {
                        0int
                    })
                    &&& first.2 ==> r.1[0]@ == before@
                    &&& second.2 ==> r.1[r.1.len() - 1]@ == after@
                }),
            forall|k: int| 0 <= k < r.1.len() ==> pending(final(self).slots(), #[trigger] r.1[k]@),
            r.1.len() == 2 ==> r.1[0]@ != r.1[1]@,
            final(self).tracker().requested() == old(self).tracker().requested() + r.1.len(),
            final(self).tracker().resolved() == old(self).tracker().resolved(),
            forall|other: ConfigView| #[trigger]
                pending(old(self).slots(), other) ==> pending(final(self).slots(), other),
            GroupData::modified(old(self).config(), modification) == old(self).config() ==> r.0@
                == if total_told(old(self).slots(), old(self).config()) is Some {
                Some(0int)
            } else {
                None::<int>
            },
    {
        let mut modified_data = self.group_data.duplicate();
        modified_data.apply_mod(modification);
        let mut jobs: Vec<GroupData> = Vec::new();
        let before = self.group_data.duplicate();
        let after = modified_data.duplicate();
        let ghost slots = self.slots();
        proof {
            lemma_request_twice(slots, before);
        }
        let (old_report, old_dispatch) = self.request_report(before);
        if old_dispatch {
            jobs.push(self.group_data.duplicate());
        }
        let (new_report, new_dispatch) = self.request_report(after);
        if new_dispatch {
            jobs.push(modified_data);
        }
        let change = new_report.total().change_from(old_report.total());
        proof {
            if GroupData::modified(old(self).config(), modification) == old(self).config() {
                let first = after_request(slots, before);
                assert(cached(first.0, before@)) by {
                    if cached(slots, before@) {
                    } else {
                        assert(first.0[slots.len() as int].key@ == before@);
                    }
                }
                assert(after@ == before@);
                assert(slot_of(first.0, after@) == slot_of(first.0, before@));
            }
        }
        (change, jobs)
    }
}

impl Default for Simulator {
    fn default() -> (r: Self)
        ensures
            r.wf(),
            r.slots() == Seq::<CacheEntry>::empty(),
    {
        Simulator {
            report_map: Vec::new(),
            group_data: GroupData { group_left: Vec::new(), group_right: Vec::new() },
            progress: ProgressTracker::new(),
        }
    }
}

} // verus!
