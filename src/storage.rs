//! The launcher's groups of shortcuts: how stored rows become the state the
//! interface shows, and how that state becomes rows to store.
use vstd::prelude::*;
use vstd::string::*;
use crate::text::{trim, trim_spec};
use crate::memory::data_model;
use crate::settings::UiSettings;

verus! {

/// One shortcut.
#[derive(Debug)]
pub struct AppEntry {
    pub id: String,
    pub name: String,
    pub path: String,
    pub args: Option<String>,
    pub icon: Option<String>,
    pub added_at: i64,
}

/// A named group of shortcuts, in display order.
#[derive(Debug)]
pub struct Group {
    pub id: String,
    pub name: String,
    pub apps: Vec<AppEntry>,
}

/// Everything the launcher stores.
#[derive(Debug)]
pub struct LauncherState {
    pub version: u8,
    pub active_group_id: String,
    pub groups: Vec<Group>,
    pub settings: UiSettings,
}

/// A stored shortcut row, as read, in stored order.
#[derive(Debug)]
pub struct AppRow {
    pub id: String,
    pub group_id: String,
    pub name: String,
    pub path: String,
    pub args: String,
    pub icon: String,
    pub added_at: i64,
}

/// A stored group row, as read, in stored order.
#[derive(Debug)]
pub struct GroupRow {
    pub id: String,
    pub name: String,
}

/// A text column read back as an option: blank means none.
pub open spec fn optional_spec(s: Seq<char>) -> Option<Seq<char>> {
    if trim_spec(s).len() == 0 {
        None
    } else {
        Some(s)
    }
}

/// Reads a text column as an option.
pub fn optional_text(s: String) -> (r: Option<String>)
    ensures
        data_model(r) == optional_spec(s@),
{
    if trim(s.as_str()).unicode_len() == 0 {
        None
    } else {
        Some(s)
    }
}

/// Whether a shortcut is the one a row describes.
pub open spec fn entry_from_row(e: AppEntry, r: AppRow) -> bool {
    &&& e.id@ == r.id@
    &&& e.name@ == r.name@
    &&& e.path@ == r.path@
    &&& data_model(e.args) == optional_spec(r.args@)
    &&& data_model(e.icon) == optional_spec(r.icon@)
    &&& e.added_at == r.added_at
}

pub open spec fn entries_from_rows(es: Seq<AppEntry>, rs: Seq<AppRow>) -> bool {
    es.len() == rs.len() && forall|k: int| 0 <= k < es.len() ==> entry_from_row(es[k], rs[k])
}

/// The rows of group `gid`, in stored order.
pub open spec fn rows_of_group(rows: Seq<AppRow>, gid: Seq<char>) -> Seq<AppRow>
    decreases rows.len(),
{
    if rows.len() == 0 {
        Seq::empty()
    } else if rows.last().group_id@ == gid {
        rows_of_group(rows.drop_last(), gid).push(rows.last())
    } else {
        rows_of_group(rows.drop_last(), gid)
    }
}

/// Whether group row `i` repeats the id of an earlier one.
pub open spec fn repeats_earlier(groups: Seq<GroupRow>, i: int) -> bool {
    exists|j: int| 0 <= j < i && #[trigger] groups[j].id@ == groups[i].id@
}

/// The active group: the stored one where it names a group, else the first
/// group, else none (the empty id).
pub open spec fn active_spec(active: Seq<char>, groups: Seq<GroupRow>) -> Seq<char> {
    if active.len() != 0 && exists|j: int| 0 <= j < groups.len() && #[trigger] groups[j].id@ == active {
        active
    } else if groups.len() > 0 {
        groups[0].id@
    } else {
        Seq::empty()
    }
}

/// The shortcut a stored row describes.
pub fn app_entry_from_row(row: AppRow) -> (r: AppEntry)
    ensures
        entry_from_row(r, row),
{
    AppEntry {
        id: row.id,
        name: row.name,
        path: row.path,
        args: optional_text(row.args),
        icon: optional_text(row.icon),
        added_at: row.added_at,
    }
}

fn copy_row(row: &AppRow) -> (r: AppRow)
    ensures
        r == *row,
{
    AppRow {
        id: row.id.clone(),
        group_id: row.group_id.clone(),
        name: row.name.clone(),
        path: row.path.clone(),
        args: row.args.clone(),
        icon: row.icon.clone(),
        added_at: row.added_at,
    }
}

/// The shortcuts of group `gid`, in stored order.
fn apps_of_group(rows: &Vec<AppRow>, gid: &String) -> (r: Vec<AppEntry>)
    ensures
        entries_from_rows(r@, rows_of_group(rows@, gid@)),
{
    let mut out: Vec<AppEntry> = Vec::new();
    let mut k: usize = 0;
    while k < rows.len()
        invariant
            k <= rows@.len(),
            entries_from_rows(out@, rows_of_group(rows@.take(k as int), gid@)),
        decreases rows@.len() - k,
    {
        proof {
            assert(rows@.take(k + 1).drop_last() =~= rows@.take(k as int));
        }
        if rows[k].group_id == *gid {
            let e = app_entry_from_row(copy_row(&rows[k]));
            out.push(e);
        }
        k = k + 1;
    }
    proof {
        assert(rows@.take(rows@.len() as int) =~= rows@);
    }
    out
}

/// Whether an earlier group row has the id of row `i`.
fn id_seen_before(groups: &Vec<GroupRow>, i: usize) -> (r: bool)
    requires
        i < groups@.len(),
    ensures
        r == repeats_earlier(groups@, i as int),
{
    let mut j: usize = 0;
    while j < i
        invariant
            i < groups@.len(),
            j <= i,
            forall|jj: int| 0 <= jj < j ==> groups@[jj].id@ != groups@[i as int].id@,
        decreases i - j,
    {
        if groups[j].id == groups[i].id {
            return true;
        }
        j = j + 1;
    }
    false
}

/// The state the interface shows, assembled from stored rows: groups in
/// stored order, each with its shortcuts in stored order (a repeated group id
/// keeps its shortcuts with the first group of that id), blank arguments and
/// icons as none, and the active group chosen by `active_spec`.
pub fn assemble_launcher_state(
    active_group_id: String,
    group_rows: Vec<GroupRow>,
    app_rows: Vec<AppRow>,
    settings: UiSettings,
) -> (r: LauncherState)
    ensures
        r.version == 1,
        r.active_group_id@ == active_spec(active_group_id@, group_rows@),
        r.groups@.len() == group_rows@.len(),
        forall|i: int|
            0 <= i < group_rows@.len() ==> {
                &&& (#[trigger] r.groups@[i]).id@ == group_rows@[i].id@
                &&& r.groups@[i].name@ == group_rows@[i].name@
                &&& repeats_earlier(group_rows@, i) ==> r.groups@[i].apps@.len() == 0
                &&& !repeats_earlier(group_rows@, i) ==> entries_from_rows(
                    r.groups@[i].apps@,
                    rows_of_group(app_rows@, group_rows@[i].id@),
                )
            },
        r.settings == settings,
{
    let mut groups: Vec<Group> = Vec::new();
    let mut i: usize = 0;
    while i < group_rows.len()
        invariant
            i <= group_rows@.len(),
            groups@.len() == i,
            forall|g: int|
                0 <= g < i ==> {
                    &&& (#[trigger] groups@[g]).id@ == group_rows@[g].id@
                    &&& groups@[g].name@ == group_rows@[g].name@
                    &&& repeats_earlier(group_rows@, g) ==> groups@[g].apps@.len() == 0
                    &&& !repeats_earlier(group_rows@, g) ==> entries_from_rows(
                        groups@[g].apps@,
                        rows_of_group(app_rows@, group_rows@[g].id@),
                    )
                },
        decreases group_rows@.len() - i,
    {
        let apps = if id_seen_before(&group_rows, i) {
            Vec::new()
        } else {
            apps_of_group(&app_rows, &group_rows[i].id)
        };
        groups.push(
            Group { id: group_rows[i].id.clone(), name: group_rows[i].name.clone(), apps: apps },
        );
        i = i + 1;
    }
    let mut found = false;
    if active_group_id.as_str().unicode_len() != 0 {
        let mut j: usize = 0;
        while j < group_rows.len()
            invariant
                j <= group_rows@.len(),
                !found ==> forall|jj: int| 0 <= jj < j ==> group_rows@[jj].id@ != active_group_id@,
                found ==> exists|jj: int|
                    0 <= jj < group_rows@.len() && #[trigger] group_rows@[jj].id@
                        == active_group_id@,
            decreases group_rows@.len() - j,
        {
            if group_rows[j].id == active_group_id {
                found = true;
            }
            j = j + 1;
        }
    }
    let active = if found {
        active_group_id
    } else if group_rows.len() > 0 {
        group_rows[0].id.clone()
    } else {
        String::new()
    };
    LauncherState { version: 1, active_group_id: active, groups, settings }
}

/// A group as it is stored: its id, name and position.
#[derive(Debug)]
pub struct GroupRecord {
    pub id: String,
    pub name: String,
    pub position: i64,
}

/// A shortcut as it is stored: absent arguments and icon as empty text.
#[derive(Debug)]
pub struct AppRecord {
    pub id: String,
    pub group_id: String,
    pub name: String,
    pub path: String,
    pub args: String,
    pub icon: String,
    pub position: i64,
    pub added_at: i64,
}

/// One group's records.
#[derive(Debug)]
pub struct GroupSave {
    pub group: GroupRecord,
    pub apps: Vec<AppRecord>,
}

/// An optional text stored as a column: none as empty text.
pub open spec fn text_or_empty(o: Option<Seq<char>>) -> Seq<char> {
    match o {
        Some(s) => s,
        None => Seq::empty(),
    }
}

fn text_or_empty_of(o: &Option<String>) -> (r: String)
    ensures
        r@ == text_or_empty(data_model(*o)),
{
    match o {
        Some(s) => s.clone(),
        None => String::new(),
    }
}

/// Whether `a` is how shortcut `e`, at `position` in group `gid`, is stored.
pub open spec fn record_of_entry(a: AppRecord, e: AppEntry, gid: Seq<char>, position: int) -> bool {
    &&& a.id@ == e.id@
    &&& a.group_id@ == gid
    &&& a.name@ == e.name@
    &&& a.path@ == e.path@
    &&& a.args@ == text_or_empty(data_model(e.args))
    &&& a.icon@ == text_or_empty(data_model(e.icon))
    &&& a.position == position
    &&& a.added_at == e.added_at
}

fn app_records(group: &Group) -> (r: Vec<AppRecord>)
    requires
        group.apps@.len() <= i64::MAX,
    ensures
        r@.len() == group.apps@.len(),
        forall|j: int|
            0 <= j < r@.len() ==> record_of_entry(#[trigger] r@[j], group.apps@[j], group.id@, j),
{
    let mut out: Vec<AppRecord> = Vec::new();
    let mut j: usize = 0;
    while j < group.apps.len()
        invariant
            group.apps@.len() <= i64::MAX,
            j <= group.apps@.len(),
            out@.len() == j,
            forall|jj: int|
                0 <= jj < j ==> record_of_entry(#[trigger] out@[jj], group.apps@[jj], group.id@, jj),
        decreases group.apps@.len() - j,
    {
        let e = &group.apps[j];
        out.push(
            AppRecord {
                id: e.id.clone(),
                group_id: group.id.clone(),
                name: e.name.clone(),
                path: e.path.clone(),
                args: text_or_empty_of(&e.args),
                icon: text_or_empty_of(&e.icon),
                position: j as i64,
                added_at: e.added_at,
            },
        );
        j = j + 1;
    }
    out
}

/// The records that store a state: every group at its position, and every
/// shortcut at its position within its group, under its group's id.
pub fn save_records(state: &LauncherState) -> (r: Vec<GroupSave>)
    requires
        state.groups@.len() <= i64::MAX,
        forall|i: int| 0 <= i < state.groups@.len() ==> (#[trigger] state.groups@[i]).apps@.len() <= i64::MAX,
    ensures
        r@.len() == state.groups@.len(),
        forall|i: int|
            0 <= i < r@.len() ==> {
                &&& (#[trigger] r@[i]).group.id@ == state.groups@[i].id@
                &&& r@[i].group.name@ == state.groups@[i].name@
                &&& r@[i].group.position == i
                &&& r@[i].apps@.len() == state.groups@[i].apps@.len()
                &&& forall|j: int|
                    0 <= j < r@[i].apps@.len() ==> record_of_entry(
                        #[trigger] r@[i].apps@[j],
                        state.groups@[i].apps@[j],
                        state.groups@[i].id@,
                        j,
                    )
            },
{
    let mut out: Vec<GroupSave> = Vec::new();
    let mut i: usize = 0;
    while i < state.groups.len()
        invariant
            state.groups@.len() <= i64::MAX,
            forall|g: int| 0 <= g < state.groups@.len() ==> (#[trigger] state.groups@[g]).apps@.len() <= i64::MAX,
            i <= state.groups@.len(),
            out@.len() == i,
            forall|g: int|
                0 <= g < i ==> {
                    &&& (#[trigger] out@[g]).group.id@ == state.groups@[g].id@
                    &&& out@[g].group.name@ == state.groups@[g].name@
                    &&& out@[g].group.position == g
                    &&& out@[g].apps@.len() == state.groups@[g].apps@.len()
                    &&& forall|j: int|
                        0 <= j < out@[g].apps@.len() ==> record_of_entry(
                            #[trigger] out@[g].apps@[j],
                            state.groups@[g].apps@[j],
                            state.groups@[g].id@,
                            j,
                        )
                },
        decreases state.groups@.len() - i,
    {
        let g = &state.groups[i];
        let apps = app_records(g);
        out.push(
            GroupSave {
                group: GroupRecord { id: g.id.clone(), name: g.name.clone(), position: i as i64 },
                apps,
            },
        );
        i = i + 1;
    }
    out
}

/// Whether the stored groups should be copied from an older location: the
/// current store is missing or holds no group.
pub fn needs_legacy_migration(store_exists: bool, group_count: i64) -> (r: bool)
    ensures
        r == (!store_exists || group_count == 0),
{
    !store_exists || group_count == 0
}

} // verus!
