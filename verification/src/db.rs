//! The tables of persisted state.
use vstd::prelude::*;
use vstd::string::*;

use crate::config::{updated, RecordUpdate, VmRecord, VmRecordView};
use crate::error::{Error, ErrorView};
use crate::path::{join_path, joined_path};
use crate::table::{row_map, unique_keys, Table};

verus! {

/// The persisted state: machine records by name and settings by key.
#[derive(Debug)]
pub struct SmolvmDb {
    /// Machine records by name.
    pub vms: Table<VmRecord>,
    /// Settings by key.
    pub config: Table<String>,
}

/// The machine records of a database, by name.
pub type VmMap = Map<Seq<char>, VmRecordView>;

/// Whether a list of rows holds exactly what a map holds, each key once.
pub open spec fn lists_map(rows: Seq<(String, VmRecord)>, m: VmMap) -> bool {
    &&& unique_keys(rows)
    &&& forall|i: int|
        0 <= i < rows.len() ==> m.dom().contains((#[trigger] rows[i]).0@) && m[rows[i].0@]
            == rows[i].1@
    &&& forall|k: Seq<char>| #[trigger]
        m.dom().contains(k) ==> exists|i: int| 0 <= i < rows.len() && (#[trigger] rows[i]).0@ == k
}

/// List the records of a table.
pub fn listed(vms: &Table<VmRecord>) -> (r: Vec<(String, VmRecord)>)
    ensures
        lists_map(r@, vms@),
{
    let n: usize = vms.len();
    let mut r: Vec<(String, VmRecord)> = Vec::new();
    let ghost rows = vms.rows_view();
    for i in 0..n
        invariant
            n == rows.len(),
            rows == vms.rows_view(),
            r@.len() == i,
            forall|j: int|
                0 <= j < i ==> (#[trigger] r@[j]).0@ == rows[j].0@ && r@[j].1@ == rows[j].1@,
    {
        let (name, record) = vms.row(i);
        r.push((name.to_owned(), record.clone()));
    }
    proof {
        vms.rows_are_the_map();
        assert forall|i: int, j: int| 0 <= i < j < r@.len() implies (#[trigger] r@[i]).0@ != (
        #[trigger] r@[j]).0@ by {
            assert(rows[i].0@ != rows[j].0@);
        }
        assert forall|i: int| 0 <= i < r@.len() implies vms@.dom().contains(
            (#[trigger] r@[i]).0@,
        ) && vms@[r@[i].0@] == r@[i].1@ by {
            assert(vms@.dom().contains(rows[i].0@));
        }
        assert forall|k: Seq<char>| #[trigger] vms@.dom().contains(k) implies exists|i: int|
            0 <= i < r@.len() && (#[trigger] r@[i]).0@ == k by {
            let i = choose|i: int| 0 <= i < rows.len() && (#[trigger] rows[i]).0@ == k;
            assert(r@[i].0@ == k);
        }
    }
    r
}

impl SmolvmDb {
    /// A database without records and settings.
    pub fn new() -> (r: SmolvmDb)
        ensures
            r.vms@ == VmMap::empty(),
            r.config@ == Map::<Seq<char>, Seq<char>>::empty(),
    {
        SmolvmDb { vms: Table::new(), config: Table::new() }
    }

    /// Get the default database path, below the user's local data directory.
    pub fn default_path(data_local_dir: Option<String>) -> (r: Result<String, Error>)
        ensures
            match data_local_dir {
                Some(d) => r matches Ok(p) && p@ == joined_path(
                    joined_path(joined_path(d@, "smolvm"@), "server"@),
                    "smolvm.db"@,
                ),
                None => r matches Err(e) && e@ == (ErrorView::DatabaseUnavailable {
                    reason: "could not determine local data directory"@,
                }),
            },
    {
        match data_local_dir {
            Some(d) => Ok(
                join_path(
                    join_path(join_path(d.as_str(), "smolvm").as_str(), "server").as_str(),
                    "smolvm.db",
                ),
            ),
            None => Err(Error::database_unavailable("could not determine local data directory")),
        }
    }

    /// Insert or update a VM record.
    pub fn insert_vm(&mut self, name: &str, record: &VmRecord)
        ensures
            final(self).vms@ == old(self).vms@.insert(name@, record@),
            final(self).config == old(self).config,
    {
        let _old = self.vms.insert(name.to_owned(), record.clone());
    }

    /// Insert a VM record only if it doesn't already exist.
    ///
    /// Returns `true` if inserted, `false` if the name already exists.
    pub fn insert_vm_if_not_exists(&mut self, name: &str, record: &VmRecord) -> (r: bool)
        ensures
            r == !old(self).vms@.dom().contains(name@),
            final(self).vms@ == (if r {
                old(self).vms@.insert(name@, record@)
            } else {
                old(self).vms@
            }),
            final(self).config == old(self).config,
    {
        if self.vms.contains_key(name) {
            false
        } else {
            let _old = self.vms.insert(name.to_owned(), record.clone());
            true
        }
    }

    /// Get a VM record by name.
    pub fn get_vm(&self, name: &str) -> (r: Option<VmRecord>)
        ensures
            match r {
                Some(v) => self.vms@.dom().contains(name@) && v@ == self.vms@[name@],
                None => !self.vms@.dom().contains(name@),
            },
    {
        match self.vms.get(name) {
            Some(v) => Some(v.clone()),
            None => None,
        }
    }

    /// Remove a VM record by name, returning the removed record if it existed.
    pub fn remove_vm(&mut self, name: &str) -> (r: Option<VmRecord>)
        ensures
            final(self).vms@ == old(self).vms@.remove(name@),
            final(self).config == old(self).config,
            match r {
                Some(v) => old(self).vms@.dom().contains(name@) && v@ == old(self).vms@[name@],
                None => !old(self).vms@.dom().contains(name@),
            },
    {
        self.vms.remove(name)
    }

    /// List all VM records.
    pub fn list_vms(&self) -> (r: Vec<(String, VmRecord)>)
        ensures
            lists_map(r@, self.vms@),
    {
        listed(&self.vms)
    }

    /// Load all VM records.
    pub fn load_all_vms(&self) -> (r: Table<VmRecord>)
        ensures
            r@ == self.vms@,
    {
        let n: usize = self.vms.len();
        let mut r: Table<VmRecord> = Table::new();
        let ghost rows = self.vms.rows_view();
        proof {
            self.vms.rows_are_the_map();
            assert(rows.take(0) =~= Seq::empty());
        }
        for i in 0..n
            invariant
                n == rows.len(),
                rows == self.vms.rows_view(),
                r@ == row_map(rows.take(i as int)),
        {
            let (name, record) = self.vms.row(i);
            let _old = r.insert(name.to_owned(), record.clone());
            proof {
                assert(rows.take(i + 1).drop_last() =~= rows.take(i as int));
            }
        }
        proof {
            assert(rows.take(n as int) =~= rows);
        }
        r
    }

    /// Load all settings and VM records.
    pub fn load_all(&self) -> (r: (Table<String>, Table<VmRecord>))
        ensures
            r.0@ == self.config@,
            r.1@ == self.vms@,
    {
        let n: usize = self.config.len();
        let mut settings: Table<String> = Table::new();
        let ghost rows = self.config.rows_view();
        proof {
            self.config.rows_are_the_map();
            assert(rows.take(0) =~= Seq::empty());
        }
        for i in 0..n
            invariant
                n == rows.len(),
                rows == self.config.rows_view(),
                settings@ == row_map(rows.take(i as int)),
        {
            let (key, value) = self.config.row(i);
            let _old = settings.insert(key.to_owned(), value.clone());
            proof {
                assert(rows.take(i + 1).drop_last() =~= rows.take(i as int));
            }
        }
        proof {
            assert(rows.take(n as int) =~= rows);
        }
        (settings, self.load_all_vms())
    }

    /// Update a VM record in place.
    ///
    /// Returns the updated record if found, `None` if not found.
    pub fn update_vm(&mut self, name: &str, u: RecordUpdate) -> (r: Option<VmRecord>)
        ensures
            final(self).config == old(self).config,
            match r {
                Some(v) => {
                    &&& old(self).vms@.dom().contains(name@)
                    &&& v@ == updated(old(self).vms@[name@], u)
                    &&& final(self).vms@ == old(self).vms@.insert(name@, v@)
                },
                None => !old(self).vms@.dom().contains(name@) && final(self).vms@ == old(self).vms@,
            },
    {
        match self.vms.get(name) {
            Some(v) => {
                let mut record = v.clone();
                record.apply(u);
                let result = record.clone();
                let _old = self.vms.insert(name.to_owned(), record);
                Some(result)
            },
            None => None,
        }
    }

    /// Get a global configuration value.
    pub fn get_config(&self, key: &str) -> (r: Option<String>)
        ensures
            match r {
                Some(v) => self.config@.dom().contains(key@) && v@ == self.config@[key@],
                None => !self.config@.dom().contains(key@),
            },
    {
        match self.config.get(key) {
            Some(v) => Some(v.clone()),
            None => None,
        }
    }

    /// Set a global configuration value.
    pub fn set_config(&mut self, key: &str, value: &str)
        ensures
            final(self).config@ == old(self).config@.insert(key@, value@),
            final(self).vms == old(self).vms,
    {
        let _old = self.config.insert(key.to_owned(), value.to_owned());
    }

    /// Save multiple config key-value pairs, in order.
    pub fn save_config(&mut self, settings: &Vec<(String, String)>)
        ensures
            final(self).config@ == with_settings(old(self).config@, settings.deep_view()),
            final(self).vms == old(self).vms,
    {
        let ghost all = settings.deep_view();
        let ghost start = self.config@;
        proof {
            assert(all.take(0) =~= Seq::empty());
        }
        for i in 0..settings.len()
            invariant
                all == settings.deep_view(),
                self.config@ == with_settings(start, all.take(i as int)),
                self.vms == old(self).vms,
        {
            self.set_config(settings[i].0.as_str(), settings[i].1.as_str());
            proof {
                assert(all.take(i + 1).drop_last() =~= all.take(i as int));
                assert(all.take(i + 1).last() == (settings@[i as int].0@, settings@[i as int].1@));
            }
        }
        proof {
            assert(all.take(all.len() as int) =~= all);
        }
    }
}

/// Settings after a list of pairs was written, one after the other.
pub open spec fn with_settings(
    m: Map<Seq<char>, Seq<char>>,
    settings: Seq<(Seq<char>, Seq<char>)>,
) -> Map<Seq<char>, Seq<char>>
    decreases settings.len(),
{
    if settings.len() == 0 {
        m
    } else {
        with_settings(m, settings.drop_last()).insert(settings.last().0, settings.last().1)
    }
}

/// A record that was written is read back, and no other record changes.
pub proof fn insert_then_get(m: VmMap, name: Seq<char>, record: VmRecordView, other: Seq<char>)
    ensures
        m.insert(name, record).dom().contains(name),
        m.insert(name, record)[name] == record,
        other != name ==> m.insert(name, record).dom().contains(other) == m.dom().contains(other),
        other != name && m.dom().contains(other) ==> m.insert(name, record)[other] == m[other],
{
}

/// Removing a record that was just created leaves the table as it was.
pub proof fn remove_undoes_insert(m: VmMap, name: Seq<char>, record: VmRecordView)
    requires
        !m.dom().contains(name),
    ensures
        m.insert(name, record).remove(name) == m,
{
    assert(m.insert(name, record).remove(name) =~= m);
}

/// A setting that is written has its last value afterwards, and one that is not written
/// keeps what it had.
pub proof fn written_settings_have_their_last_value(
    m: Map<Seq<char>, Seq<char>>,
    settings: Seq<(Seq<char>, Seq<char>)>,
    key: Seq<char>,
    i: int,
)
    ensures
        0 <= i < settings.len() && settings[i].0 == key && (forall|j: int|
            i < j < settings.len() ==> (#[trigger] settings[j]).0 != key) ==> with_settings(
            m,
            settings,
        ).dom().contains(key) && with_settings(m, settings)[key] == settings[i].1,
        (forall|j: int| 0 <= j < settings.len() ==> (#[trigger] settings[j]).0 != key) ==> (
        with_settings(m, settings).dom().contains(key) == m.dom().contains(key) && (
        m.dom().contains(key) ==> with_settings(m, settings)[key] == m[key])),
    decreases settings.len(),
{
    if settings.len() > 0 {
        let rest = settings.drop_last();
        let last = settings.len() - 1;
        written_settings_have_their_last_value(m, rest, key, i);
        assert(forall|j: int| 0 <= j < rest.len() ==> rest[j] == settings[j]);
        assert(settings.last() == settings[last]);
    }
}

} // verus!
