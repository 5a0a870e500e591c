use vstd::prelude::*;

verus! {

/// Largest number of entries the log panel keeps.
pub const LOG_CAPACITY: usize = 100;

/// The run-time log shown by the interface: `(timestamp, message)` entries,
/// at most 100, oldest first.
pub struct LogPanel {
    entries: Vec<(String, String)>,
}

/// The texts of a list of entries.
pub open spec fn entry_views(v: Seq<(String, String)>) -> Seq<(Seq<char>, Seq<char>)> {
    v.map_values(|e: (String, String)| (e.0@, e.1@))
}

/// The entries after appending one: the new entry goes last; when that
/// makes more than 100, the oldest is dropped.
pub open spec fn pushed_entries(old_entries: Seq<(Seq<char>, Seq<char>)>, e: (Seq<char>, Seq<char>)) -> Seq<(Seq<char>, Seq<char>)> {
    let all = old_entries.push(e);
    if all.len() > LOG_CAPACITY { all.drop_first() } else { all }
}

impl LogPanel {
    /// The entries' texts, oldest first.
    pub closed spec fn spec_entries(&self) -> Seq<(Seq<char>, Seq<char>)> {
        entry_views(self.entries@)
    }

    /// The panel holds at most 100 entries.
    pub open spec fn wf(&self) -> bool {
        self.spec_entries().len() <= LOG_CAPACITY
    }

    /// An empty log.
    pub fn new() -> (p: Self)
        ensures
            p.wf(),
            p.spec_entries().len() == 0,
    {
        let p = LogPanel { entries: Vec::new() };
        assert(p.spec_entries() =~= Seq::empty());
        p
    }

    /// Appends an entry; beyond 100 entries the oldest one is dropped.
    pub fn push(&mut self, timestamp: String, msg: String)
        requires
            old(self).wf(),
        ensures
            final(self).wf(),
            final(self).spec_entries() == pushed_entries(old(self).spec_entries(), (timestamp@, msg@)),
    {
        let ghost e = (timestamp@, msg@);
        self.entries.push((timestamp, msg));
        assert(entry_views(self.entries@) =~= entry_views(old(self).entries@).push(e));
        if self.entries.len() > LOG_CAPACITY {
            let ghost before = self.entries@;
            self.entries.remove(0);
            assert(entry_views(self.entries@) =~= entry_views(before).drop_first());
        }
    }

    /// Removes every entry.
    pub fn clear(&mut self)
        ensures
            final(self).wf(),
            final(self).spec_entries().len() == 0,
    {
        self.entries.clear();
        assert(self.spec_entries() =~= Seq::empty());
    }

    /// The number of entries.
    pub fn len(&self) -> (n: usize)
        ensures
            n == self.spec_entries().len(),
    {
        self.entries.len()
    }

    /// The entries, oldest first.
    pub fn entries(&self) -> (e: &Vec<(String, String)>)
        ensures
            entry_views(e@) == self.spec_entries(),
    {
        &self.entries
    }
}


/// After a push the newest entry is the last one and at most 100 remain;
/// below the capacity nothing is dropped.
pub proof fn lemma_push_keeps_newest(entries: Seq<(Seq<char>, Seq<char>)>, e: (Seq<char>, Seq<char>))
    requires
        entries.len() <= LOG_CAPACITY,
    ensures
        pushed_entries(entries, e).len() <= LOG_CAPACITY,
        pushed_entries(entries, e).last() == e,
        entries.len() < LOG_CAPACITY ==> pushed_entries(entries, e) == entries.push(e),
        entries.len() == LOG_CAPACITY ==> pushed_entries(entries, e) == entries.drop_first().push(e),
{
    if entries.len() == LOG_CAPACITY {
        assert(entries.push(e).drop_first() =~= entries.drop_first().push(e));
    }
}

} // verus!
