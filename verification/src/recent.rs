//! The recently-viewed-tasks list: a bounded, most-recent-first record of
//! task gids and names. Persisting the list is the driver's business; the
//! update rule — drop any older entry with the same gid, prepend, cap the
//! length — is verified here.

use vstd::prelude::*;

verus! {

/// One remembered task.
#[derive(Debug, Clone, PartialEq, Eq)]
pub struct RecentTaskEntry {
    /// Task identifier.
    pub gid: String,
    /// Task name at the time it was seen.
    pub name: String,
    /// When it was last viewed, as text.
    pub last_accessed: String,
}

/// At most this many tasks are remembered.
pub const RECENT_TASKS_LIMIT: usize = 20;

/// The view of one entry.
pub open spec fn entry_view(e: RecentTaskEntry) -> (Seq<char>, Seq<char>, Seq<char>) {
    (e.gid@, e.name@, e.last_accessed@)
}

/// The views of an entry list.
pub open spec fn entries_view(s: Seq<RecentTaskEntry>) -> Seq<(Seq<char>, Seq<char>, Seq<char>)> {
    Seq::new(s.len(), |i: int| entry_view(s[i]))
}

/// The entries whose gid differs from the given one, in order.
pub open spec fn spec_drop_gid(
    s: Seq<(Seq<char>, Seq<char>, Seq<char>)>,
    gid: Seq<char>,
) -> Seq<(Seq<char>, Seq<char>, Seq<char>)>
    decreases s.len(),
{
    if s.len() == 0 {
        Seq::empty()
    } else if s.first().0 == gid {
        spec_drop_gid(s.drop_first(), gid)
    } else {
        seq![s.first()] + spec_drop_gid(s.drop_first(), gid)
    }
}

/// The updated list: the fresh entry first, the survivors after it, the
/// whole capped at the limit.
pub open spec fn spec_record_recent(
    s: Seq<(Seq<char>, Seq<char>, Seq<char>)>,
    gid: Seq<char>,
    name: Seq<char>,
    stamp: Seq<char>,
) -> Seq<(Seq<char>, Seq<char>, Seq<char>)> {
    let merged = seq![(gid, name, stamp)] + spec_drop_gid(s, gid);
    if merged.len() > RECENT_TASKS_LIMIT {
        merged.take(RECENT_TASKS_LIMIT as int)
    } else {
        merged
    }
}

/// Record a freshly viewed task: any older entry with the same gid is
/// dropped, the new entry goes first, and the list is capped.
pub fn record_recent_entry(
    entries: &mut Vec<RecentTaskEntry>,
    gid: String,
    name: String,
    last_accessed: String,
)
    ensures
        entries_view(final(entries)@) == spec_record_recent(
            entries_view(old(entries)@),
            gid@,
            name@,
            last_accessed@,
        ),
{
    let ghost whole = entries_view(entries@);
    let mut kept: Vec<RecentTaskEntry> = Vec::new();
    kept.push(RecentTaskEntry { gid, name, last_accessed });
    let ghost fresh = entries_view(kept@);
    proof {
        assert(whole.skip(0) =~= whole);
        assert(fresh =~= seq![(kept@[0].gid@, kept@[0].name@, kept@[0].last_accessed@)]);
    }
    let ghost g = kept@[0].gid@;
    let mut i: usize = 0;
    while i < entries.len()
        invariant
            0 <= i <= entries@.len(),
            entries_view(entries@) == whole,
            kept@.len() >= 1,
            g == kept@[0].gid@,
            fresh == entries_view(kept@).take(1),
            entries_view(kept@) == fresh + spec_drop_gid(whole.take(i as int), g),
        decreases entries@.len() - i,
    {
        proof {
            lemma_drop_gid_step(whole, g, i as int);
        }
        if !crate::text::str_eq(entries[i].gid.as_str(), kept[0].gid.as_str()) {
            let e = &entries[i];
            let copy = RecentTaskEntry {
                gid: crate::strlist::copy_string(e.gid.as_str()),
                name: crate::strlist::copy_string(e.name.as_str()),
                last_accessed: crate::strlist::copy_string(e.last_accessed.as_str()),
            };
            let ghost prev = entries_view(kept@);
            kept.push(copy);
            proof {
                assert(entries_view(kept@) =~= prev.push(entry_view(entries@[i as int])));
                assert(entries_view(kept@) =~= fresh + spec_drop_gid(whole.take(i + 1), g));
                assert(entries_view(kept@).take(1) =~= fresh);
            }
        } else {
            proof {
                assert(entries_view(kept@) =~= fresh + spec_drop_gid(whole.take(i + 1), g));
            }
        }
        i = i + 1;
    }
    proof {
        assert(whole.take(i as int) =~= whole);
    }
    if kept.len() > RECENT_TASKS_LIMIT {
        kept.truncate(RECENT_TASKS_LIMIT);
        proof {
            assert(entries_view(kept@) =~= (fresh + spec_drop_gid(whole, g)).take(
                RECENT_TASKS_LIMIT as int,
            ));
        }
    }
    *entries = kept;
}

proof fn lemma_drop_gid_step(whole: Seq<(Seq<char>, Seq<char>, Seq<char>)>, g: Seq<char>, i: int)
    requires
        0 <= i < whole.len(),
    ensures
        spec_drop_gid(whole.take(i + 1), g) == if whole[i].0 == g {
            spec_drop_gid(whole.take(i), g)
        } else {
            spec_drop_gid(whole.take(i), g).push(whole[i])
        },
    decreases i,
{
    if i == 0 {
        assert(whole.take(1) =~= seq![whole[0]]);
        assert(whole.take(0) =~= Seq::<(Seq<char>, Seq<char>, Seq<char>)>::empty());
        assert(seq![whole[0]].drop_first() =~= Seq::<(Seq<char>, Seq<char>, Seq<char>)>::empty());
        if whole[0].0 != g {
            assert(spec_drop_gid(whole.take(1), g) =~= spec_drop_gid(whole.take(0), g).push(
                whole[0],
            ));
        }
    } else {
        let a = whole.take(i + 1);
        let b = whole.take(i);
        assert(a.first() == whole[0]);
        assert(b.first() == whole[0]);
        assert(a.drop_first() =~= whole.drop_first().take(i));
        assert(b.drop_first() =~= whole.drop_first().take(i - 1));
        lemma_drop_gid_step(whole.drop_first(), g, i - 1);
        assert(whole.drop_first()[i - 1] == whole[i]);
        if whole[0].0 == g {
        } else {
            if whole[i].0 != g {
                assert(spec_drop_gid(a, g) =~= spec_drop_gid(b, g).push(whole[i]));
            }
        }
    }
}

} // verus!
