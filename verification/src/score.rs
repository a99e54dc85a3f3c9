//! The score ledger: accepts a finished round's hunt count bound to a player
//! name, keeps at most the ten highest-scoring entries ordered by score
//! descending, and renders the ranked listing.

use vstd::prelude::*;
use crate::utilities::{
    dec_spec, pad_center, pad_center_spec, pad_left, pad_left_spec, trim_spec, trim_str, u32_to_dec,
};

verus! {

/// The most entries the ledger retains.
pub const MAX_ENTRIES: usize = 10;

/// One leaderboard entry: a player name (non-empty, stored trimmed), a
/// score, and a creation timestamp.
pub struct ScoreEntry {
    /// Player name
    pub name: String,
    /// Score: the round's hunt count
    pub score: u32,
    /// Creation timestamp, already formatted
    pub created_at: String,
}

/// Entries are ordered by score descending.
pub open spec fn sorted_desc_spec(s: Seq<ScoreEntry>) -> bool {
    forall|i: int, j: int| 0 <= i < j < s.len() ==> s[i].score >= s[j].score
}

/// The rank a new score takes in a descending list: the first index whose
/// entry scores strictly less, so a tie goes below the sitting entries.
pub open spec fn insert_rank_spec(s: Seq<ScoreEntry>, score: u32) -> int
    decreases s.len(),
{
    if s.len() == 0 {
        0
    } else if s[0].score < score {
        0
    } else {
        1 + insert_rank_spec(s.skip(1), score)
    }
}

/// The entries after one accepted submission: the new entry at its rank,
/// and everything beyond the tenth place purged.
pub open spec fn submit_spec(s: Seq<ScoreEntry>, e: ScoreEntry) -> Seq<ScoreEntry> {
    let inserted = s.insert(insert_rank_spec(s, e.score), e);
    if inserted.len() > 10 {
        inserted.take(10)
    } else {
        inserted
    }
}

/// The rank of a new score lies in the list, every entry above it scores at
/// least the new score, and the entry at it, if any, scores strictly less.
pub proof fn lemma_insert_rank_props(s: Seq<ScoreEntry>, score: u32)
    requires
        sorted_desc_spec(s),
    ensures
        0 <= insert_rank_spec(s, score) <= s.len(),
        forall|k: int| 0 <= k < insert_rank_spec(s, score) ==> s[k].score >= score,
        insert_rank_spec(s, score) < s.len() ==> s[insert_rank_spec(s, score)].score < score,
    decreases s.len(),
{
    if s.len() == 0 {
    } else if s[0].score < score {
    } else {
        assert(sorted_desc_spec(s.skip(1)));
        lemma_insert_rank_props(s.skip(1), score);
        assert forall|k: int| 0 <= k < insert_rank_spec(s, score) implies s[k].score
            >= score by {
            if k > 0 {
                assert(s.skip(1)[k - 1] == s[k]);
            }
        }
        if insert_rank_spec(s, score) < s.len() {
            assert(s.skip(1)[insert_rank_spec(s.skip(1), score)] == s[insert_rank_spec(s, score)]);
        }
    }
}

/// Submitting into a descending list keeps it descending.
pub proof fn lemma_submit_keeps_sorted(s: Seq<ScoreEntry>, e: ScoreEntry)
    requires
        sorted_desc_spec(s),
    ensures
        sorted_desc_spec(submit_spec(s, e)),
        submit_spec(s, e).len() == if s.len() + 1 > 10 {
            10int
        } else {
            (s.len() + 1) as int
        },
{
    let idx = insert_rank_spec(s, e.score);
    lemma_insert_rank_props(s, e.score);
    let inserted = s.insert(idx, e);
    s.insert_ensures(idx, e);
    assert forall|i: int, j: int| 0 <= i < j < inserted.len() implies inserted[i].score
        >= inserted[j].score by {
        if i < idx && j < idx {
        } else if i < idx && j == idx {
        } else if i == idx && j > idx {
            assert(inserted[j] == s[j - 1]);
            assert(s[j - 1].score <= s[idx].score);
        } else if i < idx && j > idx {
            assert(inserted[j] == s[j - 1]);
        } else if i > idx {
            assert(inserted[i] == s[i - 1]);
            assert(inserted[j] == s[j - 1]);
        }
    }
    if inserted.len() > 10 {
        assert(sorted_desc_spec(inserted.take(10)));
    }
}

/// The bounded leaderboard: at most ten entries, ordered by score
/// descending, every name non-empty.
pub struct ScoreLedger {
    /// The retained entries, best first.
    pub entries: Vec<ScoreEntry>,
}

impl ScoreLedger {
    /// At most ten entries, ordered by score descending, names non-empty.
    pub open spec fn wf(&self) -> bool {
        sorted_desc_spec(self.entries@) && self.entries@.len() <= 10 && forall|i: int|
            0 <= i < self.entries@.len() ==> self.entries@[i].name@.len() > 0
    }

    /// An empty ledger.
    pub fn new() -> (r: Self)
        ensures
            r.entries@ == Seq::<ScoreEntry>::empty(),
            r.wf(),
    {
        let r = ScoreLedger { entries: Vec::new() };
        proof {
            assert(r.entries@ =~= Seq::<ScoreEntry>::empty());
        }
        r
    }

    fn rank_index(&self, score: u32) -> (r: usize)
        ensures
            r == insert_rank_spec(self.entries@, score),
            r <= self.entries@.len(),
    {
        let s = Ghost(self.entries@);
        let n = self.entries.len();
        let mut i: usize = 0;
        proof {
            assert(s@.skip(0) =~= s@);
        }
        while i < n && self.entries[i].score >= score
            invariant
                i <= n,
                n == s@.len(),
                s@ == self.entries@,
                insert_rank_spec(s@, score) == i + insert_rank_spec(s@.skip(i as int), score),
            decreases n - i,
        {
            proof {
                assert(s@.skip(i as int)[0] == s@[i as int]);
                assert(s@.skip(i as int).skip(1) =~= s@.skip(i as int + 1));
            }
            i = i + 1;
        }
        proof {
            if i == n {
                assert(s@.skip(i as int) =~= Seq::<ScoreEntry>::empty());
            } else {
                assert(s@.skip(i as int)[0] == s@[i as int]);
            }
        }
        i
    }

    /// Submits a finished round. A name that is blank after trimming is
    /// silently ignored: no entry is created and nothing changes. Otherwise
    /// the trimmed name, the score and the timestamp enter at their rank and
    /// everything beyond the tenth place is purged. Returns whether an entry
    /// was recorded.
    pub fn submit(&mut self, name: &str, score: u32, created_at: String) -> (r: bool)
        requires
            old(self).wf(),
        ensures
            final(self).wf(),
            r == (trim_spec(name@).len() > 0),
            !r ==> final(self).entries@ == old(self).entries@,
            r ==> exists|e: ScoreEntry|
                e.name@ == trim_spec(name@) && e.score == score && e.created_at@ == created_at@
                    && final(self).entries@ == submit_spec(old(self).entries@, e),
            r ==> final(self).entries@.len() == (if old(self).entries@.len() + 1 > 10 {
                10int
            } else {
                (old(self).entries@.len() + 1) as int
            }),
    {
        let trimmed = trim_str(name);
        if trimmed.unicode_len() == 0 {
            return false;
        }
        let e = ScoreEntry { name: trimmed, score, created_at };
        let ghost entry = e;
        proof {
            lemma_insert_rank_props(self.entries@, score);
            lemma_submit_keeps_sorted(self.entries@, entry);
        }
        let idx = self.rank_index(score);
        self.entries.insert(idx, e);
        if self.entries.len() > MAX_ENTRIES {
            self.entries.truncate(MAX_ENTRIES);
            proof {
                assert(old(self).entries@.insert(
                    insert_rank_spec(old(self).entries@, entry.score),
                    entry,
                ).take(10) =~= old(self).entries@.insert(
                    insert_rank_spec(old(self).entries@, entry.score),
                    entry,
                ).subrange(0, 10));
            }
        }
        proof {
            old(self).entries@.insert_ensures(
                insert_rank_spec(old(self).entries@, entry.score),
                entry,
            );
            assert(self.entries@ == submit_spec(old(self).entries@, entry));
        }
        true
    }

    /// The retained entries, best first: the rank of an entry is one more
    /// than its index.
    pub fn ranked_list(&self) -> (r: &Vec<ScoreEntry>)
        ensures
            r@ == self.entries@,
    {
        &self.entries
    }
}

/// One line of the ranked listing: the 1-based rank centred in four
/// columns, the score right-aligned in three, the name centred in ten and
/// the timestamp centred in nineteen.
pub open spec fn row_spec(rank: int, e: ScoreEntry) -> Seq<char> {
    "\n          "@ + pad_center_spec(dec_spec(rank), 4) + "  "@ + pad_left_spec(
        dec_spec(e.score as int),
        3,
    ) + "    "@ + pad_center_spec(e.name@, 10) + "   "@ + pad_center_spec(e.created_at@, 19)
}

/// The ranked listing from the given first rank on.
pub open spec fn rows_spec(s: Seq<ScoreEntry>, first_rank: int) -> Seq<char>
    decreases s.len(),
{
    if s.len() == 0 {
        Seq::<char>::empty()
    } else {
        row_spec(first_rank, s[0]) + rows_spec(s.skip(1), first_rank + 1)
    }
}

impl ScoreLedger {
    /// Renders the ranked listing, one line per entry, rank 1 first.
    pub fn render_ranking(&self) -> (r: String)
        requires
            self.wf(),
        ensures
            r@ == rows_spec(self.entries@, 1),
    {
        let s = Ghost(self.entries@);
        let n = self.entries.len();
        let mut out = String::new();
        let mut i: usize = 0;
        proof {
            assert(s@.skip(0) =~= s@);
            assert(out@ + rows_spec(s@, 1) =~= rows_spec(s@, 1));
        }
        while i < n
            invariant
                i <= n,
                n == s@.len(),
                n <= 10,
                s@ == self.entries@,
                out@ + rows_spec(s@.skip(i as int), i + 1) == rows_spec(s@, 1),
            decreases n - i,
        {
            let ghost out0 = out@;
            let rank_s = u32_to_dec((i as u32) + 1);
            let rank_p = pad_center(rank_s.as_str(), 4);
            let score_s = u32_to_dec(self.entries[i].score);
            let score_p = pad_left(score_s.as_str(), 3);
            let name_p = pad_center(self.entries[i].name.as_str(), 10);
            let created_p = pad_center(self.entries[i].created_at.as_str(), 19);
            out.append("\n          ");
            out.append(rank_p.as_str());
            out.append("  ");
            out.append(score_p.as_str());
            out.append("    ");
            out.append(name_p.as_str());
            out.append("   ");
            out.append(created_p.as_str());
            proof {
                assert(s@.skip(i as int)[0] == s@[i as int]);
                assert(s@.skip(i as int).skip(1) =~= s@.skip(i as int + 1));
                assert(out@ =~= out0 + row_spec(i + 1, s@[i as int]));
                assert(out0 + (row_spec(i + 1, s@[i as int]) + rows_spec(
                    s@.skip(i as int + 1),
                    i + 2,
                )) =~= (out0 + row_spec(i + 1, s@[i as int])) + rows_spec(
                    s@.skip(i as int + 1),
                    i + 2,
                ));
            }
            i = i + 1;
        }
        proof {
            assert(s@.skip(n as int) =~= Seq::<ScoreEntry>::empty());
            assert(out@ + Seq::<char>::empty() =~= out@);
        }
        out
    }
}

} // verus!
