//! The clip history: the most recent distinct clips, newest first.
//!
//! This is the model of the `clip_history` table: a clip is keyed by its
//! content hash (a `UNIQUE` column), storing a clip first deletes the row
//! with the same key, then inserts the clip as the newest row, then deletes
//! every row beyond the `HISTORY_LIMIT` newest. Deleting by text removes every
//! row holding that text.
use crate::digest::{content_hash, content_hash_spec};
use crate::text::same_text;
use vstd::prelude::*;

verus! {

/// How many clips the history keeps.
pub const HISTORY_LIMIT: usize = 5;

/// What a stored clip is, mathematically.
pub struct ClipEntryView {
    pub content: Seq<char>,
    pub content_hash: Seq<char>,
}

/// A clip together with its storage key.
pub struct ClipEntry {
    content: String,
    content_hash: String,
}

impl View for ClipEntry {
    type V = ClipEntryView;

    closed spec fn view(&self) -> ClipEntryView {
        ClipEntryView { content: self.content@, content_hash: self.content_hash@ }
    }
}

/// A clip whose key is the hash of its text.
pub open spec fn is_keyed(e: ClipEntryView) -> bool {
    e.content_hash == content_hash_spec(e.content)
}

impl ClipEntry {
    #[verifier::type_invariant]
    spec fn keyed(self) -> bool {
        is_keyed(self@)
    }

    /// The clip holding `content`, keyed by its content hash.
    pub fn new(content: String) -> (entry: ClipEntry)
        ensures
            entry@.content == content@,
            entry@.content_hash == content_hash_spec(content@),
    {
        let content_hash = content_hash(content.as_str());
        ClipEntry { content, content_hash }
    }

    /// The clip's text.
    pub fn content(&self) -> (text: &String)
        ensures
            text@ == self@.content,
            is_keyed(self@),
    {
        proof {
            use_type_invariant(self);
        }
        &self.content
    }

    /// The clip's storage key.
    pub fn content_hash(&self) -> (hash: &String)
        ensures
            hash@ == self@.content_hash,
            is_keyed(self@),
    {
        proof {
            use_type_invariant(self);
        }
        &self.content_hash
    }

    fn copy(&self) -> (entry: ClipEntry)
        ensures
            entry@ == self@,
    {
        proof {
            use_type_invariant(self);
        }
        ClipEntry { content: self.content.clone(), content_hash: self.content_hash.clone() }
    }
}

/// Keeps the clips whose key differs from `hash`.
pub open spec fn other_hash(hash: Seq<char>) -> spec_fn(ClipEntryView) -> bool {
    |e: ClipEntryView| e.content_hash != hash
}

/// Keeps the clips whose text differs from `content`.
pub open spec fn other_content(content: Seq<char>) -> spec_fn(ClipEntryView) -> bool {
    |e: ClipEntryView| e.content != content
}

/// No two clips share a key.
pub open spec fn unique_hashes(s: Seq<ClipEntryView>) -> bool {
    forall|i: int, j: int|
        0 <= i < j < s.len() ==> #[trigger] s[i].content_hash != #[trigger] s[j].content_hash
}

/// Every clip is keyed by the hash of its text.
pub open spec fn all_keyed(s: Seq<ClipEntryView>) -> bool {
    forall|i: int| 0 <= i < s.len() ==> is_keyed(#[trigger] s[i])
}

/// What every history satisfies.
pub open spec fn history_wf(s: Seq<ClipEntryView>) -> bool {
    &&& s.len() <= HISTORY_LIMIT
    &&& unique_hashes(s)
    &&& all_keyed(s)
}

/// The history after storing `e`: `e` first, then the earlier clips with
/// another key in their order, cut to the `HISTORY_LIMIT` newest.
pub open spec fn record_spec(s: Seq<ClipEntryView>, e: ClipEntryView) -> Seq<ClipEntryView> {
    let kept = seq![e] + s.filter(other_hash(e.content_hash));
    if kept.len() <= HISTORY_LIMIT {
        kept
    } else {
        kept.take(HISTORY_LIMIT as int)
    }
}

/// The history after deleting every clip whose text is `content`.
pub open spec fn remove_content_spec(s: Seq<ClipEntryView>, content: Seq<char>) -> Seq<
    ClipEntryView,
> {
    s.filter(other_content(content))
}

/// The clips of a row sequence.
pub open spec fn views(s: Seq<ClipEntry>) -> Seq<ClipEntryView> {
    s.map_values(|e: ClipEntry| e@)
}

/// The stored clips, newest first.
pub struct ClipHistory {
    entries: Vec<ClipEntry>,
}

impl View for ClipHistory {
    type V = Seq<ClipEntryView>;

    closed spec fn view(&self) -> Seq<ClipEntryView> {
        views(self.entries@)
    }
}

/// Removing the clip at `j` from a history with unique keys is the same as
/// keeping the clips whose key differs from its key.
proof fn lemma_filter_drops_index(s: Seq<ClipEntryView>, j: int)
    requires
        unique_hashes(s),
        0 <= j < s.len(),
    ensures
        s.filter(other_hash(s[j].content_hash)) == s.remove(j),
    decreases s.len(),
{
    reveal(Seq::filter);
    let h = s[j].content_hash;
    let d = s.drop_last();
    if j == s.len() - 1 {
        assert forall|k: int| 0 <= k < d.len() implies d[k].content_hash != h by {
            assert(s[k].content_hash != s[j].content_hash);
        }
        lemma_filter_keeps_all(d, h);
        assert(s.remove(j) =~= d);
    } else {
        assert(unique_hashes(d)) by {
            assert forall|a: int, b: int| 0 <= a < b < d.len() implies d[a].content_hash
                != d[b].content_hash by {
                assert(s[a].content_hash != s[b].content_hash);
            }
        }
        lemma_filter_drops_index(d, j);
        assert(d[j] == s[j]);
        assert(s[j].content_hash != s[s.len() - 1].content_hash);
        assert(s.remove(j) =~= d.remove(j).push(s.last()));
    }
}

/// Keeping the clips with another key than `h` keeps all of them when none
/// has key `h`.
proof fn lemma_filter_keeps_all(s: Seq<ClipEntryView>, h: Seq<char>)
    requires
        forall|k: int| 0 <= k < s.len() ==> #[trigger] s[k].content_hash != h,
    ensures
        s.filter(other_hash(h)) == s,
    decreases s.len(),
{
    reveal(Seq::filter);
    if s.len() > 0 {
        let d = s.drop_last();
        assert forall|k: int| 0 <= k < d.len() implies #[trigger] d[k].content_hash != h by {
            assert(s[k].content_hash != h);
        }
        lemma_filter_keeps_all(d, h);
        assert(d.push(s.last()) =~= s);
    }
}

/// The clips kept besides `e` are the earlier clips with another key.
proof fn lemma_filter_other_hash(s: Seq<ClipEntryView>, h: Seq<char>)
    requires
        unique_hashes(s),
    ensures
        s.filter(other_hash(h)).len() <= s.len(),
        unique_hashes(s.filter(other_hash(h))),
        forall|k: int|
            0 <= k < s.filter(other_hash(h)).len() ==> #[trigger] s.filter(other_hash(h))[k].content_hash != h,
        forall|k: int|
            0 <= k < s.filter(other_hash(h)).len() ==> s.contains(
                #[trigger] s.filter(other_hash(h))[k],
            ),
{
    if exists|j: int| 0 <= j < s.len() && s[j].content_hash == h {
        let j = choose|j: int| 0 <= j < s.len() && s[j].content_hash == h;
        lemma_filter_drops_index(s, j);
        let r = s.remove(j);
        assert forall|k: int| 0 <= k < r.len() implies #[trigger] r[k].content_hash != h by {
            if k < j {
                assert(s[k].content_hash != s[j].content_hash);
            } else {
                assert(s[j].content_hash != s[k + 1].content_hash);
            }
        }
        assert forall|a: int, b: int| 0 <= a < b < r.len() implies #[trigger] r[a].content_hash
            != #[trigger] r[b].content_hash by {
            let a2 = if a < j { a } else { a + 1 };
            let b2 = if b < j { b } else { b + 1 };
            assert(s[a2].content_hash != s[b2].content_hash);
        }
        assert forall|k: int| 0 <= k < r.len() implies s.contains(#[trigger] r[k]) by {
            if k < j {
                assert(s[k] == r[k]);
            } else {
                assert(s[k + 1] == r[k]);
            }
        }
    } else {
        assert forall|k: int| 0 <= k < s.len() implies #[trigger] s[k].content_hash != h by {}
        lemma_filter_keeps_all(s, h);
        assert forall|k: int| 0 <= k < s.len() implies s.contains(#[trigger] s[k]) by {}
    }
}

/// Storing a clip keeps a history well formed.
pub proof fn lemma_record_wf(s: Seq<ClipEntryView>, e: ClipEntryView)
    requires
        history_wf(s),
        is_keyed(e),
    ensures
        history_wf(record_spec(s, e)),
{
    let f = s.filter(other_hash(e.content_hash));
    lemma_filter_other_hash(s, e.content_hash);
    let kept = seq![e] + f;
    assert(unique_hashes(kept)) by {
        assert forall|a: int, b: int| 0 <= a < b < kept.len() implies #[trigger] kept[a].content_hash
            != #[trigger] kept[b].content_hash by {
            if a == 0 {
                assert(kept[b] == f[b - 1]);
            } else {
                assert(kept[a] == f[a - 1]);
                assert(kept[b] == f[b - 1]);
            }
        }
    }
    assert(all_keyed(kept)) by {
        assert forall|k: int| 0 <= k < kept.len() implies is_keyed(#[trigger] kept[k]) by {
            if k > 0 {
                assert(kept[k] == f[k - 1]);
                assert(s.contains(f[k - 1]));
            }
        }
    }
    let r = record_spec(s, e);
    assert forall|a: int, b: int| 0 <= a < b < r.len() implies #[trigger] r[a].content_hash
        != #[trigger] r[b].content_hash by {
        assert(r[a] == kept[a] && r[b] == kept[b]);
    }
    assert forall|k: int| 0 <= k < r.len() implies is_keyed(#[trigger] r[k]) by {
        assert(r[k] == kept[k]);
    }
}

impl ClipHistory {
    #[verifier::type_invariant]
    spec fn inv(self) -> bool {
        history_wf(self@)
    }

    /// An empty history.
    pub fn new() -> (history: ClipHistory)
        ensures
            history@ == Seq::<ClipEntryView>::empty(),
            history_wf(history@),
    {
        let history = ClipHistory { entries: Vec::new() };
        assert(history@ =~= Seq::<ClipEntryView>::empty());
        history
    }

    /// How many clips are stored.
    pub fn len(&self) -> (n: usize)
        ensures
            n == self@.len(),
            n <= HISTORY_LIMIT,
    {
        proof {
            use_type_invariant(self);
        }
        self.entries.len()
    }

    /// The texts of the stored clips, newest first.
    pub fn contents(&self) -> (texts: Vec<String>)
        ensures
            texts@.len() == self@.len(),
            forall|i: int| 0 <= i < texts@.len() ==> #[trigger] texts@[i]@ == self@[i].content,
    {
        let mut texts: Vec<String> = Vec::new();
        let mut i: usize = 0;
        while i < self.entries.len()
            invariant
                i <= self.entries@.len(),
                texts@.len() == i,
                forall|k: int| 0 <= k < i ==> #[trigger] texts@[k]@ == self@[k].content,
            decreases self.entries@.len() - i,
        {
            texts.push(self.entries[i].content.clone());
            i = i + 1;
        }
        texts
    }

    /// Stores `entry` as the newest clip: the clip with the same key leaves,
    /// and only the `HISTORY_LIMIT` newest clips stay.
    pub fn record(&mut self, entry: ClipEntry)
        ensures
            final(self)@ == record_spec(old(self)@, entry@),
            history_wf(final(self)@),
    {
        proof {
            use_type_invariant(&*self);
            use_type_invariant(&entry);
        }
        let ghost before = self@;
        let ghost e = entry@;
        let mut rows: Vec<ClipEntry> = Vec::new();
        std::mem::swap(&mut rows, &mut self.entries);
        assert(views(rows@) == before);
        let found = position_of_hash(&rows, &entry.content_hash);
        match found {
            Some(j) => {
                let _gone = rows.remove(j);
                proof {
                    lemma_filter_drops_index(before, j as int);
                }
                assert(views(rows@) =~= before.remove(j as int));
            },
            None => {
                proof {
                    assert forall|k: int| 0 <= k < before.len() implies #[trigger] before[k].content_hash
                        != e.content_hash by {
                        assert(before[k] == rows@[k]@);
                    }
                    lemma_filter_keeps_all(before, e.content_hash);
                }
            },
        }
        let ghost f = views(rows@);
        assert(f == before.filter(other_hash(e.content_hash)));
        rows.insert(0, entry);
        assert(views(rows@) =~= seq![e] + f);
        rows.truncate(HISTORY_LIMIT);
        assert(views(rows@) =~= record_spec(before, e));
        proof {
            lemma_record_wf(before, e);
        }
        self.entries = rows;
    }

    /// Deletes every clip whose text is `content`; the others keep their order.
    pub fn remove_content(&mut self, content: &str)
        ensures
            final(self)@ == remove_content_spec(old(self)@, content@),
            history_wf(final(self)@),
    {
        proof {
            use_type_invariant(&*self);
        }
        let ghost before = self@;
        let ghost p = other_content(content@);
        let mut kept: Vec<ClipEntry> = Vec::new();
        let mut i: usize = 0;
        while i < self.entries.len()
            invariant
                i <= self.entries@.len(),
                views(self.entries@) == before,
                p == other_content(content@),
                views(kept@) == before.take(i as int).filter(p),
            decreases self.entries@.len() - i,
        {
            proof {
                reveal(Seq::filter);
                assert(before.take(i + 1).drop_last() =~= before.take(i as int));
            }
            if !same_text(self.entries[i].content.as_str(), content) {
                let row = self.entries[i].copy();
                kept.push(row);
                assert(views(kept@) =~= before.take(i as int).filter(p).push(before[i as int]));
            }
            i = i + 1;
        }
        assert(before.take(i as int) =~= before);
        proof {
            lemma_remove_content_wf(before, content@);
        }
        self.entries = kept;
    }
}

/// Deleting clips by text keeps a history well formed.
proof fn lemma_remove_content_wf(s: Seq<ClipEntryView>, content: Seq<char>)
    requires
        history_wf(s),
    ensures
        history_wf(remove_content_spec(s, content)),
        forall|k: int|
            0 <= k < remove_content_spec(s, content).len() ==> s.contains(
                #[trigger] remove_content_spec(s, content)[k],
            ),
    decreases s.len(),
{
    reveal(Seq::filter);
    if s.len() > 0 {
        let d = s.drop_last();
        assert(history_wf(d)) by {
            assert forall|a: int, b: int| 0 <= a < b < d.len() implies #[trigger] d[a].content_hash
                != #[trigger] d[b].content_hash by {
                assert(s[a].content_hash != s[b].content_hash);
            }
            assert forall|k: int| 0 <= k < d.len() implies is_keyed(#[trigger] d[k]) by {
                assert(is_keyed(s[k]));
            }
        }
        lemma_remove_content_wf(d, content);
        broadcast use vstd::seq_lib::group_filter_ensures;

        let fd = d.filter(other_content(content));
        let last = s.last();
        assert(is_keyed(s[s.len() - 1]));
        if last.content != content {
            let r = fd.push(last);
            assert forall|a: int, b: int| 0 <= a < b < r.len() implies #[trigger] r[a].content_hash
                != #[trigger] r[b].content_hash by {
                if b == r.len() - 1 {
                    assert(d.contains(fd[a]));
                    let k = choose|k: int| 0 <= k < d.len() && d[k] == fd[a];
                    assert(s[k].content_hash != s[s.len() - 1].content_hash);
                }
            }
            assert forall|k: int| 0 <= k < r.len() implies is_keyed(#[trigger] r[k]) by {}
            assert forall|k: int| 0 <= k < r.len() implies s.contains(#[trigger] r[k]) by {
                if k < fd.len() {
                    assert(d.contains(fd[k]));
                    let m = choose|m: int| 0 <= m < d.len() && d[m] == fd[k];
                    assert(s[m] == r[k]);
                } else {
                    assert(s[s.len() - 1] == r[k]);
                }
            }
        } else {
            assert forall|k: int| 0 <= k < fd.len() implies s.contains(#[trigger] fd[k]) by {
                assert(d.contains(fd[k]));
                let m = choose|m: int| 0 <= m < d.len() && d[m] == fd[k];
                assert(s[m] == fd[k]);
            }
        }
    }
}

/// Finds the row whose key is `hash`.
fn position_of_hash(rows: &Vec<ClipEntry>, hash: &String) -> (found: Option<usize>)
    ensures
        match found {
            Some(j) => j < rows@.len() && rows@[j as int]@.content_hash == hash@,
            None => forall|k: int| 0 <= k < rows@.len() ==> #[trigger] rows@[k]@.content_hash != hash@,
        },
{
    let mut i: usize = 0;
    while i < rows.len()
        invariant
            i <= rows@.len(),
            forall|k: int| 0 <= k < i ==> #[trigger] rows@[k]@.content_hash != hash@,
        decreases rows@.len() - i,
    {
        if rows[i].content_hash == *hash {
            return Some(i);
        }
        i = i + 1;
    }
    None
}

/// Law: a stored clip is the newest clip of the history.
pub proof fn law_recorded_clip_is_newest(s: Seq<ClipEntryView>, e: ClipEntryView)
    ensures
        record_spec(s, e).len() >= 1,
        record_spec(s, e)[0] == e,
{
}

/// Law: every clip of the history after a store is the stored clip or was
/// there before; nothing else appears.
pub proof fn law_record_adds_only_the_clip(s: Seq<ClipEntryView>, e: ClipEntryView)
    requires
        history_wf(s),
    ensures
        forall|k: int|
            0 <= k < record_spec(s, e).len() ==> #[trigger] record_spec(s, e)[k] == e || s.contains(
                record_spec(s, e)[k],
            ),
{
    lemma_filter_other_hash(s, e.content_hash);
    let f = s.filter(other_hash(e.content_hash));
    let kept = seq![e] + f;
    assert forall|k: int| 0 <= k < record_spec(s, e).len() implies #[trigger] record_spec(s, e)[k]
        == e || s.contains(record_spec(s, e)[k]) by {
        assert(record_spec(s, e)[k] == kept[k]);
        if k > 0 {
            assert(kept[k] == f[k - 1]);
        }
    }
}

/// Law: storing the same clip twice in a row leaves the history as one
/// store does.
pub proof fn law_record_twice_is_record_once(s: Seq<ClipEntryView>, e: ClipEntryView)
    requires
        history_wf(s),
        is_keyed(e),
    ensures
        record_spec(record_spec(s, e), e) == record_spec(s, e),
{
    let r = record_spec(s, e);
    lemma_record_wf(s, e);
    lemma_filter_drops_index(r, 0);
    assert(seq![e] + r.remove(0) =~= r);
}

/// Law: a history never holds the same text twice.
pub proof fn law_text_stored_once(s: Seq<ClipEntryView>)
    requires
        history_wf(s),
    ensures
        forall|i: int, j: int|
            0 <= i < j < s.len() ==> #[trigger] s[i].content != #[trigger] s[j].content,
{
    assert forall|i: int, j: int| 0 <= i < j < s.len() implies #[trigger] s[i].content
        != #[trigger] s[j].content by {
        assert(is_keyed(s[i]) && is_keyed(s[j]));
        assert(s[i].content_hash != s[j].content_hash);
    }
}

/// Law: while the history is not full, a store drops no clip other than the
/// one with the same key.
pub proof fn law_record_keeps_clips_below_limit(s: Seq<ClipEntryView>, e: ClipEntryView)
    requires
        history_wf(s),
        s.len() < HISTORY_LIMIT,
    ensures
        forall|k: int|
            0 <= k < s.len() && s[k].content_hash != e.content_hash ==> record_spec(
                s,
                e,
            ).contains(#[trigger] s[k]),
{
    broadcast use vstd::seq_lib::group_filter_ensures;

    let f = s.filter(other_hash(e.content_hash));
    let kept = seq![e] + f;
    assert(record_spec(s, e) == kept);
    assert forall|k: int| 0 <= k < s.len() && s[k].content_hash != e.content_hash implies record_spec(
        s,
        e,
    ).contains(#[trigger] s[k]) by {
        assert(f.contains(s[k]));
        let m = choose|m: int| 0 <= m < f.len() && f[m] == s[k];
        assert(kept[m + 1] == s[k]);
    }
}

/// Law: after deleting a text no clip holds it, and every clip with another
/// text stays.
pub proof fn law_remove_content_removes_exactly(s: Seq<ClipEntryView>, content: Seq<char>)
    ensures
        forall|k: int|
            0 <= k < remove_content_spec(s, content).len() ==> (#[trigger] remove_content_spec(
                s,
                content,
            )[k]).content != content,
        forall|k: int|
            0 <= k < s.len() && s[k].content != content ==> remove_content_spec(s, content).contains(
                #[trigger] s[k],
            ),
{
    broadcast use vstd::seq_lib::group_filter_ensures;

    assert forall|k: int| 0 <= k < remove_content_spec(s, content).len() implies (
    #[trigger] remove_content_spec(s, content)[k]).content != content by {
        assert(other_content(content)(remove_content_spec(s, content)[k]));
    }
    assert forall|k: int| 0 <= k < s.len() && s[k].content != content implies remove_content_spec(
        s,
        content,
    ).contains(#[trigger] s[k]) by {
        assert(other_content(content)(s[k]));
    }
}

/// Law: a store keeps the history as full as it can be: the new clip plus
/// every earlier clip with another key, up to `HISTORY_LIMIT` clips in all.
/// Every earlier clip with another key that has fewer than
/// `HISTORY_LIMIT - 1` such clips before it stays, and the clips after
/// the new one keep their earlier order.
pub proof fn law_record_keeps_the_newest(s: Seq<ClipEntryView>, e: ClipEntryView)
    ensures
        record_spec(s, e)[0] == e,
        forall|k: int|
            0 <= k < record_spec(s, e).len() - 1 ==> #[trigger] record_spec(s, e)[k + 1] == s.filter(
                other_hash(e.content_hash),
            )[k],
        record_spec(s, e).len() == (if 1 + s.filter(other_hash(e.content_hash)).len()
            <= HISTORY_LIMIT {
            1 + s.filter(other_hash(e.content_hash)).len()
        } else {
            HISTORY_LIMIT as nat
        }),
        forall|k: int|
            0 <= k < s.len() && s[k].content_hash != e.content_hash && s.take(k).filter(
                other_hash(e.content_hash),
            ).len() < HISTORY_LIMIT - 1 ==> record_spec(s, e).contains(#[trigger] s[k]),
{
    let p = other_hash(e.content_hash);
    let f = s.filter(p);
    let kept = seq![e] + f;
    assert forall|k: int|
        0 <= k < s.len() && s[k].content_hash != e.content_hash && s.take(k).filter(p).len()
            < HISTORY_LIMIT - 1 implies record_spec(s, e).contains(#[trigger] s[k]) by {
        let a = s.take(k);
        let b = s.skip(k);
        let rest = s.skip(k + 1);
        assert(s =~= a + b);
        Seq::filter_distributes_over_add(a, b, p);
        assert(b =~= seq![s[k]] + rest);
        Seq::filter_distributes_over_add(seq![s[k]], rest, p);
        assert(seq![s[k]].filter(p) =~= seq![s[k]]) by {
            reveal(Seq::filter);
            assert(seq![s[k]].drop_last() =~= Seq::<ClipEntryView>::empty());
        }
        let j = a.filter(p).len() as int;
        assert(f[j] == s[k]);
        assert(kept[j + 1] == s[k]);
        assert(record_spec(s, e)[j + 1] == s[k]);
    }
}

} // verus!
