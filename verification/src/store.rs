//! The subscription store.
//!
//! The engine reads and writes a narrow slice of relational state: the
//! set of chats subscribed to the weekly digest, the set subscribed to
//! rate alerts, a user-id-to-display-name mapping, and per-user activity
//! counters.  This module keeps
//! that state as verified in-memory tables; the SQL text an external
//! database would receive for the same operations is built in
//! [`crate::queries`].

use vstd::prelude::*;

use crate::queries::{spec_kind_code, UpdateKind};

verus! {

/// No value occurs twice.
pub open spec fn no_dup(s: Seq<i64>) -> bool {
    forall|i: int, j: int| 0 <= i < j < s.len() ==> s[i] != s[j]
}

/// The display-name mapping a pair list denotes, later pairs winning.
pub open spec fn map_of(s: Seq<(i64, String)>) -> Map<i64, Seq<char>>
    decreases s.len(),
{
    if s.len() == 0 {
        Map::empty()
    } else {
        map_of(s.drop_last()).insert(s.last().0, s.last().1@)
    }
}

/// The counter map a statistics row list denotes: chat, user and kind
/// code key one count each.
pub open spec fn stats_map_of(s: Seq<(i64, i64, i32, i64)>) -> Map<(i64, i64, i32), int>
    decreases s.len(),
{
    if s.len() == 0 {
        Map::empty()
    } else {
        stats_map_of(s.drop_last()).insert(
            (s.last().0, s.last().1, s.last().2),
            s.last().3 as int,
        )
    }
}

/// A counter after one more recorded event: one when the key is new,
/// otherwise one more, held at the ceiling.
pub open spec fn bumped(m: Map<(i64, i64, i32), int>, k: (i64, i64, i32)) -> int {
    if m.dom().contains(k) {
        if m[k] < i64::MAX {
            m[k] + 1
        } else {
            m[k]
        }
    } else {
        1
    }
}

/// The subscription state: digest subscribers, rate-alert subscribers,
/// the display-name mapping, and the activity counters.
pub struct Database {
    chats: Vec<i64>,
    crypto_chats: Vec<i64>,
    mapping: Vec<(i64, String)>,
    stats: Vec<(i64, i64, i32, i64)>,
}

impl Database {
    /// Digest subscribers, in subscription order.
    pub closed spec fn chats(self) -> Seq<i64> {
        self.chats@
    }

    /// Rate-alert subscribers, in subscription order.
    pub closed spec fn crypto_chats(self) -> Seq<i64> {
        self.crypto_chats@
    }

    /// The display-name mapping.
    pub closed spec fn mapping(self) -> Map<i64, Seq<char>> {
        map_of(self.mapping@)
    }

    /// How many users have a recorded name.
    pub closed spec fn mapping_len(self) -> nat {
        self.mapping@.len()
    }

    /// The activity counters.
    pub closed spec fn statistics(self) -> Map<(i64, i64, i32), int> {
        stats_map_of(self.stats@)
    }

    /// The counter rows of one user in one chat, in first-seen order:
    /// kind code and count.
    pub closed spec fn stats_rows(self, chat_id: i64, user_id: i64) -> Seq<(i32, i64)> {
        stats_rows_for(self.stats@, chat_id, user_id)
    }

    /// Each chat is subscribed at most once; each user has one name;
    /// each chat, user and kind has one counter row, with a known kind
    /// code.
    pub closed spec fn wf(self) -> bool {
        &&& no_dup(self.chats@)
        &&& no_dup(self.crypto_chats@)
        &&& forall|i: int, j: int|
            0 <= i < j < self.mapping@.len() ==> (#[trigger] self.mapping@[i]).0 != (
            #[trigger] self.mapping@[j]).0
        &&& forall|i: int, j: int|
            0 <= i < j < self.stats@.len() ==> !((#[trigger] self.stats@[i]).0
                == (#[trigger] self.stats@[j]).0 && self.stats@[i].1 == self.stats@[j].1
                && self.stats@[i].2 == self.stats@[j].2)
        &&& forall|i: int|
            0 <= i < self.stats@.len() ==> 0 <= (#[trigger] self.stats@[i]).2 <= 2
    }

    /// An empty store.
    pub fn new() -> (db: Database)
        ensures
            db.wf(),
            db.chats() =~= Seq::<i64>::empty(),
            db.crypto_chats() =~= Seq::<i64>::empty(),
            db.mapping() =~= Map::<i64, Seq<char>>::empty(),
            db.statistics() =~= Map::<(i64, i64, i32), int>::empty(),
    {
        Database {
            chats: Vec::new(),
            crypto_chats: Vec::new(),
            mapping: Vec::new(),
            stats: Vec::new(),
        }
    }

    /// Whether a chat receives the digest.
    pub fn is_active(&self, chat_id: i64) -> (r: bool)
        ensures
            r == self.chats().contains(chat_id),
    {
        contains_chat(&self.chats, chat_id)
    }

    /// Subscribe a chat to the digest; nothing changes when it already
    /// is.
    pub fn add(&mut self, chat_id: i64)
        requires
            old(self).wf(),
        ensures
            final(self).wf(),
            final(self).chats() == (if old(self).chats().contains(chat_id) {
                old(self).chats()
            } else {
                old(self).chats().push(chat_id)
            }),
            final(self).crypto_chats() == old(self).crypto_chats(),
            final(self).mapping() == old(self).mapping(),
            final(self).statistics() == old(self).statistics(),
    {
        if !contains_chat(&self.chats, chat_id) {
            self.chats.push(chat_id);
        }
    }

    /// Unsubscribe a chat from the digest.
    pub fn remove(&mut self, chat_id: i64)
        requires
            old(self).wf(),
        ensures
            final(self).wf(),
            !final(self).chats().contains(chat_id),
            final(self).chats().to_set() == old(self).chats().to_set().remove(chat_id),
            final(self).crypto_chats() == old(self).crypto_chats(),
            final(self).mapping() == old(self).mapping(),
            final(self).statistics() == old(self).statistics(),
    {
        remove_chat(&mut self.chats, chat_id);
    }

    /// All digest subscribers.
    pub fn get_all_active_chats(&self) -> (r: Vec<i64>)
        ensures
            r@ == self.chats(),
    {
        clone_chats(&self.chats)
    }

    /// Whether a chat receives rate alerts.
    pub fn is_active_crypto(&self, chat_id: i64) -> (r: bool)
        ensures
            r == self.crypto_chats().contains(chat_id),
    {
        contains_chat(&self.crypto_chats, chat_id)
    }

    /// Subscribe a chat to rate alerts; nothing changes when it already
    /// is.
    pub fn add_crypto(&mut self, chat_id: i64)
        requires
            old(self).wf(),
        ensures
            final(self).wf(),
            final(self).crypto_chats() == (if old(self).crypto_chats().contains(chat_id) {
                old(self).crypto_chats()
            } else {
                old(self).crypto_chats().push(chat_id)
            }),
            final(self).chats() == old(self).chats(),
            final(self).mapping() == old(self).mapping(),
            final(self).statistics() == old(self).statistics(),
    {
        if !contains_chat(&self.crypto_chats, chat_id) {
            self.crypto_chats.push(chat_id);
        }
    }

    /// Unsubscribe a chat from rate alerts.
    pub fn remove_crypto(&mut self, chat_id: i64)
        requires
            old(self).wf(),
        ensures
            final(self).wf(),
            !final(self).crypto_chats().contains(chat_id),
            final(self).crypto_chats().to_set() == old(self).crypto_chats().to_set().remove(
                chat_id,
            ),
            final(self).chats() == old(self).chats(),
            final(self).mapping() == old(self).mapping(),
            final(self).statistics() == old(self).statistics(),
    {
        remove_chat(&mut self.crypto_chats, chat_id);
    }

    /// All rate-alert subscribers.
    pub fn get_all_active_crypto_chats(&self) -> (r: Vec<i64>)
        ensures
            r@ == self.crypto_chats(),
    {
        clone_chats(&self.crypto_chats)
    }

    /// Record display names: each given pair sets the name of that user,
    /// later pairs winning.
    pub fn update_mapping(&mut self, pairs: &Vec<(i64, String)>)
        requires
            old(self).wf(),
        ensures
            final(self).wf(),
            final(self).mapping() == apply_pairs(old(self).mapping(), pairs@),
            final(self).chats() == old(self).chats(),
            final(self).crypto_chats() == old(self).crypto_chats(),
            final(self).statistics() == old(self).statistics(),
    {
        let ghost all = pairs@;
        let mut i: usize = 0;
        proof {
            assert(all.take(0) =~= Seq::<(i64, String)>::empty());
            assert(apply_pairs(map_of(old(self).mapping@), all.take(0)) == map_of(
                old(self).mapping@,
            ));
        }
        while i < pairs.len()
            invariant
                self.wf(),
                i <= all.len(),
                pairs@ == all,
                map_of(self.mapping@) == apply_pairs(map_of(old(self).mapping@), all.take(i as int)),
                self.chats@ == old(self).chats@,
                self.crypto_chats@ == old(self).crypto_chats@,
                self.stats@ == old(self).stats@,
            decreases all.len() - i,
        {
            let user = pairs[i].0;
            let name = clone_string(&pairs[i].1);
            proof {
                assert(all.take(i as int + 1) =~= all.take(i as int).push(all[i as int]));
                lemma_apply_pairs_snoc(map_of(old(self).mapping@), all.take(i as int), all[i as int]);
            }
            self.upsert_name(user, name);
            i = i + 1;
        }
        proof {
            assert(all.take(all.len() as int) =~= all);
        }
    }

    /// Set one user's display name.
    fn upsert_name(&mut self, user: i64, name: String)
        requires
            old(self).wf(),
        ensures
            final(self).wf(),
            map_of(final(self).mapping@) == map_of(old(self).mapping@).insert(user, name@),
            final(self).chats@ == old(self).chats@,
            final(self).crypto_chats@ == old(self).crypto_chats@,
            final(self).stats@ == old(self).stats@,
    {
        let n = self.mapping.len();
        let mut i: usize = 0;
        while i < n
            invariant
                old(self).wf(),
                n == self.mapping@.len(),
                i <= n,
                forall|j: int| 0 <= j < i ==> (#[trigger] self.mapping@[j]).0 != user,
                self == old(self),
            decreases n - i,
        {
            if self.mapping[i].0 == user {
                let ghost before = self.mapping@;
                self.mapping.set(i, (user, name));
                proof {
                    lemma_map_of_update(before, i as int, user, name@);
                    assert(self.mapping@ == before.update(i as int, (user, name)));
                    assert(forall|x: int|
                        0 <= x < self.mapping@.len() ==> (#[trigger] self.mapping@[x]).0
                            == before[x].0);
                }
                return ;
            }
            i = i + 1;
        }
        let ghost before = self.mapping@;
        self.mapping.push((user, name));
        proof {
            assert(self.mapping@.drop_last() =~= before);
        }
    }

    /// Count one activity event of a user in a chat; a fresh counter
    /// starts at one, and a full one stays at the ceiling.
    pub fn update_statistics(&mut self, chat_id: i64, user_id: i64, kind: UpdateKind)
        requires
            old(self).wf(),
        ensures
            final(self).wf(),
            final(self).statistics() == old(self).statistics().insert(
                (chat_id, user_id, spec_kind_code(kind) as i32),
                bumped(old(self).statistics(), (chat_id, user_id, spec_kind_code(kind) as i32)),
            ),
            final(self).chats() == old(self).chats(),
            final(self).crypto_chats() == old(self).crypto_chats(),
            final(self).mapping() == old(self).mapping(),
    {
        let code = kind.code();
        let n = self.stats.len();
        let mut i: usize = 0;
        while i < n
            invariant
                old(self).wf(),
                n == self.stats@.len(),
                i <= n,
                forall|j: int|
                    0 <= j < i ==> !((#[trigger] self.stats@[j]).0 == chat_id
                        && self.stats@[j].1 == user_id && self.stats@[j].2 == code),
                self == old(self),
                0 <= code <= 2,
                code == spec_kind_code(kind),
            decreases n - i,
        {
            let row = self.stats[i];
            if row.0 == chat_id && row.1 == user_id && row.2 == code {
                let count = if row.3 < i64::MAX {
                    row.3 + 1
                } else {
                    row.3
                };
                let ghost before = self.stats@;
                self.stats.set(i, (chat_id, user_id, code, count));
                proof {
                    lemma_stats_map_update(before, i as int, count);
                    assert(self.stats@ == before.update(
                        i as int,
                        (chat_id, user_id, code, count),
                    ));
                    assert(forall|x: int|
                        0 <= x < self.stats@.len() ==> (#[trigger] self.stats@[x]).0
                            == before[x].0 && self.stats@[x].1 == before[x].1
                            && self.stats@[x].2 == before[x].2);
                    lemma_stats_map_contains(before, i as int);
                }
                return ;
            }
            i = i + 1;
        }
        let ghost before = self.stats@;
        self.stats.push((chat_id, user_id, code, 1));
        proof {
            assert(self.stats@.drop_last() =~= before);
            lemma_stats_map_absent(before, (chat_id, user_id, code));
        }
    }

    /// The recorded counters of one user in one chat, in first-seen
    /// order.
    pub fn get_statistics(&self, chat_id: i64, user_id: i64) -> (r: Vec<(UpdateKind, i64)>)
        requires
            self.wf(),
        ensures
            r@.len() == self.stats_rows(chat_id, user_id).len(),
            forall|j: int|
                0 <= j < r@.len() ==> spec_kind_code((#[trigger] r@[j]).0) == self.stats_rows(
                    chat_id,
                    user_id,
                )[j].0 && r@[j].1 == self.stats_rows(chat_id, user_id)[j].1,
    {
        let mut out: Vec<(UpdateKind, i64)> = Vec::new();
        let n = self.stats.len();
        let mut i: usize = 0;
        proof {
            assert(self.stats@.take(0) =~= Seq::<(i64, i64, i32, i64)>::empty());
        }
        while i < n
            invariant
                self.wf(),
                n == self.stats@.len(),
                i <= n,
                out@.len() == stats_rows_for(self.stats@.take(i as int), chat_id, user_id).len(),
                forall|j: int|
                    0 <= j < out@.len() ==> spec_kind_code((#[trigger] out@[j]).0)
                        == stats_rows_for(self.stats@.take(i as int), chat_id, user_id)[j].0
                        && out@[j].1 == stats_rows_for(
                        self.stats@.take(i as int),
                        chat_id,
                        user_id,
                    )[j].1,
            decreases n - i,
        {
            proof {
                assert(self.stats@.take(i as int + 1).drop_last() =~= self.stats@.take(i as int));
                assert(self.stats@.take(i as int + 1).last() == self.stats@[i as int]);
            }
            let row = self.stats[i];
            if row.0 == chat_id && row.1 == user_id {
                let kind = crate::queries::kind_of_code(row.2);
                out.push((kind, row.3));
            }
            i = i + 1;
        }
        proof {
            assert(self.stats@.take(n as int) =~= self.stats@);
        }
        out
    }

    /// All recorded display names, in first-seen order.
    pub fn get_mapping(&self) -> (r: Vec<(i64, String)>)
        ensures
            map_of(r@) == self.mapping(),
            r@.len() == self.mapping_len(),
    {
        let mut out: Vec<(i64, String)> = Vec::new();
        let mut i: usize = 0;
        while i < self.mapping.len()
            invariant
                i <= self.mapping@.len(),
                out@.len() == i,
                forall|j: int| 0 <= j < i ==> out@[j].0 == self.mapping@[j].0 && (
                #[trigger] out@[j]).1@ == self.mapping@[j].1@,
            decreases self.mapping@.len() - i,
        {
            let user = self.mapping[i].0;
            let name = clone_string(&self.mapping[i].1);
            out.push((user, name));
            i = i + 1;
        }
        proof {
            lemma_map_of_congruent(out@, self.mapping@);
        }
        out
    }
}

/// The counter rows of one user in one chat, in first-seen order: kind
/// code and count of each matching row.
pub open spec fn stats_rows_for(s: Seq<(i64, i64, i32, i64)>, chat_id: i64, user_id: i64) -> Seq<
    (i32, i64),
>
    decreases s.len(),
{
    if s.len() == 0 {
        Seq::empty()
    } else {
        stats_rows_for(s.drop_last(), chat_id, user_id) + (if s.last().0 == chat_id
            && s.last().1 == user_id {
            seq![(s.last().2, s.last().3)]
        } else {
            Seq::empty()
        })
    }
}

/// Overwriting the count of the row that holds a key denotes inserting
/// that key.
proof fn lemma_stats_map_update(s: Seq<(i64, i64, i32, i64)>, j: int, count: i64)
    requires
        0 <= j < s.len(),
        forall|i1: int, j1: int|
            0 <= i1 < j1 < s.len() ==> !((#[trigger] s[i1]).0 == (#[trigger] s[j1]).0
                && s[i1].1 == s[j1].1 && s[i1].2 == s[j1].2),
    ensures
        stats_map_of(s.update(j, (s[j].0, s[j].1, s[j].2, count))) == stats_map_of(s).insert(
            (s[j].0, s[j].1, s[j].2),
            count as int,
        ),
    decreases s.len(),
{
    let t = s.update(j, (s[j].0, s[j].1, s[j].2, count));
    if j == s.len() - 1 {
        assert(t.drop_last() =~= s.drop_last());
        assert(t.last() == (s[j].0, s[j].1, s[j].2, count));
        assert(stats_map_of(s.drop_last()).insert(
            (s.last().0, s.last().1, s.last().2),
            s.last().3 as int,
        ).insert((s[j].0, s[j].1, s[j].2), count as int) =~= stats_map_of(s.drop_last()).insert(
            (s[j].0, s[j].1, s[j].2),
            count as int,
        ));
    } else {
        assert(t.drop_last() =~= s.drop_last().update(j, (s[j].0, s[j].1, s[j].2, count)));
        assert(t.last() == s.last());
        assert(forall|i1: int, j1: int|
            0 <= i1 < j1 < s.drop_last().len() ==> !((#[trigger] s.drop_last()[i1]).0
                == (#[trigger] s.drop_last()[j1]).0 && s.drop_last()[i1].1 == s.drop_last()[j1].1
                && s.drop_last()[i1].2 == s.drop_last()[j1].2));
        assert(s.drop_last()[j] == s[j]);
        lemma_stats_map_update(s.drop_last(), j, count);
        // The last row's key differs from the updated one, so the
        // inserts commute.
        assert(!(s.last().0 == s[j].0 && s.last().1 == s[j].1 && s.last().2 == s[j].2));
        assert(stats_map_of(s.drop_last()).insert((s[j].0, s[j].1, s[j].2), count as int).insert(
            (s.last().0, s.last().1, s.last().2),
            s.last().3 as int,
        ) =~= stats_map_of(s.drop_last()).insert(
            (s.last().0, s.last().1, s.last().2),
            s.last().3 as int,
        ).insert((s[j].0, s[j].1, s[j].2), count as int));
    }
}

/// The counter map holds the count of the row that holds a key.
proof fn lemma_stats_map_contains(s: Seq<(i64, i64, i32, i64)>, j: int)
    requires
        0 <= j < s.len(),
        forall|i1: int, j1: int|
            0 <= i1 < j1 < s.len() ==> !((#[trigger] s[i1]).0 == (#[trigger] s[j1]).0
                && s[i1].1 == s[j1].1 && s[i1].2 == s[j1].2),
    ensures
        stats_map_of(s).dom().contains((s[j].0, s[j].1, s[j].2)),
        stats_map_of(s)[(s[j].0, s[j].1, s[j].2)] == s[j].3 as int,
    decreases s.len(),
{
    if j < s.len() - 1 {
        assert(forall|i1: int, j1: int|
            0 <= i1 < j1 < s.drop_last().len() ==> !((#[trigger] s.drop_last()[i1]).0
                == (#[trigger] s.drop_last()[j1]).0 && s.drop_last()[i1].1 == s.drop_last()[j1].1
                && s.drop_last()[i1].2 == s.drop_last()[j1].2));
        assert(s.drop_last()[j] == s[j]);
        lemma_stats_map_contains(s.drop_last(), j);
        assert(!(s.last().0 == s[j].0 && s.last().1 == s[j].1 && s.last().2 == s[j].2));
    }
}

/// A key no row holds is outside the counter map.
proof fn lemma_stats_map_absent(s: Seq<(i64, i64, i32, i64)>, k: (i64, i64, i32))
    requires
        forall|j: int|
            0 <= j < s.len() ==> !((#[trigger] s[j]).0 == k.0 && s[j].1 == k.1 && s[j].2 == k.2),
    ensures
        !stats_map_of(s).dom().contains(k),
    decreases s.len(),
{
    if s.len() > 0 {
        assert(forall|j: int|
            0 <= j < s.drop_last().len() ==> !((#[trigger] s.drop_last()[j]).0 == k.0
                && s.drop_last()[j].1 == k.1 && s.drop_last()[j].2 == k.2));
        lemma_stats_map_absent(s.drop_last(), k);
    }
}

/// The mapping after recording a list of pairs in order.
pub open spec fn apply_pairs(m: Map<i64, Seq<char>>, pairs: Seq<(i64, String)>) -> Map<
    i64,
    Seq<char>,
>
    decreases pairs.len(),
{
    if pairs.len() == 0 {
        m
    } else {
        apply_pairs(m, pairs.drop_last()).insert(pairs.last().0, pairs.last().1@)
    }
}

proof fn lemma_apply_pairs_snoc(m: Map<i64, Seq<char>>, pairs: Seq<(i64, String)>, p: (i64, String))
    ensures
        apply_pairs(m, pairs.push(p)) == apply_pairs(m, pairs).insert(p.0, p.1@),
{
    assert(pairs.push(p).drop_last() =~= pairs);
    assert(pairs.push(p).last() == p);
}

/// Two pair lists with equal keys and equal name texts denote the same
/// mapping.
proof fn lemma_map_of_congruent(a: Seq<(i64, String)>, b: Seq<(i64, String)>)
    requires
        a.len() == b.len(),
        forall|j: int| 0 <= j < a.len() ==> a[j].0 == b[j].0 && (#[trigger] a[j]).1@ == b[j].1@,
    ensures
        map_of(a) == map_of(b),
    decreases a.len(),
{
    if a.len() > 0 {
        assert(forall|j: int|
            0 <= j < a.drop_last().len() ==> a.drop_last()[j].0 == b.drop_last()[j].0 && (
            #[trigger] a.drop_last()[j]).1@ == b.drop_last()[j].1@);
        lemma_map_of_congruent(a.drop_last(), b.drop_last());
    }
}

/// Overwriting the pair that holds a key denotes inserting that key.
proof fn lemma_map_of_update(s: Seq<(i64, String)>, j: int, user: i64, name: Seq<char>)
    requires
        0 <= j < s.len(),
        s[j].0 == user,
        forall|i1: int, j1: int| 0 <= i1 < j1 < s.len() ==> (#[trigger] s[i1]).0 != (
        #[trigger] s[j1]).0,
    ensures
        forall|v: String|
            v@ == name ==> map_of(#[trigger] s.update(j, (user, v))) == map_of(s).insert(
                user,
                name,
            ),
    decreases s.len(),
{
    assert forall|v: String| v@ == name implies map_of(#[trigger] s.update(j, (user, v)))
        == map_of(s).insert(user, name) by {
        let t = s.update(j, (user, v));
        if j == s.len() - 1 {
            assert(t.drop_last() =~= s.drop_last());
            assert(t.last() == (user, v));
            assert(map_of(t) == map_of(s.drop_last()).insert(user, name));
            assert(map_of(s).insert(user, name) == map_of(s.drop_last()).insert(
                s.last().0,
                s.last().1@,
            ).insert(user, name));
            assert(map_of(s.drop_last()).insert(s.last().0, s.last().1@).insert(user, name)
                =~= map_of(s.drop_last()).insert(user, name));
        } else {
            assert(t.drop_last() =~= s.drop_last().update(j, (user, v)));
            assert(t.last() == s.last());
            assert(forall|i1: int, j1: int|
                0 <= i1 < j1 < s.drop_last().len() ==> (#[trigger] s.drop_last()[i1]).0 != (
                #[trigger] s.drop_last()[j1]).0);
            lemma_map_of_update(s.drop_last(), j, user, name);
            assert(map_of(t) == map_of(s.drop_last()).insert(user, name).insert(
                s.last().0,
                s.last().1@,
            ));
            // The outer key differs from `user`, so the inserts commute.
            assert(s.last().0 != user);
            assert(map_of(s.drop_last()).insert(user, name).insert(s.last().0, s.last().1@)
                =~= map_of(s.drop_last()).insert(s.last().0, s.last().1@).insert(user, name));
        }
    }
}

/// Whether a chat list holds an id.
fn contains_chat(chats: &Vec<i64>, chat_id: i64) -> (r: bool)
    ensures
        r == chats@.contains(chat_id),
{
    let mut i: usize = 0;
    while i < chats.len()
        invariant
            i <= chats@.len(),
            forall|j: int| 0 <= j < i ==> chats@[j] != chat_id,
        decreases chats@.len() - i,
    {
        if chats[i] == chat_id {
            return true;
        }
        i = i + 1;
    }
    false
}

/// Copy a chat list.
fn clone_chats(chats: &Vec<i64>) -> (r: Vec<i64>)
    ensures
        r@ == chats@,
{
    let mut out: Vec<i64> = Vec::new();
    let mut i: usize = 0;
    while i < chats.len()
        invariant
            i <= chats@.len(),
            out@ =~= chats@.take(i as int),
        decreases chats@.len() - i,
    {
        out.push(chats[i]);
        i = i + 1;
    }
    proof {
        assert(chats@.take(chats@.len() as int) =~= chats@);
    }
    out
}

/// Copy a string.
fn clone_string(s: &String) -> (r: String)
    ensures
        r@ == s@,
{
    s.as_str().to_owned()
}

/// Drop every occurrence of an id from a chat list.
fn remove_chat(chats: &mut Vec<i64>, chat_id: i64)
    requires
        no_dup(old(chats)@),
    ensures
        no_dup(final(chats)@),
        !final(chats)@.contains(chat_id),
        final(chats)@.to_set() == old(chats)@.to_set().remove(chat_id),
{
    let mut i: usize = 0;
    while i < chats.len()
        invariant
            i <= chats@.len(),
            no_dup(chats@),
            chats@ == old(chats)@,
            forall|j: int| 0 <= j < i ==> chats@[j] != chat_id,
        decreases chats@.len() - i,
    {
        if chats[i] == chat_id {
            let ghost cur = chats@;
            chats.remove(i);
            proof {
                lemma_remove_membership(cur, i as int);
                assert(chats@ == cur.remove(i as int));
                assert(chats@.to_set() =~= old(chats)@.to_set().remove(chat_id)) by {
                    assert forall|x: i64|
                        x != chat_id implies #[trigger] chats@.contains(x) == cur.contains(x) by {
                        assert(cur.remove(i as int).contains(x) == cur.contains(x));
                    }
                    assert(!chats@.contains(chat_id));
                }
            }
            return ;
        }
        i = i + 1;
    }
    proof {
        if chats@.contains(chat_id) {
            let j = choose|j: int| 0 <= j < chats@.len() && chats@[j] == chat_id;
        }
        assert(chats@.to_set() =~= old(chats)@.to_set().remove(chat_id));
    }
}

/// What removing one position does to membership, under uniqueness.
proof fn lemma_remove_membership(s: Seq<i64>, i: int)
    requires
        0 <= i < s.len(),
        no_dup(s),
    ensures
        no_dup(s.remove(i)),
        !s.remove(i).contains(s[i]),
        forall|x: i64| x != s[i] ==> (#[trigger] s.remove(i).contains(x) == s.contains(x)),
{
    let t = s.remove(i);
    assert forall|x: i64| x != s[i] implies (#[trigger] t.contains(x) == s.contains(x)) by {
        if s.contains(x) {
            let j = choose|j: int| 0 <= j < s.len() && s[j] == x;
            if j < i {
                assert(t[j] == x);
            } else {
                assert(t[j - 1] == x);
            }
        }
        if t.contains(x) {
            let j = choose|j: int| 0 <= j < t.len() && t[j] == x;
            if j < i {
                assert(s[j] == x);
            } else {
                assert(s[j + 1] == x);
            }
        }
    }
    assert forall|j: int| 0 <= j < t.len() implies t[j] != s[i] by {
        if j < i {
            assert(t[j] == s[j]);
        } else {
            assert(t[j] == s[j + 1]);
        }
    }
    if t.contains(s[i]) {
        let j = choose|j: int| 0 <= j < t.len() && t[j] == s[i];
    }
}

} // verus!
