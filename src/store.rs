use vstd::prelude::*;

use crate::jwt::{issued_before, jwt_text};

verus! {

/// Refresh tokens live fifteen days after they are issued.
pub const REFRESH_TTL: u64 = 1_296_000;

/// One outstanding refresh token: its text, its owner, and when it expires.
#[derive(Debug)]
pub struct RefreshRecord {
    pub token: String,
    pub user_id: i32,
    pub expires_at: u64,
}

impl View for RefreshRecord {
    type V = (Seq<char>, i32, u64);

    open spec fn view(&self) -> Self::V {
        (self.token@, self.user_id, self.expires_at)
    }
}

/// The table of outstanding refresh tokens, keyed by token text. Its model is
/// a map from each token to its owner and its expiry. It also hands out the
/// serial numbers of refresh tokens, each one once, so that a token that left
/// the table is never issued again.
pub struct RefreshStore {
    records: Vec<RefreshRecord>,
    table: Ghost<Map<Seq<char>, (i32, u64)>>,
    serial: u64,
}

impl View for RefreshStore {
    type V = Map<Seq<char>, (i32, u64)>;

    closed spec fn view(&self) -> Self::V {
        self.table@
    }
}

/// Some record before position `i` holds the token `t`.
pub open spec fn came_from(records: Seq<RefreshRecord>, i: int, t: Seq<char>) -> bool {
    exists|j: int| 0 <= j < i && #[trigger] records[j].token@ == t
}

/// Every token of the table was issued with a serial below `bound`.
pub open spec fn keys_issued_before(table: Map<Seq<char>, (i32, u64)>, bound: u64) -> bool {
    forall|k: Seq<char>| #[trigger] table.contains_key(k) ==> issued_before(k, bound)
}

impl RefreshStore {
    /// The serial that the next refresh token is issued with.
    pub closed spec fn next_serial(&self) -> u64 {
        self.serial
    }

    /// The rows and the model agree, no token has two rows, and every token
    /// was issued with a serial already handed out.
    pub closed spec fn wf(&self) -> bool {
        &&& keys_issued_before(self.table@, self.serial)
        &&& forall|i: int, j: int|
            0 <= i < j < self.records.len() ==> #[trigger] self.records[i].token@
                != #[trigger] self.records[j].token@
        &&& forall|i: int|
            0 <= i < self.records.len() ==> self.table@.contains_key(#[trigger] self.records[i].token@)
                && self.table@[self.records[i].token@] == (
                self.records[i].user_id,
                self.records[i].expires_at,
            )
        &&& forall|k: Seq<char>|
            #[trigger] self.table@.contains_key(k) ==> exists|i: int|
                0 <= i < self.records.len() && #[trigger] self.records[i].token@ == k
    }

    /// An empty table.
    pub fn new() -> (r: RefreshStore)
        ensures
            r.wf(),
            r@ == Map::<Seq<char>, (i32, u64)>::empty(),
            r.next_serial() == 0,
    {
        RefreshStore { records: Vec::new(), table: Ghost(Map::empty()), serial: 0 }
    }

    /// The serial that the next refresh token is issued with.
    pub fn issued(&self) -> (r: u64)
        ensures
            r == self.next_serial(),
    {
        self.serial
    }

    /// A valid table holds only tokens issued with serials already handed out.
    pub proof fn lemma_keys_issued_before(&self)
        requires
            self.wf(),
        ensures
            keys_issued_before(self@, self.next_serial()),
    {
    }

    /// Hands out the next serial.
    pub(crate) fn take_serial(&mut self) -> (r: u64)
        requires
            old(self).wf(),
            old(self).next_serial() < u64::MAX,
        ensures
            final(self).wf(),
            final(self)@ == old(self)@,
            r == old(self).next_serial(),
            final(self).next_serial() == r + 1,
    {
        let r = self.serial;
        let ghost before = *self;
        self.serial = self.serial + 1;
        proof {
            assert forall|k: Seq<char>| #[trigger] self.table@.contains_key(k) implies exists|i: int|
                0 <= i < self.records.len() && #[trigger] self.records[i].token@ == k by {
                assert(before.table@.contains_key(k));
                let i0 = choose|i: int|
                    0 <= i < before.records.len() && #[trigger] before.records[i].token@ == k;
                assert(self.records[i0].token@ == k);
            }
            assert forall|k: Seq<char>| #[trigger] self.table@.contains_key(k) implies issued_before(
                k,
                self.serial,
            ) by {
                assert(issued_before(k, r));
                assert forall|s: Seq<char>, e: Option<u64>, n: Option<u64>, u: i32, m: Seq<char>|
                    #[trigger] jwt_text(s, e, n, u, m) == k implies n is Some && n->Some_0
                    < self.serial by {}
            }
        }
        r
    }

    /// Where the row of `token` stands, if there is one.
    fn position(&self, token: &String) -> (r: Option<usize>)
        requires
            self.wf(),
        ensures
            r is None ==> !self@.contains_key(token@),
            r is Some ==> r->Some_0 < self.records.len() && self.records[r->Some_0 as int].token@
                == token@,
    {
        let mut i: usize = 0;
        while i < self.records.len()
            invariant
                self.wf(),
                i <= self.records.len(),
                forall|j: int| 0 <= j < i ==> self.records[j].token@ != token@,
            decreases self.records.len() - i,
        {
            if self.records[i].token == *token {
                return Some(i);
            }
            i = i + 1;
        }
        None
    }

    /// The record of `token`, when the table holds it for `user_id`.
    pub fn find(&self, token: &str, user_id: i32) -> (r: Option<RefreshRecord>)
        requires
            self.wf(),
        ensures
            r is Some <==> self@.contains_key(token@) && self@[token@].0 == user_id,
            r is Some ==> r->Some_0@ == (token@, user_id, self@[token@].1),
    {
        let t = token.to_owned();
        match self.position(&t) {
            None => None,
            Some(i) => {
                let rec = &self.records[i];
                if rec.user_id == user_id {
                    Some(RefreshRecord { token: t, user_id, expires_at: rec.expires_at })
                } else {
                    None
                }
            },
        }
    }

    /// Deletes the row of `token`, and says how many rows went: one or none.
    pub fn delete(&mut self, token: &str) -> (r: usize)
        requires
            old(self).wf(),
        ensures
            final(self).wf(),
            final(self)@ == old(self)@.remove(token@),
            final(self).next_serial() == old(self).next_serial(),
            r == (if old(self)@.contains_key(token@) { 1usize } else { 0usize }),
    {
        let t = token.to_owned();
        match self.position(&t) {
            None => {
                proof {
                    assert(self.table@.remove(t@) =~= self.table@);
                }
                0
            },
            Some(i) => {
                let ghost old_records = self.records@;
                let ghost old_table = self.table@;
                let _gone = self.records.remove(i);
                self.table = Ghost(old_table.remove(t@));
                proof {
                    assert forall|k: Seq<char>| #[trigger] self.table@.contains_key(k) implies exists|
                        j: int,
                    |
                        0 <= j < self.records.len() && #[trigger] self.records[j].token@ == k by {
                        let j0 = choose|j: int| 0 <= j < old_records.len() && old_records[j].token@ == k;
                        assert(j0 != i);
                        if j0 < i {
                            assert(self.records[j0].token@ == k);
                        } else {
                            assert(self.records[j0 - 1].token@ == k);
                        }
                    }
                    assert forall|a: int|
                        0 <= a < self.records.len() implies self.table@.contains_key(
                        #[trigger] self.records[a].token@,
                    ) && self.table@[self.records[a].token@] == (
                        self.records[a].user_id,
                        self.records[a].expires_at,
                    ) by {
                        if a < i {
                            assert(old_records[a] == self.records[a]);
                        } else {
                            assert(old_records[a + 1] == self.records[a]);
                        }
                    }
                    assert forall|a: int, b: int|
                        0 <= a < b < self.records.len() implies #[trigger] self.records[a].token@
                        != #[trigger] self.records[b].token@ by {
                        let oa = if a < i { a } else { a + 1 };
                        let ob = if b < i { b } else { b + 1 };
                        assert(old_records[oa] == self.records[a]);
                        assert(old_records[ob] == self.records[b]);
                    }
                }
                1
            },
        }
    }

    /// Stores `token` for `user_id` until `expires_at`; a row that the token
    /// already has takes the new owner and expiry.
    pub fn upsert(&mut self, token: String, user_id: i32, expires_at: u64)
        requires
            old(self).wf(),
            issued_before(token@, old(self).next_serial()),
        ensures
            final(self).wf(),
            final(self).next_serial() == old(self).next_serial(),
            final(self)@ == old(self)@.insert(token@, (user_id, expires_at)),
    {
        let _rows = self.delete(token.as_str());
        let ghost mid_records = self.records@;
        let ghost mid_table = self.table@;
        let ghost key = token@;
        self.records.push(RefreshRecord { token, user_id, expires_at });
        self.table = Ghost(mid_table.insert(key, (user_id, expires_at)));
        proof {
            let n = mid_records.len() as int;
            assert(self.records[n].token@ == key);
            assert forall|k: Seq<char>| #[trigger] self.table@.contains_key(k) implies exists|j: int|
                0 <= j < self.records.len() && #[trigger] self.records[j].token@ == k by {
                if k == key {
                    assert(self.records[n].token@ == k);
                } else {
                    let j0 = choose|j: int| 0 <= j < mid_records.len() && mid_records[j].token@ == k;
                    assert(self.records[j0] == mid_records[j0]);
                }
            }
            assert forall|a: int|
                0 <= a < self.records.len() implies self.table@.contains_key(
                #[trigger] self.records[a].token@,
            ) && self.table@[self.records[a].token@] == (
                self.records[a].user_id,
                self.records[a].expires_at,
            ) by {
                if a < n {
                    assert(self.records[a] == mid_records[a]);
                    assert(mid_table.contains_key(mid_records[a].token@));
                }
            }
            assert forall|a: int, b: int|
                0 <= a < b < self.records.len() implies #[trigger] self.records[a].token@
                != #[trigger] self.records[b].token@ by {
                assert(self.records[a] == mid_records[a]);
                if b < n {
                    assert(self.records[b] == mid_records[b]);
                } else {
                    assert(mid_table.contains_key(mid_records[a].token@));
                }
            }
        }
    }
    /// Deletes every row owned by `user_id`, as when that user is deleted.
    pub fn delete_user_tokens(&mut self, user_id: i32)
        requires
            old(self).wf(),
        ensures
            final(self).wf(),
            final(self).next_serial() == old(self).next_serial(),
            forall|k: Seq<char>|
                #[trigger] final(self)@.contains_key(k) <==> old(self)@.contains_key(k) && old(
                    self,
                )@[k].0 != user_id,
            forall|k: Seq<char>| #[trigger] final(self)@.contains_key(k) ==> final(self)@[k] == old(self)@[k],
    {
        let ghost old_t = self.table@;
        let mut kept: Vec<RefreshRecord> = Vec::new();
        let mut i: usize = 0;
        while i < self.records.len()
            invariant
                self.wf(),
                self.table@ == old_t,
                i <= self.records.len(),
                forall|a: int, b: int|
                    0 <= a < b < kept.len() ==> #[trigger] kept[a].token@ != #[trigger] kept[b].token@,
                forall|a: int|
                    0 <= a < kept.len() ==> old_t.contains_key(#[trigger] kept[a].token@) && old_t[kept[a].token@]
                        == (kept[a].user_id, kept[a].expires_at) && kept[a].user_id != user_id,
                forall|a: int| 0 <= a < kept.len() ==> came_from(self.records@, i as int, #[trigger] kept[a].token@),
                forall|j: int|
                    0 <= j < i && #[trigger] self.records[j].user_id != user_id ==> exists|a: int|
                        0 <= a < kept.len() && #[trigger] kept[a].token@ == self.records[j].token@,
            decreases self.records.len() - i,
        {
            let rec = &self.records[i];
            if rec.user_id != user_id {
                let ghost before = kept@;
                kept.push(RefreshRecord { token: rec.token.clone(), user_id: rec.user_id, expires_at: rec.expires_at });
                proof {
                    let n = before.len() as int;
                    assert(kept[n].token@ == self.records[i as int].token@);
                    assert forall|a: int, b: int|
                        0 <= a < b < kept.len() implies #[trigger] kept[a].token@ != #[trigger] kept[b].token@ by {
                        if b == n {
                            assert(kept[a] == before[a]);
                            assert(came_from(self.records@, i as int, before[a].token@));
                            let j = choose|j: int|
                                0 <= j < i && #[trigger] self.records@[j].token@ == before[a].token@;
                            assert(self.records[j].token@ != self.records[i as int].token@);
                        } else {
                            assert(kept[a] == before[a]);
                            assert(kept[b] == before[b]);
                        }
                    }
                    assert forall|a: int| 0 <= a < kept.len() implies came_from(
                        self.records@,
                        i + 1,
                        #[trigger] kept[a].token@,
                    ) by {
                        if a < n {
                            assert(kept[a] == before[a]);
                            assert(came_from(self.records@, i as int, before[a].token@));
                            let j = choose|j: int|
                                0 <= j < i && #[trigger] self.records@[j].token@ == before[a].token@;
                            assert(self.records@[j].token@ == kept[a].token@);
                        } else {
                            assert(self.records@[i as int].token@ == kept[a].token@);
                        }
                    }
                    assert forall|j: int|
                        0 <= j < i + 1 && #[trigger] self.records[j].user_id != user_id implies exists|a: int|
                            0 <= a < kept.len() && #[trigger] kept[a].token@ == self.records[j].token@ by {
                        if j < i {
                            let a = choose|a: int| 0 <= a < before.len() && #[trigger] before[a].token@ == self.records[j].token@;
                            assert(kept[a] == before[a]);
                        } else {
                            assert(kept[n].token@ == self.records[j].token@);
                        }
                    }
                    assert forall|a: int|
                        0 <= a < kept.len() implies old_t.contains_key(#[trigger] kept[a].token@) && old_t[kept[a].token@]
                            == (kept[a].user_id, kept[a].expires_at) && kept[a].user_id != user_id by {
                        if a < n {
                            assert(kept[a] == before[a]);
                        } else {
                            assert(kept[a].token@ == self.records[i as int].token@);
                            assert(kept[a].user_id == self.records[i as int].user_id);
                            assert(kept[a].expires_at == self.records[i as int].expires_at);
                            assert(old_t.contains_key(self.records[i as int].token@));
                        }
                    }
                }
            } else {
                proof {
                    assert forall|a: int| 0 <= a < kept.len() implies came_from(
                        self.records@,
                        i + 1,
                        #[trigger] kept[a].token@,
                    ) by {
                        assert(came_from(self.records@, i as int, kept[a].token@));
                        let j = choose|j: int|
                            0 <= j < i && #[trigger] self.records@[j].token@ == kept[a].token@;
                        assert(self.records@[j].token@ == kept[a].token@);
                    }
                }
            }
            i = i + 1;
        }
        let ghost new_t = Map::new(|k: Seq<char>| old_t.contains_key(k) && old_t[k].0 != user_id, |k: Seq<char>| old_t[k]);
        proof {
            assert forall|k: Seq<char>| #[trigger] new_t.contains_key(k) implies exists|a: int|
                0 <= a < kept.len() && #[trigger] kept[a].token@ == k by {
                let j = choose|j: int| 0 <= j < self.records.len() && #[trigger] self.records[j].token@ == k;
                assert(self.records[j].user_id != user_id);
            }
            assert forall|k: Seq<char>| #[trigger] new_t.contains_key(k) implies issued_before(k, self.serial) by {
                assert(old_t.contains_key(k));
            }
        }
        self.records = kept;
        self.table = Ghost(new_t);
    }
}

} // verus!
