//! Reactions on one timeline item: a mapping from reaction key to the
//! senders that reacted with it, and the toggle operation that adds the
//! caller's reaction or retracts it.

use vstd::prelude::*;

verus! {

/// One sender of a reaction, with the reaction's timestamp.
#[derive(Clone, Debug, PartialEq)]
pub struct ReactionSenderData {
    pub sender_id: String,
    pub timestamp: u64,
}

/// Ghost mirror of [`ReactionSenderData`].
#[verifier::ext_equal]
pub struct ReactionSenderDataView {
    pub sender_id: Seq<char>,
    pub timestamp: u64,
}

impl View for ReactionSenderData {
    type V = ReactionSenderDataView;

    open spec fn view(&self) -> ReactionSenderDataView {
        ReactionSenderDataView { sender_id: self.sender_id@, timestamp: self.timestamp }
    }
}

impl DeepView for ReactionSenderData {
    type V = ReactionSenderDataView;

    open spec fn deep_view(&self) -> ReactionSenderDataView {
        self.view()
    }
}

/// One reaction key with everyone who reacted with it.
#[derive(Clone, Debug, PartialEq)]
pub struct Reaction {
    pub key: String,
    pub senders: Vec<ReactionSenderData>,
}

/// Ghost mirror of [`Reaction`].
#[verifier::ext_equal]
pub struct ReactionView {
    pub key: Seq<char>,
    pub senders: Seq<ReactionSenderDataView>,
}

impl View for Reaction {
    type V = ReactionView;

    open spec fn view(&self) -> ReactionView {
        ReactionView { key: self.key@, senders: self.senders.deep_view() }
    }
}

impl DeepView for Reaction {
    type V = ReactionView;

    open spec fn deep_view(&self) -> ReactionView {
        self.view()
    }
}

impl Reaction {
    /// Duplicates the reaction; the copy has the same view.
    pub fn dup(&self) -> (r: Reaction)
        ensures
            r@ == self@,
    {
        let mut senders: Vec<ReactionSenderData> = Vec::new();
        let mut i: usize = 0;
        while i < self.senders.len()
            invariant
                i <= self.senders.len(),
                senders@.len() == i,
                forall|j: int| 0 <= j < i ==> (#[trigger] senders@[j])@ == self.senders@[j]@,
            decreases self.senders.len() - i,
        {
            senders.push(
                ReactionSenderData {
                    sender_id: self.senders[i].sender_id.clone(),
                    timestamp: self.senders[i].timestamp,
                },
            );
            i += 1;
        }
        let r = Reaction { key: self.key.clone(), senders };
        proof {
            assert(r.senders.deep_view() =~= self.senders.deep_view());
            assert(r@ =~= self@);
        }
        r
    }
}

/// The position of `key` among the reactions, or `-1` when absent.
pub open spec fn find_key(rs: Seq<ReactionView>, key: Seq<char>) -> int
    decreases rs.len(),
{
    if rs.len() == 0 {
        -1
    } else if rs[0].key == key {
        0
    } else {
        let rest = find_key(rs.drop_first(), key);
        if rest == -1 {
            -1
        } else {
            rest + 1
        }
    }
}

/// The position of `user` among the senders, or `-1` when absent.
pub open spec fn find_sender(senders: Seq<ReactionSenderDataView>, user: Seq<char>) -> int
    decreases senders.len(),
{
    if senders.len() == 0 {
        -1
    } else if senders[0].sender_id == user {
        0
    } else {
        let rest = find_sender(senders.drop_first(), user);
        if rest == -1 {
            -1
        } else {
            rest + 1
        }
    }
}

/// Whether `user` has reacted with `key`.
pub open spec fn has_reacted(rs: Seq<ReactionView>, key: Seq<char>, user: Seq<char>) -> bool {
    let k = find_key(rs, key);
    k != -1 && find_sender(rs[k].senders, user) != -1
}

/// Well-formed reactions: keys are unique, no key's sender set is empty,
/// and no sender appears twice under one key.
pub open spec fn reactions_wf(rs: Seq<ReactionView>) -> bool {
    &&& forall|i: int, j: int|
        0 <= i < j < rs.len() ==> (#[trigger] rs[i]).key != (#[trigger] rs[j]).key
    &&& forall|i: int| 0 <= i < rs.len() ==> (#[trigger] rs[i]).senders.len() > 0
    &&& forall|i: int, a: int, b: int|
        0 <= i < rs.len() && 0 <= a < b < rs[i].senders.len() ==> (
        #[trigger] rs[i].senders[a]).sender_id != (#[trigger] rs[i].senders[b]).sender_id
}

/// The reactions after `user` toggles `key` at time `ts`: the reaction is
/// added when the user has not reacted with that key, and retracted when
/// they have.
pub open spec fn spec_toggle(
    rs: Seq<ReactionView>,
    key: Seq<char>,
    user: Seq<char>,
    ts: u64,
) -> Seq<ReactionView> {
    let k = find_key(rs, key);
    if k == -1 {
        rs.push(
            ReactionView {
                key,
                senders: seq![ReactionSenderDataView { sender_id: user, timestamp: ts }],
            },
        )
    } else {
        let senders = rs[k].senders;
        let s = find_sender(senders, user);
        if s == -1 {
            rs.update(
                k,
                ReactionView {
                    key,
                    senders: senders.push(
                        ReactionSenderDataView { sender_id: user, timestamp: ts },
                    ),
                },
            )
        } else {
            let remaining = senders.remove(s);
            if remaining.len() == 0 {
                rs.remove(k)
            } else {
                rs.update(k, ReactionView { key, senders: remaining })
            }
        }
    }
}

/// Everything `find_key` guarantees: a miss means no entry holds the key; a
/// hit points at the first entry that does.
proof fn lemma_find_key_props(rs: Seq<ReactionView>, key: Seq<char>)
    ensures
        find_key(rs, key) == -1 ==> forall|j: int|
            0 <= j < rs.len() ==> (#[trigger] rs[j]).key != key,
        find_key(rs, key) != -1 ==> 0 <= find_key(rs, key) < rs.len() && rs[find_key(
            rs,
            key,
        )].key == key,
    decreases rs.len(),
{
    if rs.len() > 0 && rs[0].key != key {
        lemma_find_key_props(rs.drop_first(), key);
        assert(forall|j: int| 1 <= j < rs.len() ==> rs[j] == rs.drop_first()[j - 1]);
    }
}

/// Where the first `i` entries miss the key, `find_key` resolves to `i` on a
/// hit there and to a miss at the end.
proof fn lemma_find_key_is(rs: Seq<ReactionView>, key: Seq<char>, i: int)
    requires
        0 <= i <= rs.len(),
        forall|j: int| 0 <= j < i ==> (#[trigger] rs[j]).key != key,
    ensures
        i == rs.len() ==> find_key(rs, key) == -1,
        i < rs.len() && rs[i].key == key ==> find_key(rs, key) == i,
    decreases rs.len(),
{
    if rs.len() > 0 && rs[0].key != key && i > 0 {
        assert(forall|j: int|
            0 <= j < i - 1 ==> (#[trigger] rs.drop_first()[j]).key != key) by {
            assert(forall|j: int| 0 <= j < i - 1 ==> rs.drop_first()[j] == rs[j + 1]);
        }
        lemma_find_key_is(rs.drop_first(), key, i - 1);
        assert(i < rs.len() ==> rs.drop_first()[i - 1] == rs[i]);
    }
}

/// Everything `find_sender` guarantees, in the same shape as for keys.
proof fn lemma_find_sender_props(senders: Seq<ReactionSenderDataView>, user: Seq<char>)
    ensures
        find_sender(senders, user) == -1 ==> forall|j: int|
            0 <= j < senders.len() ==> (#[trigger] senders[j]).sender_id != user,
        find_sender(senders, user) != -1 ==> 0 <= find_sender(senders, user) < senders.len()
            && senders[find_sender(senders, user)].sender_id == user,
    decreases senders.len(),
{
    if senders.len() > 0 && senders[0].sender_id != user {
        lemma_find_sender_props(senders.drop_first(), user);
        assert(forall|j: int|
            1 <= j < senders.len() ==> senders[j] == senders.drop_first()[j - 1]);
    }
}

/// Where the first `i` senders miss the user, `find_sender` resolves to `i`
/// on a hit there and to a miss at the end.
proof fn lemma_find_sender_is(senders: Seq<ReactionSenderDataView>, user: Seq<char>, i: int)
    requires
        0 <= i <= senders.len(),
        forall|j: int| 0 <= j < i ==> (#[trigger] senders[j]).sender_id != user,
    ensures
        i == senders.len() ==> find_sender(senders, user) == -1,
        i < senders.len() && senders[i].sender_id == user ==> find_sender(senders, user) == i,
    decreases senders.len(),
{
    if senders.len() > 0 && senders[0].sender_id != user && i > 0 {
        assert(forall|j: int|
            0 <= j < i - 1 ==> (#[trigger] senders.drop_first()[j]).sender_id != user) by {
            assert(forall|j: int| 0 <= j < i - 1 ==> senders.drop_first()[j] == senders[j + 1]);
        }
        lemma_find_sender_is(senders.drop_first(), user, i - 1);
        assert(i < senders.len() ==> senders.drop_first()[i - 1] == senders[i]);
    }
}

/// Where the keys agree position by position, `find_key` agrees too.
proof fn lemma_find_key_same_keys(rs1: Seq<ReactionView>, rs2: Seq<ReactionView>, key: Seq<char>)
    requires
        rs1.len() == rs2.len(),
        forall|i: int| 0 <= i < rs1.len() ==> (#[trigger] rs1[i]).key == (#[trigger] rs2[i]).key,
    ensures
        find_key(rs1, key) == find_key(rs2, key),
    decreases rs1.len(),
{
    if rs1.len() > 0 {
        assert(forall|i: int|
            0 <= i < rs1.len() - 1 ==> (#[trigger] rs1.drop_first()[i]).key == (
            #[trigger] rs2.drop_first()[i]).key) by {
            assert(forall|i: int|
                0 <= i < rs1.len() - 1 ==> rs1.drop_first()[i] == rs1[i + 1]
                    && rs2.drop_first()[i] == rs2[i + 1]);
        }
        lemma_find_key_same_keys(rs1.drop_first(), rs2.drop_first(), key);
    }
}

/// Toggling flips whether the user has reacted with the key.
pub proof fn lemma_toggle_flips(rs: Seq<ReactionView>, key: Seq<char>, user: Seq<char>, ts: u64)
    requires
        reactions_wf(rs),
    ensures
        has_reacted(spec_toggle(rs, key, user, ts), key, user) == !has_reacted(rs, key, user),
{
    let k = find_key(rs, key);
    lemma_find_key_props(rs, key);
    let rs2 = spec_toggle(rs, key, user, ts);
    if k == -1 {
        assert(forall|j: int| 0 <= j < rs.len() ==> rs2[j] == rs[j]);
        lemma_find_key_is(rs2, key, rs.len() as int);
        assert(find_key(rs2, key) == rs.len());
        lemma_find_sender_is(rs2[rs.len() as int].senders, user, 0);
    } else {
        let senders = rs[k].senders;
        let s = find_sender(senders, user);
        lemma_find_sender_props(senders, user);
        if s == -1 {
            let senders2 = senders.push(
                ReactionSenderDataView { sender_id: user, timestamp: ts },
            );
            lemma_find_key_same_keys(rs, rs2, key);
            assert(rs2[k].senders == senders2);
            assert(forall|j: int| 0 <= j < senders.len() ==> senders2[j] == senders[j]);
            lemma_find_sender_is(senders2, user, senders.len() as int);
        } else {
            let remaining = senders.remove(s);
            senders.remove_ensures(s);
            if remaining.len() == 0 {
                rs.remove_ensures(k);
                assert forall|j: int| 0 <= j < rs2.len() implies (#[trigger] rs2[j]).key
                    != key by {
                    if j < k {
                        assert(rs2[j] == rs[j]);
                        assert(rs[j].key != rs[k].key);
                    } else {
                        assert(rs2[j] == rs[j + 1]);
                        assert(rs[k].key != rs[j + 1].key);
                    }
                }
                lemma_find_key_is(rs2, key, rs2.len() as int);
            } else {
                lemma_find_key_same_keys(rs, rs2, key);
                assert(rs2[k].senders == remaining);
                assert forall|j: int| 0 <= j < remaining.len() implies (
                #[trigger] remaining[j]).sender_id != user by {
                    if j < s {
                        assert(remaining[j] == senders[j]);
                        assert(rs[k].senders[j].sender_id != rs[k].senders[s].sender_id);
                    } else {
                        assert(remaining[j] == senders[j + 1]);
                        assert(rs[k].senders[s].sender_id != rs[k].senders[j + 1].sender_id);
                    }
                }
                lemma_find_sender_is(remaining, user, remaining.len() as int);
            }
        }
    }
}

/// Toggling preserves well-formedness.
pub proof fn lemma_toggle_preserves_wf(
    rs: Seq<ReactionView>,
    key: Seq<char>,
    user: Seq<char>,
    ts: u64,
)
    requires
        reactions_wf(rs),
    ensures
        reactions_wf(spec_toggle(rs, key, user, ts)),
{
    let k = find_key(rs, key);
    lemma_find_key_props(rs, key);
    let rs2 = spec_toggle(rs, key, user, ts);
    if k == -1 {
        assert(forall|j: int| 0 <= j < rs.len() ==> rs2[j] == rs[j]);
        assert(rs2[rs.len() as int].senders.len() == 1);
    } else {
        let senders = rs[k].senders;
        let s = find_sender(senders, user);
        lemma_find_sender_props(senders, user);
        if s == -1 {
            let senders2 = senders.push(
                ReactionSenderDataView { sender_id: user, timestamp: ts },
            );
            assert(forall|j: int| 0 <= j < senders.len() ==> senders2[j] == senders[j]);
            assert(forall|a: int, b: int|
                0 <= a < b < senders2.len() ==> (#[trigger] senders2[a]).sender_id != (
                #[trigger] senders2[b]).sender_id) by {
                assert(forall|a: int|
                    0 <= a < senders.len() ==> (#[trigger] senders2[a]).sender_id
                        == rs[k].senders[a].sender_id);
            }
        } else {
            let remaining = senders.remove(s);
            senders.remove_ensures(s);
            if remaining.len() == 0 {
                rs.remove_ensures(k);
            } else {
                assert(forall|a: int, b: int|
                    0 <= a < b < remaining.len() ==> (#[trigger] remaining[a]).sender_id != (
                    #[trigger] remaining[b]).sender_id) by {
                    assert(forall|a: int|
                        0 <= a < remaining.len() ==> remaining[a] == rs[k].senders[if a < s {
                            a
                        } else {
                            a + 1
                        }]);
                }
            }
        }
    }
}

/// Toggling a key the user has not reacted with, twice, restores the
/// reactions exactly: the first toggle adds the reaction, the second
/// retracts it, whatever the two timestamps are.
pub proof fn lemma_toggle_twice_restores(
    rs: Seq<ReactionView>,
    key: Seq<char>,
    user: Seq<char>,
    ts1: u64,
    ts2: u64,
)
    requires
        reactions_wf(rs),
        !has_reacted(rs, key, user),
    ensures
        spec_toggle(spec_toggle(rs, key, user, ts1), key, user, ts2) == rs,
{
    let k = find_key(rs, key);
    lemma_find_key_props(rs, key);
    let rs2 = spec_toggle(rs, key, user, ts1);
    let added = ReactionSenderDataView { sender_id: user, timestamp: ts1 };
    if k == -1 {
        // The first toggle appended a fresh entry at the end; the second
        // finds it there, removes the only sender, and drops the entry.
        assert(forall|j: int| 0 <= j < rs.len() ==> rs2[j] == rs[j]);
        lemma_find_key_is(rs2, key, rs.len() as int);
        assert(find_key(rs2, key) == rs.len());
        lemma_find_sender_is(rs2[rs.len() as int].senders, user, 0);
        assert(find_sender(rs2[rs.len() as int].senders, user) == 0);
        assert(rs2[rs.len() as int].senders.remove(0) =~= Seq::<
            ReactionSenderDataView,
        >::empty());
        assert(spec_toggle(rs2, key, user, ts2) =~= rs);
    } else {
        // The first toggle appended the user to the key's senders; the
        // second removes that last sender again.
        let senders = rs[k].senders;
        let s = find_sender(senders, user);
        assert(s == -1);
        lemma_find_sender_props(senders, user);
        lemma_find_key_same_keys(rs, rs2, key);
        assert(find_key(rs2, key) == k);
        let senders2 = senders.push(added);
        assert(rs2[k].senders == senders2);
        assert(forall|j: int| 0 <= j < senders.len() ==> senders2[j] == senders[j]);
        lemma_find_sender_is(senders2, user, senders.len() as int);
        assert(find_sender(senders2, user) == senders.len());
        assert(senders2.remove(senders.len() as int) =~= senders);
        assert(senders.len() > 0);
        assert(spec_toggle(rs2, key, user, ts2) =~= rs) by {
            assert(rs2.update(k, ReactionView { key, senders }) =~= rs) by {
                assert(rs[k] =~= ReactionView { key, senders });
            }
        }
    }
}

/// Finds the position of `key` among the reactions.
fn find_key_index(reactions: &Vec<Reaction>, key: &String) -> (r: Option<usize>)
    ensures
        match r {
            Some(i) => find_key(reactions.deep_view(), key@) == i,
            None => find_key(reactions.deep_view(), key@) == -1,
        },
{
    let mut i: usize = 0;
    while i < reactions.len()
        invariant
            i <= reactions.len(),
            forall|j: int|
                0 <= j < i ==> (#[trigger] reactions.deep_view()[j]).key != key@,
        decreases reactions.len() - i,
    {
        if reactions[i].key.eq(key) {
            proof {
                lemma_find_key_is(reactions.deep_view(), key@, i as int);
            }
            return Some(i);
        }
        i += 1;
    }
    proof {
        lemma_find_key_is(reactions.deep_view(), key@, reactions.len() as int);
    }
    None
}

/// Finds the position of `user` among the senders.
fn find_sender_index(senders: &Vec<ReactionSenderData>, user: &String) -> (r: Option<usize>)
    ensures
        match r {
            Some(i) => find_sender(senders.deep_view(), user@) == i,
            None => find_sender(senders.deep_view(), user@) == -1,
        },
{
    let mut i: usize = 0;
    while i < senders.len()
        invariant
            i <= senders.len(),
            forall|j: int|
                0 <= j < i ==> (#[trigger] senders.deep_view()[j]).sender_id != user@,
        decreases senders.len() - i,
    {
        if senders[i].sender_id.eq(user) {
            proof {
                lemma_find_sender_is(senders.deep_view(), user@, i as int);
            }
            return Some(i);
        }
        i += 1;
    }
    proof {
        lemma_find_sender_is(senders.deep_view(), user@, senders.len() as int);
    }
    None
}

/// Applies one toggle: adds the user's reaction with `key` when they have
/// not reacted with it, and retracts their existing reaction otherwise.
/// Returns whether a reaction was added.
pub fn apply_toggle(reactions: &mut Vec<Reaction>, key: &String, user: &String, ts: u64) -> (added:
    bool)
    ensures
        final(reactions).deep_view() == spec_toggle(old(reactions).deep_view(), key@, user@, ts),
        added == !has_reacted(old(reactions).deep_view(), key@, user@),
{
    let ghost rs0 = old(reactions).deep_view();
    match find_key_index(reactions, key) {
        Option::None => {
            let mut senders: Vec<ReactionSenderData> = Vec::new();
            senders.push(ReactionSenderData { sender_id: user.clone(), timestamp: ts });
            reactions.push(Reaction { key: key.clone(), senders });
            proof {
                assert(reactions.deep_view() =~~= spec_toggle(rs0, key@, user@, ts));
            }
            true
        },
        Option::Some(k) => {
            proof {
                lemma_find_key_props(rs0, key@);
            }
            let mut entry = reactions.remove(k);
            let ghost senders0 = entry.senders.deep_view();
            match find_sender_index(&entry.senders, user) {
                Option::None => {
                    entry.senders.push(
                        ReactionSenderData { sender_id: user.clone(), timestamp: ts },
                    );
                    reactions.insert(k, entry);
                    proof {
                        rs0.remove_ensures(k as int);
                        assert(reactions.deep_view() =~~= spec_toggle(rs0, key@, user@, ts));
                    }
                    true
                },
                Option::Some(s) => {
                    proof {
                        lemma_find_sender_props(senders0, user@);
                        senders0.remove_ensures(s as int);
                    }
                    entry.senders.remove(s);
                    if entry.senders.len() > 0 {
                        reactions.insert(k, entry);
                    }
                    proof {
                        rs0.remove_ensures(k as int);
                        assert(reactions.deep_view() =~~= spec_toggle(rs0, key@, user@, ts));
                    }
                    false
                },
            }
        },
    }
}

} // verus!
