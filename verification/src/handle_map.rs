//! Handle tokens, and the map from the tokens of a requester's open requests
//! to the identities of those requests.

use vstd::prelude::*;

verus! {

/// The protocol layer's name for one logical request. It is opaque to the
/// bus: two tokens are the same token when their texts are equal.
#[derive(Debug, PartialEq, Eq)]
pub struct HandleToken {
    text: String,
}

impl View for HandleToken {
    type V = Seq<char>;

    closed spec fn view(&self) -> Seq<char> {
        self.text@
    }
}

impl HandleToken {
    pub fn new(text: String) -> (token: Self)
        ensures
            token@ == text@,
    {
        HandleToken { text }
    }

    pub fn as_str(&self) -> (text: &str)
        ensures
            text@ == self@,
    {
        self.text.as_str()
    }

    /// Whether both name the same request.
    pub fn same(&self, other: &HandleToken) -> (equal: bool)
        ensures
            equal == (self@ == other@),
    {
        self.text == other.text
    }
}

impl Clone for HandleToken {
    fn clone(&self) -> (token: Self)
        ensures
            token@ == self@,
    {
        HandleToken { text: self.text.clone() }
    }
}

/// One live mapping of a token to the identity of its request.
struct Entry {
    token: HandleToken,
    request_id: usize,
}

/// No token is listed twice.
spec fn distinct_tokens(entries: Seq<Entry>) -> bool {
    forall|i: int, j: int|
        0 <= i < j < entries.len() ==> (#[trigger] entries[i]).token@ != (
        #[trigger] entries[j]).token@
}

/// Whether some entry is listed under the token.
spec fn lists(entries: Seq<Entry>, token: Seq<char>) -> bool {
    exists|i: int| 0 <= i < entries.len() && (#[trigger] entries[i]).token@ == token
}

/// The position of an entry that is listed under the token.
spec fn position(entries: Seq<Entry>, token: Seq<char>) -> int {
    choose|i: int| 0 <= i < entries.len() && (#[trigger] entries[i]).token@ == token
}

/// The mapping that a list of entries stands for.
spec fn mapping(entries: Seq<Entry>) -> Map<Seq<char>, usize> {
    Map::new(
        |token: Seq<char>| lists(entries, token),
        |token: Seq<char>| entries[position(entries, token)].request_id,
    )
}

/// In a list without repeated tokens, each entry is what the mapping holds
/// for its token.
proof fn lemma_entry_is_mapped(entries: Seq<Entry>, i: int)
    requires
        distinct_tokens(entries),
        0 <= i < entries.len(),
    ensures
        mapping(entries).contains_key(entries[i].token@),
        mapping(entries)[entries[i].token@] == entries[i].request_id,
        position(entries, entries[i].token@) == i,
{
    let token = entries[i].token@;
    assert(lists(entries, token));
    let p = position(entries, token);
    assert(0 <= p < entries.len() && entries[p].token@ == token);
}

/// What a mapping holds for a token.
pub open spec fn lookup(map: Map<Seq<char>, usize>, token: Seq<char>) -> Option<usize> {
    if map.contains_key(token) {
        Some(map[token])
    } else {
        None
    }
}

/// The live mappings of one requester: for each token at most one request
/// identity.
pub struct HandleTokenMap {
    entries: Vec<Entry>,
}

impl View for HandleTokenMap {
    type V = Map<Seq<char>, usize>;

    closed spec fn view(&self) -> Map<Seq<char>, usize> {
        mapping(self.entries@)
    }
}

impl HandleTokenMap {
    #[verifier::type_invariant]
    spec fn distinct(&self) -> bool {
        distinct_tokens(self.entries@)
    }

    /// A map without mappings.
    pub fn new() -> (map: Self)
        ensures
            map@ == Map::<Seq<char>, usize>::empty(),
    {
        let map = HandleTokenMap { entries: Vec::new() };
        assert(map@ =~= Map::<Seq<char>, usize>::empty());
        map
    }

    /// The position of the token's entry, if it has one.
    fn find(entries: &Vec<Entry>, token: &HandleToken) -> (found: Option<usize>)
        ensures
            match found {
                Some(i) => i < entries@.len() && entries@[i as int].token@ == token@,
                None => !lists(entries@, token@),
            },
    {
        let mut i: usize = 0;
        while i < entries.len()
            invariant
                i <= entries@.len(),
                forall|k: int| 0 <= k < i ==> (#[trigger] entries@[k]).token@ != token@,
            decreases entries@.len() - i,
        {
            if entries[i].token.same(token) {
                return Some(i);
            }
            i += 1;
        }
        None
    }

    /// Records that the token stands for the request. A mapping that the
    /// token already had is replaced.
    pub fn insert(&mut self, token: HandleToken, request_id: usize)
        ensures
            final(self)@ == old(self)@.insert(token@, request_id),
    {
        proof {
            use_type_invariant(&*self);
        }
        let mut entries: Vec<Entry> = Vec::new();
        std::mem::swap(&mut entries, &mut self.entries);
        let ghost before = entries@;
        let ghost key = token@;
        match Self::find(&entries, &token) {
            Some(i) => {
                entries.set(i, Entry { token, request_id });
                proof {
                    let after = entries@;
                    assert(distinct_tokens(after)) by {
                        assert forall|a: int, b: int| 0 <= a < b < after.len() implies (
                        #[trigger] after[a]).token@ != (#[trigger] after[b]).token@ by {
                            assert(before[a].token@ == after[a].token@);
                            assert(before[b].token@ == after[b].token@);
                        }
                    }
                    assert forall|t: Seq<char>| lists(after, t) == lists(before, t) by {
                        if lists(before, t) {
                            let p = position(before, t);
                            assert(after[p].token@ == t);
                        }
                        if lists(after, t) {
                            let p = position(after, t);
                            assert(before[p].token@ == t);
                        }
                    }
                    assert forall|t: Seq<char>| lists(after, t) implies #[trigger] mapping(
                        after,
                    )[t] == mapping(before).insert(key, request_id)[t] by {
                        let p = position(after, t);
                        lemma_entry_is_mapped(after, p);
                        lemma_entry_is_mapped(before, p);
                        if p == i {
                        } else {
                            assert(before[p].token@ != before[i as int].token@);
                        }
                    }
                    lemma_entry_is_mapped(before, i as int);
                    assert(mapping(after) =~= mapping(before).insert(key, request_id));
                }
            },
            None => {
                entries.push(Entry { token, request_id });
                proof {
                    let after = entries@;
                    let last = before.len() as int;
                    assert(distinct_tokens(after)) by {
                        assert forall|a: int, b: int| 0 <= a < b < after.len() implies (
                        #[trigger] after[a]).token@ != (#[trigger] after[b]).token@ by {
                            assert(before[a] == after[a]);
                            if b < last {
                                assert(before[b] == after[b]);
                            }
                        }
                    }
                    assert forall|t: Seq<char>| lists(after, t) == (lists(before, t) || t
                        == key) by {
                        if lists(before, t) {
                            let p = position(before, t);
                            assert(after[p].token@ == t);
                        }
                        if t == key {
                            assert(after[last].token@ == t);
                        }
                        if lists(after, t) {
                            let p = position(after, t);
                            if p < last {
                                assert(before[p].token@ == t);
                            }
                        }
                    }
                    assert forall|t: Seq<char>| lists(after, t) implies #[trigger] mapping(
                        after,
                    )[t] == mapping(before).insert(key, request_id)[t] by {
                        let p = position(after, t);
                        lemma_entry_is_mapped(after, p);
                        if p < last {
                            assert(before[p] == after[p]);
                            lemma_entry_is_mapped(before, p);
                        }
                    }
                    assert(mapping(after) =~= mapping(before).insert(key, request_id));
                }
            },
        }
        self.entries = entries;
    }

    /// The request that the token stands for, if any. The mapping stays.
    pub fn peek(&self, token: &HandleToken) -> (found: Option<usize>)
        ensures
            found == lookup(self@, token@),
    {
        proof {
            use_type_invariant(self);
        }
        match Self::find(&self.entries, token) {
            Some(i) => {
                proof {
                    lemma_entry_is_mapped(self.entries@, i as int);
                }
                Some(self.entries[i].request_id)
            },
            None => None,
        }
    }

    /// Removes the token's mapping and returns the request that it stood for.
    /// An unknown token leaves the map as it is.
    pub fn take_for_id(&mut self, token: &HandleToken) -> (taken: Option<usize>)
        ensures
            taken == lookup(old(self)@, token@),
            final(self)@ == old(self)@.remove(token@),
    {
        proof {
            use_type_invariant(&*self);
        }
        let mut entries: Vec<Entry> = Vec::new();
        std::mem::swap(&mut entries, &mut self.entries);
        let ghost before = entries@;
        let ghost key = token@;
        let taken = match Self::find(&entries, token) {
            Some(i) => {
                let entry = entries.remove(i);
                proof {
                    let after = entries@;
                    lemma_entry_is_mapped(before, i as int);
                    assert forall|k: int| 0 <= k < after.len() implies #[trigger] after[k] == (
                    if k < i {
                        before[k]
                    } else {
                        before[k + 1]
                    }) by {}
                    assert(distinct_tokens(after)) by {
                        assert forall|a: int, b: int| 0 <= a < b < after.len() implies (
                        #[trigger] after[a]).token@ != (#[trigger] after[b]).token@ by {
                            let a0 = if a < i { a } else { a + 1 };
                            let b0 = if b < i { b } else { b + 1 };
                            assert(after[a] == before[a0]);
                            assert(after[b] == before[b0]);
                        }
                    }
                    assert forall|t: Seq<char>| lists(after, t) == (lists(before, t) && t
                        != key) by {
                        if lists(before, t) && t != key {
                            let p = position(before, t);
                            let q = if p < i { p } else { p - 1 };
                            assert(after[q] == before[p]);
                        }
                        if lists(after, t) {
                            let q = position(after, t);
                            let p = if q < i { q } else { q + 1 };
                            assert(after[q] == before[p]);
                            assert(before[p].token@ == t);
                            assert(before[p].token@ != before[i as int].token@);
                        }
                    }
                    assert forall|t: Seq<char>| lists(after, t) implies #[trigger] mapping(
                        after,
                    )[t] == mapping(before).remove(key)[t] by {
                        let q = position(after, t);
                        let p = if q < i { q } else { q + 1 };
                        assert(after[q] == before[p]);
                        lemma_entry_is_mapped(after, q);
                        lemma_entry_is_mapped(before, p);
                    }
                    assert(mapping(after) =~= mapping(before).remove(key));
                }
                Some(entry.request_id)
            },
            None => {
                proof {
                    assert(mapping(before) =~= mapping(before).remove(key));
                }
                None
            },
        };
        self.entries = entries;
        taken
    }

    /// How many tokens have a mapping.
    pub fn len(&self) -> (count: usize)
        ensures
            count == self@.len(),
            self@.dom().finite(),
    {
        proof {
            use_type_invariant(self);
            lemma_mapping_len(self.entries@);
        }
        self.entries.len()
    }
}

/// A list without repeated tokens stands for a mapping with as many keys as
/// the list has entries.
proof fn lemma_mapping_len(entries: Seq<Entry>)
    requires
        distinct_tokens(entries),
    ensures
        mapping(entries).dom().finite(),
        mapping(entries).len() == entries.len(),
    decreases entries.len(),
{
    if entries.len() == 0 {
        assert(mapping(entries) =~= Map::<Seq<char>, usize>::empty());
    } else {
        let front = entries.drop_last();
        let last = entries.last();
        assert forall|i: int, j: int| 0 <= i < j < front.len() implies (#[trigger] front[i]).token@
            != (#[trigger] front[j]).token@ by {
            assert(front[i] == entries[i]);
            assert(front[j] == entries[j]);
        }
        lemma_mapping_len(front);
        assert(!lists(front, last.token@)) by {
            if lists(front, last.token@) {
                let p = position(front, last.token@);
                assert(front[p] == entries[p]);
                assert(entries[p].token@ != entries[entries.len() - 1].token@);
            }
        }
        assert forall|t: Seq<char>| lists(entries, t) == (lists(front, t) || t
            == last.token@) by {
            if lists(front, t) {
                let p = position(front, t);
                assert(entries[p] == front[p]);
            }
            if t == last.token@ {
                assert(entries[entries.len() - 1].token@ == t);
            }
            if lists(entries, t) {
                let p = position(entries, t);
                if p < front.len() {
                    assert(front[p] == entries[p]);
                }
            }
        }
        assert(mapping(entries).dom() =~= mapping(front).dom().insert(last.token@));
    }
}

/// A mapping that was inserted is taken exactly once: the first take of the
/// token returns the request, and every later take of it returns nothing,
/// whatever was taken in between and whichever other tokens were inserted.
pub proof fn lemma_taken_exactly_once(
    map: Map<Seq<char>, usize>,
    token: Seq<char>,
    request_id: usize,
    other: Seq<char>,
    other_id: usize,
)
    ensures
        lookup(map.insert(token, request_id), token) == Some(request_id),
        lookup(map.insert(token, request_id).remove(token), token) is None,
        lookup(map, token) is None ==> lookup(map.remove(other), token) is None,
        lookup(map, token) is None && other != token ==> lookup(
            map.insert(other, other_id),
            token,
        ) is None,
{
}

/// A take leaves every other token's mapping as it was.
pub proof fn lemma_take_keeps_others(map: Map<Seq<char>, usize>, token: Seq<char>, other: Seq<char>)
    requires
        other != token,
    ensures
        lookup(map.remove(token), other) == lookup(map, other),
{
}

} // verus!
