//! The set of the media hotkeys that are registered.

use crate::hotkey::HotKey;
use vstd::prelude::*;

verus! {

/// The registered media hotkeys: a set, in which no hotkey is held twice.
///
/// The manager changes it; the callback of the event tap only looks hotkeys
/// up in it.
pub struct MediaKeySet {
    keys: Vec<HotKey>,
}

impl View for MediaKeySet {
    type V = Set<HotKey>;

    closed spec fn view(&self) -> Set<HotKey> {
        self.keys@.to_set()
    }
}

/// Taking the element at `i` out of a sequence without duplicates takes
/// exactly that element out of its set.
proof fn lemma_remove_from_unique(s: Seq<HotKey>, i: int)
    requires
        s.no_duplicates(),
        0 <= i < s.len(),
    ensures
        s.remove(i).no_duplicates(),
        s.remove(i).to_set() == s.to_set().remove(s[i]),
{
    let r = s.remove(i);
    assert forall|a: int, b: int| 0 <= a < r.len() && 0 <= b < r.len() && a != b implies r[a]
        != r[b] by {
        let a0 = if a < i { a } else { a + 1 };
        let b0 = if b < i { b } else { b + 1 };
        assert(r[a] == s[a0] && r[b] == s[b0]);
    }
    assert forall|h: HotKey| r.to_set().contains(h) <==> s.to_set().remove(s[i]).contains(
        h,
    ) by {
        if r.to_set().contains(h) {
            let a = choose|a: int| 0 <= a < r.len() && r[a] == h;
            let a0 = if a < i { a } else { a + 1 };
            assert(s[a0] == h);
        }
        if s.to_set().remove(s[i]).contains(h) {
            let a0 = choose|a0: int| 0 <= a0 < s.len() && s[a0] == h;
            let a = if a0 < i { a0 } else { a0 - 1 };
            assert(r[a] == h);
        }
    }
    assert(r.to_set() =~= s.to_set().remove(s[i]));
}

/// Appending an element that a sequence without duplicates lacks keeps it
/// without duplicates and adds the element to its set.
proof fn lemma_push_to_unique(s: Seq<HotKey>, h: HotKey)
    requires
        s.no_duplicates(),
        !s.contains(h),
    ensures
        s.push(h).no_duplicates(),
        s.push(h).to_set() == s.to_set().insert(h),
{
    let p = s.push(h);
    assert forall|a: int, b: int| 0 <= a < p.len() && 0 <= b < p.len() && a != b implies p[a]
        != p[b] by {
        if a < s.len() {
            assert(s.contains(p[a]));
        }
        if b < s.len() {
            assert(s.contains(p[b]));
        }
    }
    assert forall|x: HotKey| p.to_set().contains(x) <==> s.to_set().insert(h).contains(x) by {
        if p.to_set().contains(x) {
            let a = choose|a: int| 0 <= a < p.len() && p[a] == x;
            if a < s.len() {
                assert(s[a] == x);
            }
        }
        if s.to_set().insert(h).contains(x) {
            if x == h {
                assert(p[s.len() as int] == x);
            } else {
                let a = choose|a: int| 0 <= a < s.len() && s[a] == x;
                assert(p[a] == x);
            }
        }
    }
    assert(p.to_set() =~= s.to_set().insert(h));
}

impl MediaKeySet {
    #[verifier::type_invariant]
    closed spec fn inv(&self) -> bool {
        self.keys@.no_duplicates()
    }

    /// The empty set.
    pub fn new() -> (set: Self)
        ensures
            set@ == Set::<HotKey>::empty(),
    {
        let set = MediaKeySet { keys: Vec::new() };
        assert(set.keys@.to_set() =~= Set::<HotKey>::empty());
        set
    }

    /// Where in `keys` the hotkey stands, if it is there.
    fn position(&self, hotkey: &HotKey) -> (found: Option<usize>)
        ensures
            match found {
                Some(i) => i < self.keys@.len() && self.keys@[i as int] == *hotkey,
                None => !self.keys@.contains(*hotkey),
            },
    {
        let mut i: usize = 0;
        while i < self.keys.len()
            invariant
                i <= self.keys@.len(),
                forall|j: int| 0 <= j < i ==> self.keys@[j] != *hotkey,
            decreases self.keys@.len() - i,
        {
            if self.keys[i] == *hotkey {
                return Some(i);
            }
            i = i + 1;
        }
        None
    }

    /// Whether the set holds `hotkey`.
    pub fn contains(&self, hotkey: &HotKey) -> (r: bool)
        ensures
            r == self@.contains(*hotkey),
    {
        self.position(hotkey).is_some()
    }

    /// The member of the set that equals `hotkey`, if there is one.
    pub fn get(&self, hotkey: &HotKey) -> (found: Option<HotKey>)
        ensures
            found == (if self@.contains(*hotkey) {
                Some(*hotkey)
            } else {
                None
            }),
    {
        match self.position(hotkey) {
            Some(i) => Some(self.keys[i]),
            None => None,
        }
    }

    /// Adds `hotkey` to the set. Returns whether it was added, which it is
    /// unless the set held it already.
    pub fn insert(&mut self, hotkey: HotKey) -> (added: bool)
        ensures
            added == !old(self)@.contains(hotkey),
            final(self)@ == old(self)@.insert(hotkey),
    {
        proof {
            use_type_invariant(&*self);
        }
        if self.position(&hotkey).is_some() {
            assert(self@.insert(hotkey) =~= self@);
            false
        } else {
            proof {
                lemma_push_to_unique(self.keys@, hotkey);
            }
            let mut keys: Vec<HotKey> = Vec::new();
            core::mem::swap(&mut self.keys, &mut keys);
            keys.push(hotkey);
            self.keys = keys;
            true
        }
    }

    /// Takes `hotkey` out of the set. Returns whether the set held it.
    pub fn remove(&mut self, hotkey: &HotKey) -> (removed: bool)
        ensures
            removed == old(self)@.contains(*hotkey),
            final(self)@ == old(self)@.remove(*hotkey),
    {
        proof {
            use_type_invariant(&*self);
        }
        match self.position(hotkey) {
            Some(i) => {
                proof {
                    lemma_remove_from_unique(self.keys@, i as int);
                }
                let mut keys: Vec<HotKey> = Vec::new();
                core::mem::swap(&mut self.keys, &mut keys);
                keys.remove(i);
                self.keys = keys;
                true
            },
            None => {
                assert(self@.remove(*hotkey) =~= self@);
                false
            },
        }
    }

    /// Takes every hotkey out of the set.
    pub fn clear(&mut self)
        ensures
            final(self)@ == Set::<HotKey>::empty(),
    {
        self.keys = Vec::new();
        assert(self.keys@.to_set() =~= Set::<HotKey>::empty());
    }

    /// How many hotkeys the set holds.
    pub fn len(&self) -> (n: usize)
        ensures
            n == self@.len(),
            self@.finite(),
    {
        proof {
            use_type_invariant(self);
            self.keys@.unique_seq_to_set();
        }
        self.keys.len()
    }

    /// Whether the set holds no hotkey.
    pub fn is_empty(&self) -> (r: bool)
        ensures
            r == (self@ == Set::<HotKey>::empty()),
    {
        proof {
            if self.keys@.len() == 0 {
                assert(self.keys@.to_set() =~= Set::<HotKey>::empty());
            } else {
                assert(self.keys@.to_set().contains(self.keys@[0]));
            }
        }
        self.keys.len() == 0
    }

    /// The hotkeys of the set, each once.
    pub fn to_vec(&self) -> (keys: Vec<HotKey>)
        ensures
            keys@.to_set() == self@,
            keys@.no_duplicates(),
    {
        proof {
            use_type_invariant(self);
        }
        let mut keys: Vec<HotKey> = Vec::new();
        let mut i: usize = 0;
        while i < self.keys.len()
            invariant
                i <= self.keys@.len(),
                keys@ == self.keys@.take(i as int),
            decreases self.keys@.len() - i,
        {
            keys.push(self.keys[i]);
            assert(self.keys@.take(i as int).push(self.keys@[i as int]) =~= self.keys@.take(
                i as int + 1,
            ));
            i = i + 1;
        }
        assert(self.keys@.take(self.keys@.len() as int) =~= self.keys@);
        keys
    }
}

} // verus!
