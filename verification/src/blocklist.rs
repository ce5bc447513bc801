//! The addresses of the devices that this switcher has suppressed itself.

use vstd::prelude::*;

use crate::text::{owned, same_text};

verus! {

/// The text of each string of a sequence.
pub open spec fn texts(v: Seq<String>) -> Seq<Seq<char>> {
    v.map_values(|s: String| s@)
}

/// The set of MAC addresses suppressed by this switcher. Each address is
/// held once.
pub struct Blocklist {
    addrs: Vec<String>,
}

impl View for Blocklist {
    type V = Set<Seq<char>>;

    closed spec fn view(&self) -> Set<Seq<char>> {
        texts(self.addrs@).to_set()
    }
}

pub(crate) proof fn lemma_to_set_push<A>(s: Seq<A>, a: A)
    ensures
        s.push(a).to_set() == s.to_set().insert(a),
{
    assert forall|x: A| s.push(a).to_set().contains(x) <==> s.to_set().insert(a).contains(x) by {
        if s.push(a).contains(x) {
            let k = choose|k: int| 0 <= k < s.push(a).len() && s.push(a)[k] == x;
            if k < s.len() {
                assert(s[k] == x);
            }
        }
        if s.contains(x) {
            let k = choose|k: int| 0 <= k < s.len() && s[k] == x;
            assert(s.push(a)[k] == x);
        }
        if x == a {
            assert(s.push(a)[s.len() as int] == x);
        }
    }
    assert(s.push(a).to_set() =~= s.to_set().insert(a));
}

proof fn lemma_to_set_remove<A>(s: Seq<A>, i: int)
    requires
        s.no_duplicates(),
        0 <= i < s.len(),
    ensures
        s.remove(i).to_set() == s.to_set().remove(s[i]),
        s.remove(i).no_duplicates(),
{
    let r = s.remove(i);
    assert forall|x: A| r.to_set().contains(x) <==> s.to_set().remove(s[i]).contains(x) by {
        if r.contains(x) {
            let k = choose|k: int| 0 <= k < r.len() && r[k] == x;
            let kk = if k < i { k } else { k + 1 };
            assert(s[kk] == x);
            assert(kk != i);
        }
        if s.contains(x) && x != s[i] {
            let k = choose|k: int| 0 <= k < s.len() && s[k] == x;
            assert(k != i);
            if k < i {
                assert(r[k] == x);
            } else {
                assert(r[k - 1] == x);
            }
        }
    }
    assert(r.to_set() =~= s.to_set().remove(s[i]));
    assert forall|p: int, q: int| 0 <= p < r.len() && 0 <= q < r.len() && p != q implies r[p] != r[q] by {
        let pp = if p < i { p } else { p + 1 };
        let qq = if q < i { q } else { q + 1 };
        assert(r[p] == s[pp]);
        assert(r[q] == s[qq]);
    }
}

impl Blocklist {
    #[verifier::type_invariant]
    spec fn held_once(&self) -> bool {
        texts(self.addrs@).no_duplicates()
    }

    /// An empty block list.
    pub fn new() -> (r: Blocklist)
        ensures
            r@ == Set::<Seq<char>>::empty(),
    {
        let r = Blocklist { addrs: Vec::new() };
        assert(r@ =~= Set::<Seq<char>>::empty());
        r
    }

    /// Where the address is held, if it is.
    fn position(&self, addr: &str) -> (r: Option<usize>)
        ensures
            match r {
                Some(i) => i < self.addrs@.len() && self.addrs@[i as int]@ == addr@,
                None => !self@.contains(addr@),
            },
    {
        let mut i: usize = 0;
        while i < self.addrs.len()
            invariant
                i <= self.addrs@.len(),
                forall|k: int| 0 <= k < i ==> self.addrs@[k]@ != addr@,
            decreases self.addrs.len() - i,
        {
            if same_text(self.addrs[i].as_str(), addr) {
                return Some(i);
            }
            i = i + 1;
        }
        assert(!texts(self.addrs@).contains(addr@));
        None
    }

    /// Whether this switcher has suppressed the device with this address.
    pub fn contains(&self, addr: &str) -> (r: bool)
        ensures
            r == self@.contains(addr@),
    {
        match self.position(addr) {
            Some(i) => {
                assert(texts(self.addrs@)[i as int] == addr@);
                true
            },
            None => false,
        }
    }

    /// Records that the device with this address is suppressed.
    pub fn insert(&mut self, addr: &str)
        ensures
            final(self)@ == old(self)@.insert(addr@),
    {
        proof {
            use_type_invariant(&*self);
        }
        if self.contains(addr) {
            assert(old(self)@.insert(addr@) =~= old(self)@);
            return;
        }
        let ghost before = texts(self.addrs@);
        let mut addrs = Vec::new();
        std::mem::swap(&mut addrs, &mut self.addrs);
        addrs.push(owned(addr));
        assert(texts(addrs@) =~= before.push(addr@));
        assert(texts(addrs@).no_duplicates()) by {
            assert forall|i: int, j: int|
                0 <= i < texts(addrs@).len() && 0 <= j < texts(addrs@).len() && i != j implies
                texts(addrs@)[i] != texts(addrs@)[j] by {
                if i == before.len() {
                    assert(before[j] != addr@);
                } else if j == before.len() {
                    assert(before[i] != addr@);
                }
            }
        }
        proof {
            lemma_to_set_push(before, addr@);
        }
        self.addrs = addrs;
    }

    /// Forgets the address: the device is no longer suppressed by this switcher.
    pub fn remove(&mut self, addr: &str)
        ensures
            final(self)@ == old(self)@.remove(addr@),
    {
        proof {
            use_type_invariant(&*self);
        }
        match self.position(addr) {
            Some(i) => {
                let ghost before = texts(self.addrs@);
                let mut addrs = Vec::new();
                std::mem::swap(&mut addrs, &mut self.addrs);
                addrs.remove(i);
                assert(texts(addrs@) =~= before.remove(i as int));
                proof {
                    lemma_to_set_remove(before, i as int);
                }
                self.addrs = addrs;
            },
            None => {
                assert(old(self)@.remove(addr@) =~= old(self)@);
            },
        }
    }

    /// Forgets every address.
    pub fn clear(&mut self)
        ensures
            final(self)@ == Set::<Seq<char>>::empty(),
    {
        self.addrs = Vec::new();
        assert(self@ =~= Set::<Seq<char>>::empty());
    }

    /// How many devices this switcher has suppressed.
    pub fn len(&self) -> (r: usize)
        ensures
            r == self@.len(),
            self@.finite(),
    {
        proof {
            use_type_invariant(&*self);
            texts(self.addrs@).unique_seq_to_set();
        }
        self.addrs.len()
    }

    /// Whether this switcher has suppressed no device.
    pub fn is_empty(&self) -> (r: bool)
        ensures
            r == (self@ == Set::<Seq<char>>::empty()),
    {
        let n = self.len();
        proof {
            if n == 0 {
                assert(self@ =~= Set::<Seq<char>>::empty());
            } else {
                assert(self@.len() != 0);
            }
        }
        n == 0
    }

    /// The suppressed addresses, each once, in no particular order.
    pub fn addresses(&self) -> (r: Vec<String>)
        ensures
            texts(r@).no_duplicates(),
            texts(r@).to_set() == self@,
    {
        proof {
            use_type_invariant(&*self);
        }
        let mut r: Vec<String> = Vec::new();
        let mut i: usize = 0;
        while i < self.addrs.len()
            invariant
                i <= self.addrs@.len(),
                texts(self.addrs@).no_duplicates(),
                texts(r@) == texts(self.addrs@).take(i as int),
            decreases self.addrs.len() - i,
        {
            let a = self.addrs[i].clone();
            let ghost prev = r@;
            r.push(a);
            assert(texts(r@) =~= texts(prev).push(a@));
            assert(texts(self.addrs@).take(i as int + 1) =~= texts(self.addrs@).take(i as int).push(
                self.addrs@[i as int]@,
            ));
            i = i + 1;
        }
        assert(texts(self.addrs@).take(i as int) =~= texts(self.addrs@));
        r
    }

    /// A block list holding each of these addresses.
    pub fn from_addresses(list: &Vec<String>) -> (r: Blocklist)
        ensures
            r@ == texts(list@).to_set(),
    {
        let mut r = Blocklist::new();
        let mut i: usize = 0;
        while i < list.len()
            invariant
                i <= list@.len(),
                r@ == texts(list@).take(i as int).to_set(),
            decreases list.len() - i,
        {
            r.insert(list[i].as_str());
            assert(texts(list@).take(i as int + 1) =~= texts(list@).take(i as int).push(list@[i as int]@));
            proof {
                lemma_to_set_push(texts(list@).take(i as int), list@[i as int]@);
            }
            i = i + 1;
        }
        assert(texts(list@).take(i as int) =~= texts(list@));
        r
    }
}

} // verus!
