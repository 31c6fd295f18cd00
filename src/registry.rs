use vstd::prelude::*;

verus! {

/// What a registry holds: the confirmed (owner, marketplace) pairs.
pub type RegistryView = Set<(Seq<char>, Seq<char>)>;

/// Whether some owner holds `id`.
pub open spec fn is_claimed(reg: RegistryView, id: Seq<char>) -> bool {
    exists|o: Seq<char>| #[trigger] reg.contains((o, id))
}

/// Each marketplace id belongs to at most one owner.
pub open spec fn single_owner(reg: RegistryView) -> bool {
    forall|o1: Seq<char>, o2: Seq<char>, id: Seq<char>|
        #[trigger] reg.contains((o1, id)) && #[trigger] reg.contains((o2, id)) ==> o1 == o2
}

/// The marketplaces that `owner` holds.
pub open spec fn markets_of(reg: RegistryView, owner: Seq<char>) -> Set<Seq<char>> {
    Set::new(|id: Seq<char>| reg.contains((owner, id)))
}

/// The registry after committing `id` to `owner`: unchanged where `id` is
/// already claimed.
pub open spec fn committed(reg: RegistryView, owner: Seq<char>, id: Seq<char>) -> RegistryView {
    if is_claimed(reg, id) {
        reg
    } else {
        reg.insert((owner, id))
    }
}

/// The character sequences of a list of strings.
pub open spec fn string_views(v: Seq<String>) -> Seq<Seq<char>> {
    v.map_values(|s: String| s@)
}

/// The character sequences of a list of string pairs.
pub open spec fn pair_views(v: Seq<(String, String)>) -> Seq<(Seq<char>, Seq<char>)> {
    v.map_values(|e: (String, String)| (e.0@, e.1@))
}

/// Why a commit was refused.
#[derive(Debug, Clone, Copy, PartialEq, Eq, Structural)]
pub enum RegistryError {
    /// The marketplace id is already held by an owner.
    AlreadyClaimed,
}

/// The durable map from owners to the marketplaces they hold. Entries are
/// only added, and each marketplace id is held by one owner at most.
pub struct Registry {
    entries: Vec<(String, String)>,
}

impl Registry {
    pub closed spec fn pairs(&self) -> Seq<(Seq<char>, Seq<char>)> {
        pair_views(self.entries@)
    }

    /// No marketplace id occurs twice.
    pub closed spec fn wf(&self) -> bool {
        forall|i: int, j: int|
            0 <= i < self.entries.len() && 0 <= j < self.entries.len() && i != j
                ==> #[trigger] self.entries@[i].1@ != #[trigger] self.entries@[j].1@
    }

    pub fn new() -> (r: Registry)
        ensures
            r.wf(),
            r@ == Set::<(Seq<char>, Seq<char>)>::empty(),
    {
        let r = Registry { entries: Vec::new() };
        assert(r@ =~= Set::<(Seq<char>, Seq<char>)>::empty());
        r
    }

    proof fn lemma_view(&self)
        ensures
            forall|p: (Seq<char>, Seq<char>)| #[trigger]
                self@.contains(p) <==> exists|i: int|
                    0 <= i < self.entries.len() && self.entries@[i].0@ == p.0
                        && self.entries@[i].1@ == p.1,
    {
        assert forall|p: (Seq<char>, Seq<char>)| #[trigger] self@.contains(p) implies exists|i: int|
            0 <= i < self.entries.len() && self.entries@[i].0@ == p.0 && self.entries@[i].1@
                == p.1 by {
            let i = choose|i: int| 0 <= i < self.pairs().len() && self.pairs()[i] == p;
            assert(self.pairs()[i] == (self.entries@[i].0@, self.entries@[i].1@));
        }
        assert forall|p: (Seq<char>, Seq<char>)|
            (exists|i: int|
                0 <= i < self.entries.len() && self.entries@[i].0@ == p.0 && self.entries@[i].1@
                    == p.1) implies #[trigger] self@.contains(p) by {
            let i = choose|i: int|
                0 <= i < self.entries.len() && self.entries@[i].0@ == p.0 && self.entries@[i].1@
                    == p.1;
            assert(self.pairs()[i] == p);
        }
    }

    /// Each marketplace id belongs to at most one owner.
    pub proof fn lemma_single_owner(&self)
        requires
            self.wf(),
        ensures
            single_owner(self@),
    {
        self.lemma_view();
        assert forall|o1: Seq<char>, o2: Seq<char>, id: Seq<char>|
            #[trigger] self@.contains((o1, id)) && #[trigger] self@.contains((o2, id)) implies o1
            == o2 by {
            let i = choose|i: int|
                0 <= i < self.entries.len() && self.entries@[i].0@ == o1 && self.entries@[i].1@
                    == id;
            let j = choose|j: int|
                0 <= j < self.entries.len() && self.entries@[j].0@ == o2 && self.entries@[j].1@
                    == id;
            assert(i == j);
        }
    }

    /// The index of the entry that holds `id`, if any.
    fn find(&self, id: &String) -> (r: Option<usize>)
        ensures
            r matches Some(i) ==> i < self.entries.len() && self.entries@[i as int].1@ == id@,
            r is None ==> forall|i: int|
                0 <= i < self.entries.len() ==> self.entries@[i].1@ != id@,
    {
        let mut i: usize = 0;
        while i < self.entries.len()
            invariant
                i <= self.entries.len(),
                forall|k: int| 0 <= k < i ==> self.entries@[k].1@ != id@,
            decreases self.entries.len() - i,
        {
            if self.entries[i].1 == *id {
                return Some(i);
            }
            i = i + 1;
        }
        None
    }

    /// Whether `owner` holds the marketplace `id`.
    pub fn contains(&self, owner: &String, id: &String) -> (r: bool)
        requires
            self.wf(),
        ensures
            r == self@.contains((owner@, id@)),
    {
        proof {
            self.lemma_view();
        }
        match self.find(id) {
            Some(i) => self.entries[i].0 == *owner,
            None => false,
        }
    }

    /// The marketplaces held by `owner`: those committed to it, or none.
    pub fn get_or_create(&self, owner: &String) -> (r: Vec<String>)
        requires
            self.wf(),
        ensures
            string_views(r@).to_set() == markets_of(self@, owner@),
            string_views(r@).no_duplicates(),
    {
        proof {
            self.lemma_view();
        }
        let mut out: Vec<String> = Vec::new();
        let mut i: usize = 0;
        while i < self.entries.len()
            invariant
                self.wf(),
                i <= self.entries.len(),
                string_views(out@).no_duplicates(),
                forall|id: Seq<char>|
                    #[trigger] string_views(out@).contains(id) <==> exists|k: int|
                        0 <= k < i && self.entries@[k].0@ == owner@ && #[trigger] self.entries@[k].1@
                            == id,
            decreases self.entries.len() - i,
        {
            let ghost before = string_views(out@);
            if self.entries[i].0 == *owner {
                let id = self.entries[i].1.clone();
                proof {
                    assert forall|k: int| 0 <= k < before.len() implies before[k] != id@ by {
                        assert(before.contains(before[k]));
                    }
                }
                out.push(id);
                proof {
                    let now = string_views(out@);
                    assert(now =~= before.push(id@));
                    assert forall|x: Seq<char>|
                        #[trigger] now.contains(x) <==> exists|k: int|
                            0 <= k < i + 1 && self.entries@[k].0@ == owner@
                                && #[trigger] self.entries@[k].1@ == x by {
                        if now.contains(x) && x != id@ {
                            let j = choose|j: int| 0 <= j < now.len() && now[j] == x;
                            assert(j < before.len());
                            assert(before.contains(x));
                        }
                        if x == id@ {
                            assert(now[now.len() - 1] == x);
                            assert(self.entries@[i as int].1@ == x);
                        }
                        if exists|k: int|
                            0 <= k < i && self.entries@[k].0@ == owner@ && #[trigger] self.entries@[k].1@ == x {
                            assert(before.contains(x));
                            let j = choose|j: int| 0 <= j < before.len() && before[j] == x;
                            assert(now[j] == x);
                        }
                    }
                }
            } else {
                proof {
                    assert forall|x: Seq<char>|
                        #[trigger] before.contains(x) <==> exists|k: int|
                            0 <= k < i + 1 && self.entries@[k].0@ == owner@
                                && #[trigger] self.entries@[k].1@ == x by {
                        if exists|k: int|
                            0 <= k < i + 1 && self.entries@[k].0@ == owner@ && #[trigger] self.entries@[k].1@ == x {
                            let k = choose|k: int|
                                0 <= k < i + 1 && self.entries@[k].0@ == owner@
                                    && #[trigger] self.entries@[k].1@ == x;
                            assert(k != i);
                        }
                    }
                }
            }
            i = i + 1;
        }
        proof {
            let v = string_views(out@);
            assert(v.to_set() =~= markets_of(self@, owner@)) by {
                assert forall|x: Seq<char>| #[trigger] v.to_set().contains(x) <==> markets_of(self@, owner@).contains(x) by {
                    if v.contains(x) {
                        let k = choose|k: int|
                            0 <= k < self.entries.len() && self.entries@[k].0@ == owner@
                                && #[trigger] self.entries@[k].1@ == x;
                        assert(self@.contains((owner@, x)));
                    }
                    if self@.contains((owner@, x)) {
                        let k = choose|k: int|
                            0 <= k < self.entries.len() && self.entries@[k].0@ == owner@
                                && self.entries@[k].1@ == x;
                        assert(self.entries@[k].1@ == x);
                    }
                }
            }
        }
        out
    }

    /// Every (owner, marketplace) pair held, each once.
    pub fn entries(&self) -> (r: Vec<(String, String)>)
        requires
            self.wf(),
        ensures
            pair_views(r@).to_set() == self@,
            pair_views(r@).len() == r@.len(),
    {
        let mut out: Vec<(String, String)> = Vec::new();
        let mut i: usize = 0;
        while i < self.entries.len()
            invariant
                i <= self.entries.len(),
                pair_views(out@) == self.pairs().take(i as int),
            decreases self.entries.len() - i,
        {
            let ghost before = out@;
            let owner = self.entries[i].0.clone();
            let id = self.entries[i].1.clone();
            out.push((owner, id));
            assert(out@ == before.push((owner, id)));
            assert(owner@ == self.entries@[i as int].0@ && id@ == self.entries@[i as int].1@);
            assert(pair_views(out@) =~= pair_views(before).push((owner@, id@)));
            assert(self.pairs()[i as int] == (owner@, id@));
            assert(pair_views(out@) =~= self.pairs().take(i + 1));
            i = i + 1;
        }
        assert(self.pairs().take(self.entries.len() as int) =~= self.pairs());
        out
    }

    /// Commits the marketplace `id` to `owner`, refusing an id that some owner
    /// already holds.
    pub fn commit(&mut self, owner: String, id: String) -> (r: Result<(), RegistryError>)
        requires
            old(self).wf(),
        ensures
            final(self).wf(),
            final(self)@ == committed(old(self)@, owner@, id@),
            r is Err <==> is_claimed(old(self)@, id@),
    {
        proof {
            self.lemma_view();
        }
        match self.find(&id) {
            Some(i) => {
                proof {
                    assert(self@.contains((self.entries@[i as int].0@, id@)));
                }
                Err(RegistryError::AlreadyClaimed)
            },
            None => {
                let ghost prev = *self;
                proof {
                    assert(!is_claimed(self@, id@));
                }
                self.entries.push((owner, id));
                proof {
                    self.lemma_view();
                    prev.lemma_view();
                    assert(self.entries@[prev.entries.len() as int].1@ == id@);
                    assert forall|p: (Seq<char>, Seq<char>)|
                        #[trigger] self@.contains(p) <==> prev@.insert((owner@, id@)).contains(p) by {
                        if self@.contains(p) && p != (owner@, id@) {
                            let k = choose|k: int|
                                0 <= k < self.entries.len() && self.entries@[k].0@ == p.0
                                    && self.entries@[k].1@ == p.1;
                            assert(self.entries@[k] == prev.entries@[k]);
                        }
                        if prev@.contains(p) {
                            let k = choose|k: int|
                                0 <= k < prev.entries.len() && prev.entries@[k].0@ == p.0
                                    && prev.entries@[k].1@ == p.1;
                            assert(self.entries@[k] == prev.entries@[k]);
                        }
                        if p == (owner@, id@) {
                            assert(self.entries@[prev.entries.len() as int].0@ == owner@);
                        }
                    }
                    assert(self@ =~= prev@.insert((owner@, id@)));
                    assert forall|a: int, b: int|
                        0 <= a < self.entries.len() && 0 <= b < self.entries.len() && a != b
                            implies #[trigger] self.entries@[a].1@ != #[trigger] self.entries@[b].1@ by {
                        if a < prev.entries.len() && b < prev.entries.len() {
                            assert(self.entries@[a] == prev.entries@[a]);
                            assert(self.entries@[b] == prev.entries@[b]);
                        } else if a < prev.entries.len() {
                            assert(self.entries@[a] == prev.entries@[a]);
                        } else {
                            assert(self.entries@[b] == prev.entries@[b]);
                        }
                    }
                }
                Ok(())
            },
        }
    }
}

impl View for Registry {
    type V = RegistryView;

    closed spec fn view(&self) -> RegistryView {
        self.pairs().to_set()
    }
}

} // verus!
