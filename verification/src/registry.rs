//! The bindings of one group of handlers: names, and the handler behind each.
//!
//! A registry is modelled as the sequence of its bindings in the order in
//! which their names were first registered. Looking a name up finds the first
//! binding of that name; registering a name that is bound replaces the handler
//! in place, so no name is ever bound twice.

use vstd::prelude::*;

verus! {

/// Whether `i` is the first binding whose name is `name`.
pub open spec fn is_first_named<H>(bindings: Seq<(Seq<char>, H)>, name: Seq<char>, i: int) -> bool {
    &&& 0 <= i < bindings.len()
    &&& bindings[i].0 == name
    &&& forall|j: int| 0 <= j < i ==> (#[trigger] bindings[j]).0 != name
}

/// Whether `i` is the first binding whose name `uri` begins with.
pub open spec fn is_first_prefix<H>(bindings: Seq<(Seq<char>, H)>, uri: Seq<char>, i: int) -> bool {
    &&& 0 <= i < bindings.len()
    &&& bindings[i].0.is_prefix_of(uri)
    &&& forall|j: int| 0 <= j < i ==> !(#[trigger] bindings[j]).0.is_prefix_of(uri)
}

/// Where `name` is bound, if it is.
pub open spec fn find<H>(bindings: Seq<(Seq<char>, H)>, name: Seq<char>) -> Option<int> {
    if exists|i: int| is_first_named(bindings, name, i) {
        Some(choose|i: int| is_first_named(bindings, name, i))
    } else {
        None
    }
}

/// Where the first name is bound that `uri` begins with, if there is one.
pub open spec fn find_prefix<H>(bindings: Seq<(Seq<char>, H)>, uri: Seq<char>) -> Option<int> {
    if exists|i: int| is_first_prefix(bindings, uri, i) {
        Some(choose|i: int| is_first_prefix(bindings, uri, i))
    } else {
        None
    }
}

/// The handler bound to `name`, if there is one.
pub open spec fn lookup<H>(bindings: Seq<(Seq<char>, H)>, name: Seq<char>) -> Option<H> {
    match find(bindings, name) {
        Some(i) => Some(bindings[i].1),
        None => None,
    }
}

/// The handler bound to the first name that `uri` begins with, if there is one.
pub open spec fn lookup_prefix<H>(bindings: Seq<(Seq<char>, H)>, uri: Seq<char>) -> Option<H> {
    match find_prefix(bindings, uri) {
        Some(i) => Some(bindings[i].1),
        None => None,
    }
}

/// The bindings after `name` is registered with `handler`: the handler takes
/// the place of the one that `name` was bound to, or the binding is added at
/// the end.
pub open spec fn registered<H>(bindings: Seq<(Seq<char>, H)>, name: Seq<char>, handler: H) -> Seq<
    (Seq<char>, H),
> {
    match find(bindings, name) {
        Some(i) => bindings.update(i, (name, handler)),
        None => bindings.push((name, handler)),
    }
}

/// Whether no name is bound twice.
pub open spec fn distinct_names<H>(bindings: Seq<(Seq<char>, H)>) -> bool {
    forall|i: int, j: int|
        0 <= i < j < bindings.len() ==> (#[trigger] bindings[i]).0 != (#[trigger] bindings[j]).0
}

/// The first binding of a name is where the name is found.
pub proof fn lemma_find_first<H>(bindings: Seq<(Seq<char>, H)>, name: Seq<char>, i: int)
    requires
        is_first_named(bindings, name, i),
    ensures
        find(bindings, name) == Some(i),
{
    let k = choose|k: int| is_first_named(bindings, name, k);
    if k < i {
        assert(bindings[k].0 != name);
    }
    if i < k {
        assert(bindings[i].0 != name);
    }
}

/// A name that no binding carries is not found.
pub proof fn lemma_find_none<H>(bindings: Seq<(Seq<char>, H)>, name: Seq<char>)
    requires
        forall|j: int| 0 <= j < bindings.len() ==> (#[trigger] bindings[j]).0 != name,
    ensures
        find(bindings, name) is None,
{
    if exists|i: int| is_first_named(bindings, name, i) {
        let k = choose|k: int| is_first_named(bindings, name, k);
        assert(bindings[k].0 != name);
    }
}

/// A name that is found is the name of the binding it is found at, and of
/// none before it.
pub proof fn lemma_find_some<H>(bindings: Seq<(Seq<char>, H)>, name: Seq<char>)
    requires
        find(bindings, name) is Some,
    ensures
        is_first_named(bindings, name, find(bindings, name)->0),
{
}

/// The first binding whose name a URI begins with is where the URI is found.
pub proof fn lemma_find_prefix_first<H>(bindings: Seq<(Seq<char>, H)>, uri: Seq<char>, i: int)
    requires
        is_first_prefix(bindings, uri, i),
    ensures
        find_prefix(bindings, uri) == Some(i),
{
    let k = choose|k: int| is_first_prefix(bindings, uri, k);
    if k < i {
        assert(!bindings[k].0.is_prefix_of(uri));
    }
    if i < k {
        assert(!bindings[i].0.is_prefix_of(uri));
    }
}

/// A URI that begins with no bound name is not found.
pub proof fn lemma_find_prefix_none<H>(bindings: Seq<(Seq<char>, H)>, uri: Seq<char>)
    requires
        forall|j: int| 0 <= j < bindings.len() ==> !(#[trigger] bindings[j]).0.is_prefix_of(uri),
    ensures
        find_prefix(bindings, uri) is None,
{
    if exists|i: int| is_first_prefix(bindings, uri, i) {
        let k = choose|k: int| is_first_prefix(bindings, uri, k);
        assert(!bindings[k].0.is_prefix_of(uri));
    }
}

/// After a name is registered, looking it up gives the handler it was
/// registered with, whatever it was bound to before.
pub proof fn lemma_lookup_registered<H>(bindings: Seq<(Seq<char>, H)>, name: Seq<char>, handler: H)
    ensures
        lookup(registered(bindings, name, handler), name) == Some(handler),
{
    let after = registered(bindings, name, handler);
    match find(bindings, name) {
        Some(i) => {
            lemma_find_some(bindings, name);
            assert forall|j: int| 0 <= j < i implies (#[trigger] after[j]).0 != name by {
                assert(bindings[j].0 != name);
            }
            lemma_find_first(after, name, i);
        },
        None => {
            let i = bindings.len() as int;
            assert forall|j: int| 0 <= j < i implies (#[trigger] after[j]).0 != name by {
                if bindings[j].0 == name {
                    lemma_exists_first(bindings, name, j);
                }
            }
            lemma_find_first(after, name, i);
        },
    }
}

/// A name that some binding carries has a first binding.
pub proof fn lemma_exists_first<H>(bindings: Seq<(Seq<char>, H)>, name: Seq<char>, j: int)
    requires
        0 <= j < bindings.len(),
        bindings[j].0 == name,
    ensures
        find(bindings, name) is Some,
        find(bindings, name)->0 <= j,
    decreases j,
{
    if forall|k: int| 0 <= k < j ==> (#[trigger] bindings[k]).0 != name {
        assert(is_first_named(bindings, name, j));
        lemma_find_first(bindings, name, j);
    } else {
        let k = choose|k: int| 0 <= k < j && (#[trigger] bindings[k]).0 == name;
        lemma_exists_first(bindings, name, k);
    }
}

/// Registering a name changes nothing for any other name: it is found where
/// it was, bound to the handler it had.
pub proof fn lemma_lookup_other<H>(
    bindings: Seq<(Seq<char>, H)>,
    name: Seq<char>,
    handler: H,
    other: Seq<char>,
)
    requires
        other != name,
    ensures
        find(registered(bindings, name, handler), other) == find(bindings, other),
        lookup(registered(bindings, name, handler), other) == lookup(bindings, other),
{
    let after = registered(bindings, name, handler);
    assert forall|j: int| 0 <= j < bindings.len() implies ((#[trigger] after[j]).0 == other
        <==> bindings[j].0 == other) && (bindings[j].0 == other ==> after[j].1
        == bindings[j].1) by {
        if find(bindings, name) is Some {
            lemma_find_some(bindings, name);
        }
    }
    match find(bindings, other) {
        Some(i) => {
            lemma_find_some(bindings, other);
            assert forall|j: int| 0 <= j < i implies (#[trigger] after[j]).0 != other by {
                assert(bindings[j].0 != other);
            }
            assert(after[i].0 == other);
            lemma_find_first(after, other, i);
        },
        None => {
            assert forall|j: int| 0 <= j < after.len() implies (#[trigger] after[j]).0
                != other by {
                if j < bindings.len() {
                    if bindings[j].0 == other {
                        lemma_exists_first(bindings, other, j);
                    }
                }
            }
            lemma_find_none(after, other);
        },
    }
}

/// Registering a name that is bound changes no name, so a URI is found by
/// prefix where it was found before; where that is the place of the name, the
/// URI now reaches the handler that the name was registered with.
pub proof fn lemma_prefix_lookup_registered<H>(
    bindings: Seq<(Seq<char>, H)>,
    name: Seq<char>,
    handler: H,
    uri: Seq<char>,
)
    requires
        find(bindings, name) is Some,
    ensures
        find_prefix(registered(bindings, name, handler), uri) == find_prefix(bindings, uri),
        find_prefix(bindings, uri) == find(bindings, name) ==> lookup_prefix(
            registered(bindings, name, handler),
            uri,
        ) == Some(handler),
{
    let after = registered(bindings, name, handler);
    lemma_find_some(bindings, name);
    assert forall|j: int| 0 <= j < bindings.len() implies (#[trigger] after[j]).0
        == bindings[j].0 by {}
    match find_prefix(bindings, uri) {
        Some(i) => {
            assert(is_first_prefix(bindings, uri, i));
            assert forall|j: int| 0 <= j < i implies !(#[trigger] after[j]).0.is_prefix_of(uri) by {
                assert(!bindings[j].0.is_prefix_of(uri));
            }
            assert(after[i].0 == bindings[i].0);
            lemma_find_prefix_first(after, uri, i);
        },
        None => {
            assert forall|j: int| 0 <= j < after.len() implies !(#[trigger] after[j]).0.is_prefix_of(
                uri,
            ) by {
                if bindings[j].0.is_prefix_of(uri) {
                    lemma_exists_first_prefix(bindings, uri, j);
                }
            }
            lemma_find_prefix_none(after, uri);
        },
    }
}

/// A URI that begins with the name of some binding has a first such binding.
pub proof fn lemma_exists_first_prefix<H>(bindings: Seq<(Seq<char>, H)>, uri: Seq<char>, j: int)
    requires
        0 <= j < bindings.len(),
        bindings[j].0.is_prefix_of(uri),
    ensures
        find_prefix(bindings, uri) is Some,
        find_prefix(bindings, uri)->0 <= j,
    decreases j,
{
    if forall|k: int| 0 <= k < j ==> !(#[trigger] bindings[k]).0.is_prefix_of(uri) {
        assert(is_first_prefix(bindings, uri, j));
        lemma_find_prefix_first(bindings, uri, j);
    } else {
        let k = choose|k: int| 0 <= k < j && (#[trigger] bindings[k]).0.is_prefix_of(uri);
        lemma_exists_first_prefix(bindings, uri, k);
    }
}

/// Registering a name that is bound keeps the number of bindings; registering
/// a new name adds one.
pub proof fn lemma_registered_len<H>(bindings: Seq<(Seq<char>, H)>, name: Seq<char>, handler: H)
    ensures
        registered(bindings, name, handler).len() == if find(bindings, name) is Some {
            bindings.len()
        } else {
            bindings.len() + 1
        },
{
    if find(bindings, name) is Some {
        lemma_find_some(bindings, name);
    }
}

/// Registering keeps the names distinct.
pub proof fn lemma_registered_distinct<H>(
    bindings: Seq<(Seq<char>, H)>,
    name: Seq<char>,
    handler: H,
)
    requires
        distinct_names(bindings),
    ensures
        distinct_names(registered(bindings, name, handler)),
{
    let after = registered(bindings, name, handler);
    match find(bindings, name) {
        Some(i) => {
            lemma_find_some(bindings, name);
            assert forall|a: int, b: int| 0 <= a < b < after.len() implies (#[trigger] after[a]).0
                != (#[trigger] after[b]).0 by {
                assert(bindings[a].0 != bindings[b].0);
            }
        },
        None => {
            assert forall|a: int, b: int| 0 <= a < b < after.len() implies (#[trigger] after[a]).0
                != (#[trigger] after[b]).0 by {
                if b < bindings.len() {
                    assert(bindings[a].0 != bindings[b].0);
                } else {
                    if bindings[a].0 == name {
                        lemma_exists_first(bindings, name, a);
                    }
                }
            }
        },
    }
}

/// The bindings of one group of handlers.
pub struct Registry<H> {
    bindings: Vec<(String, H)>,
}

impl<H> View for Registry<H> {
    type V = Seq<(Seq<char>, H)>;

    closed spec fn view(&self) -> Seq<(Seq<char>, H)> {
        self.bindings@.map_values(|b: (String, H)| (b.0@, b.1))
    }
}

impl<H> Registry<H> {
    /// The registry without bindings.
    pub fn new() -> (r: Self)
        ensures
            r@ == Seq::<(Seq<char>, H)>::empty(),
    {
        let r = Registry { bindings: Vec::new() };
        proof {
            assert(r@ =~= Seq::<(Seq<char>, H)>::empty());
        }
        r
    }

    /// The number of bindings.
    pub fn len(&self) -> (r: usize)
        ensures
            r == self@.len(),
    {
        self.bindings.len()
    }

    /// The name and the handler of the binding at `i`, if there are that many.
    pub fn entry(&self, i: usize) -> (r: Option<(&str, &H)>)
        ensures
            match r {
                Some((name, handler)) => i < self@.len() && name@ == self@[i as int].0 && *handler
                    == self@[i as int].1,
                None => i >= self@.len(),
            },
    {
        if i < self.bindings.len() {
            Some((self.bindings[i].0.as_str(), &self.bindings[i].1))
        } else {
            None
        }
    }

    /// Where `name` is bound, if it is.
    pub fn position(&self, name: &str) -> (r: Option<usize>)
        ensures
            match r {
                Some(i) => find(self@, name@) == Some(i as int),
                None => find(self@, name@) is None,
            },
    {
        let wanted = String::from_str(name);
        let mut i: usize = 0;
        while i < self.bindings.len()
            invariant
                i <= self.bindings.len(),
                wanted@ == name@,
                forall|j: int| 0 <= j < i ==> (#[trigger] self@[j]).0 != name@,
            decreases self.bindings.len() - i,
        {
            if self.bindings[i].0 == wanted {
                proof {
                    lemma_find_first(self@, name@, i as int);
                }
                return Some(i);
            }
            i = i + 1;
        }
        proof {
            lemma_find_none(self@, name@);
        }
        None
    }

    /// Where the first name is bound that `uri` begins with, if there is one.
    pub fn position_by_prefix(&self, uri: &str) -> (r: Option<usize>)
        ensures
            match r {
                Some(i) => find_prefix(self@, uri@) == Some(i as int),
                None => find_prefix(self@, uri@) is None,
            },
    {
        let mut i: usize = 0;
        while i < self.bindings.len()
            invariant
                i <= self.bindings.len(),
                forall|j: int| 0 <= j < i ==> !(#[trigger] self@[j]).0.is_prefix_of(uri@),
            decreases self.bindings.len() - i,
        {
            if crate::utils::text::starts_with(uri, self.bindings[i].0.as_str()) {
                proof {
                    lemma_find_prefix_first(self@, uri@, i as int);
                }
                return Some(i);
            }
            i = i + 1;
        }
        proof {
            lemma_find_prefix_none(self@, uri@);
        }
        None
    }

    /// The handler bound to `name`, if there is one.
    pub fn lookup(&self, name: &str) -> (r: Option<&H>)
        ensures
            match r {
                Some(h) => lookup(self@, name@) == Some(*h),
                None => lookup(self@, name@) is None,
            },
    {
        match self.position(name) {
            Some(i) => {
                proof {
                    lemma_find_some(self@, name@);
                }
                Some(&self.bindings[i].1)
            },
            None => None,
        }
    }

    /// The handler bound to the first name that `uri` begins with, if there is one.
    pub fn lookup_by_prefix(&self, uri: &str) -> (r: Option<&H>)
        ensures
            match r {
                Some(h) => lookup_prefix(self@, uri@) == Some(*h),
                None => lookup_prefix(self@, uri@) is None,
            },
    {
        match self.position_by_prefix(uri) {
            Some(i) => Some(&self.bindings[i].1),
            None => None,
        }
    }

    /// Binds `name` to `handler`. A name that is bound already keeps its place
    /// and loses the handler it had.
    pub fn register(&mut self, name: String, handler: H)
        ensures
            final(self)@ == registered(old(self)@, name@, handler),
    {
        match self.position(name.as_str()) {
            Some(i) => {
                proof {
                    lemma_find_some(self@, name@);
                }
                self.bindings.set(i, (name, handler));
                proof {
                    assert(self@ =~= registered(old(self)@, name@, handler));
                }
            },
            None => {
                self.bindings.push((name, handler));
                proof {
                    assert(self@ =~= registered(old(self)@, name@, handler));
                }
            },
        }
    }
}

} // verus!
