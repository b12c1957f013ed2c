//! The bookkeeping of the query engine: which kinds of query are registered,
//! which queries are under way, and what each of them has read so far.
//!
//! A layer brackets every derivation: `begin` before it runs, `record` for
//! each input it reads, `finish` when it is done. A query that is begun while
//! another is under way becomes a dependency of that one when it finishes.

use vstd::prelude::*;
use crate::error::TaekoError;

verus! {

/// Something that a derivation read: an input, or another query.
#[derive(Debug)]
pub enum Dep {
    Text(String),
    Blob(String),
    Query(String, String),
}

/// The view of a dependency.
pub enum DepView {
    Text(Seq<char>),
    Blob(Seq<char>),
    Query(Seq<char>, Seq<char>),
}

impl View for Dep {
    type V = DepView;

    open spec fn view(&self) -> DepView {
        match self {
            Dep::Text(n) => DepView::Text(n@),
            Dep::Blob(n) => DepView::Blob(n@),
            Dep::Query(k, a) => DepView::Query(k@, a@),
        }
    }
}

/// The views of a list of dependencies.
pub open spec fn deps_view(v: Vec<Dep>) -> Seq<DepView> {
    Seq::new(v@.len(), |i: int| v@[i]@)
}

/// A list of dependencies with one more, unless it holds it already.
pub open spec fn add_dep(reads: Seq<DepView>, d: DepView) -> Seq<DepView> {
    if reads.contains(d) {
        reads
    } else {
        reads.push(d)
    }
}

/// A query under way, with what it has read so far, in the order of the first
/// reads.
#[derive(Debug)]
pub struct Frame {
    pub kind: String,
    pub arg: String,
    pub reads: Vec<Dep>,
}

/// The view of a query under way.
pub struct FrameView {
    pub kind: Seq<char>,
    pub arg: Seq<char>,
    pub reads: Seq<DepView>,
}

impl View for Frame {
    type V = FrameView;

    open spec fn view(&self) -> FrameView {
        FrameView { kind: self.kind@, arg: self.arg@, reads: deps_view(self.reads) }
    }
}

/// The queries under way after the innermost of them has read `d`.
pub open spec fn recorded(frames: Seq<FrameView>, d: DepView) -> Seq<FrameView> {
    if frames.len() == 0 {
        frames
    } else {
        frames.update(
            frames.len() - 1,
            FrameView {
                kind: frames.last().kind,
                arg: frames.last().arg,
                reads: add_dep(frames.last().reads, d),
            },
        )
    }
}

/// The queries under way after the innermost of them has read each of `deps`
/// in turn.
pub open spec fn recorded_all(frames: Seq<FrameView>, deps: Seq<DepView>) -> Seq<FrameView>
    decreases deps.len(),
{
    if deps.len() == 0 {
        frames
    } else {
        recorded(recorded_all(frames, deps.drop_last()), deps.last())
    }
}

/// The query of a kind and an argument is among those under way.
pub open spec fn under_way(frames: Seq<FrameView>, kind: Seq<char>, arg: Seq<char>) -> bool {
    exists|i: int| 0 <= i < frames.len() && (#[trigger] frames[i]).kind == kind && frames[i].arg == arg
}

/// No query is under way twice, and none has recorded a dependency twice.
pub open spec fn acyclic(frames: Seq<FrameView>) -> bool {
    &&& forall|i: int, j: int|
        0 <= i < j < frames.len() ==> !((#[trigger] frames[i]).kind == (#[trigger] frames[j]).kind
            && frames[i].arg == frames[j].arg)
    &&& forall|i: int| 0 <= i < frames.len() ==> (#[trigger] frames[i]).reads.no_duplicates()
}

/// Recording a read changes neither which queries are under way nor their order.
pub proof fn lemma_recorded_keeps_keys(frames: Seq<FrameView>, d: DepView)
    ensures
        recorded(frames, d).len() == frames.len(),
        forall|i: int|
            0 <= i < frames.len() ==> (#[trigger] recorded(frames, d)[i]).kind == frames[i].kind
                && recorded(frames, d)[i].arg == frames[i].arg,
{
}

/// Recording reads changes neither which queries are under way nor their order.
pub proof fn lemma_recorded_all_keeps_keys(frames: Seq<FrameView>, deps: Seq<DepView>)
    ensures
        recorded_all(frames, deps).len() == frames.len(),
        forall|i: int|
            0 <= i < frames.len() ==> (#[trigger] recorded_all(frames, deps)[i]).kind
                == frames[i].kind && recorded_all(frames, deps)[i].arg == frames[i].arg,
    decreases deps.len(),
{
    if deps.len() > 0 {
        lemma_recorded_all_keeps_keys(frames, deps.drop_last());
        lemma_recorded_keeps_keys(recorded_all(frames, deps.drop_last()), deps.last());
    }
}

/// Tells whether two dependencies are the same.
pub fn same_dep(a: &Dep, b: &Dep) -> (r: bool)
    ensures
        r == (a@ == b@),
{
    match (a, b) {
        (Dep::Text(x), Dep::Text(y)) => *x == *y,
        (Dep::Blob(x), Dep::Blob(y)) => *x == *y,
        (Dep::Query(k, x), Dep::Query(l, y)) => *k == *l && *x == *y,
        _ => false,
    }
}

/// A copy of a dependency.
pub fn copy_dep(d: &Dep) -> (r: Dep)
    ensures
        r@ == d@,
{
    match d {
        Dep::Text(n) => Dep::Text(n.clone()),
        Dep::Blob(n) => Dep::Blob(n.clone()),
        Dep::Query(k, a) => Dep::Query(k.clone(), a.clone()),
    }
}

/// Tells whether a list holds a dependency.
pub fn has_dep(reads: &Vec<Dep>, d: &Dep) -> (r: bool)
    ensures
        r == deps_view(*reads).contains(d@),
{
    let mut i: usize = 0;
    while i < reads.len()
        invariant
            i <= reads@.len(),
            forall|k: int| 0 <= k < i ==> #[trigger] deps_view(*reads)[k] != d@,
        decreases reads@.len() - i,
    {
        if same_dep(&reads[i], d) {
            assert(deps_view(*reads)[i as int] == d@);
            return true;
        }
        i += 1;
    }
    false
}

/// The registered kinds of query and the queries under way, innermost last.
pub struct QueryEngine {
    pub kinds: Vec<String>,
    pub stack: Vec<Frame>,
}

impl QueryEngine {
    /// The kinds that were registered.
    pub open spec fn registered(&self) -> Set<Seq<char>> {
        Set::new(|k: Seq<char>| exists|i: int| 0 <= i < self.kinds@.len() && (#[trigger] self.kinds@[i])@ == k)
    }

    /// The queries under way, innermost last.
    pub open spec fn frames(&self) -> Seq<FrameView> {
        Seq::new(self.stack@.len(), |i: int| self.stack@[i]@)
    }

    /// No query is under way twice, and each is of a registered kind.
    pub open spec fn inv(&self) -> bool {
        &&& acyclic(self.frames())
        &&& forall|i: int|
            0 <= i < self.frames().len() ==> self.registered().contains(
                (#[trigger] self.frames()[i]).kind,
            )
    }

    /// An engine with no kind registered and no query under way.
    pub fn new() -> (e: Self)
        ensures
            e.inv(),
            e.registered() == Set::<Seq<char>>::empty(),
            e.frames() == Seq::<FrameView>::empty(),
    {
        let e = QueryEngine { kinds: Vec::new(), stack: Vec::new() };
        assert(e.registered() =~= Set::<Seq<char>>::empty());
        assert(e.frames() =~= Seq::<FrameView>::empty());
        e
    }

    /// Tells whether a kind was registered.
    pub fn is_registered(&self, kind: &String) -> (r: bool)
        ensures
            r == self.registered().contains(kind@),
    {
        let mut i: usize = 0;
        while i < self.kinds.len()
            invariant
                i <= self.kinds@.len(),
                forall|k: int| 0 <= k < i ==> (#[trigger] self.kinds@[k])@ != kind@,
            decreases self.kinds@.len() - i,
        {
            if self.kinds[i] == *kind {
                return true;
            }
            i += 1;
        }
        false
    }

    /// Tells whether the query of a kind and an argument is under way.
    pub fn is_under_way(&self, kind: &String, arg: &String) -> (r: bool)
        ensures
            r == under_way(self.frames(), kind@, arg@),
    {
        let mut i: usize = 0;
        while i < self.stack.len()
            invariant
                i <= self.stack@.len(),
                forall|k: int|
                    0 <= k < i ==> !((#[trigger] self.frames()[k]).kind == kind@
                        && self.frames()[k].arg == arg@),
            decreases self.stack@.len() - i,
        {
            if self.stack[i].kind == *kind && self.stack[i].arg == *arg {
                assert(self.frames()[i as int].kind == kind@);
                return true;
            }
            i += 1;
        }
        false
    }

    /// Registers a kind of query. Registering a kind again changes nothing.
    pub fn register(&mut self, kind: String)
        requires
            old(self).inv(),
        ensures
            final(self).inv(),
            final(self).registered() == old(self).registered().insert(kind@),
            final(self).frames() == old(self).frames(),
    {
        if !self.is_registered(&kind) {
            self.kinds.push(kind);
            assert(self.kinds@[self.kinds@.len() - 1]@ == kind@);
            assert forall|k: Seq<char>| old(self).registered().contains(k) implies self.registered().contains(k) by {
                let i = choose|i: int| 0 <= i < old(self).kinds@.len() && (#[trigger] old(self).kinds@[i])@ == k;
                assert(self.kinds@[i]@ == k);
            }
        }
        assert(self.frames() =~= old(self).frames());
        assert(self.registered() =~= old(self).registered().insert(kind@));
    }

    /// Begins the query of a kind and an argument.
    ///
    /// Fails with `UnregisteredQuery` where the kind was not registered, and
    /// with `CycleDetected` where this very query is under way already; the
    /// engine is then as it was.
    pub fn begin(&mut self, kind: String, arg: String) -> (r: Result<(), TaekoError>)
        requires
            old(self).inv(),
        ensures
            final(self).inv(),
            final(self).registered() == old(self).registered(),
            r == (if !old(self).registered().contains(kind@) {
                Err::<(), TaekoError>(TaekoError::UnregisteredQuery)
            } else if under_way(old(self).frames(), kind@, arg@) {
                Err::<(), TaekoError>(TaekoError::CycleDetected)
            } else {
                Ok::<(), TaekoError>(())
            }),
            r is Err ==> *final(self) == *old(self),
            r is Ok ==> final(self).frames() == old(self).frames().push(
                FrameView { kind: kind@, arg: arg@, reads: Seq::<DepView>::empty() },
            ),
    {
        if !self.is_registered(&kind) {
            return Err(TaekoError::UnregisteredQuery);
        }
        if self.is_under_way(&kind, &arg) {
            return Err(TaekoError::CycleDetected);
        }
        let ghost fresh = FrameView { kind: kind@, arg: arg@, reads: Seq::<DepView>::empty() };
        let frame = Frame { kind, arg, reads: Vec::new() };
        assert(frame@.reads =~= Seq::<DepView>::empty());
        self.stack.push(frame);
        assert(self.frames() =~= old(self).frames().push(fresh));
        Ok(())
    }

    /// Records that the innermost query under way has read `dep`. With no
    /// query under way nothing is recorded.
    pub fn record(&mut self, dep: Dep)
        requires
            old(self).inv(),
        ensures
            final(self).inv(),
            final(self).registered() == old(self).registered(),
            final(self).frames() == recorded(old(self).frames(), dep@),
    {
        match self.stack.pop() {
            None => {
                assert(self.frames() =~= old(self).frames());
            },
            Some(top) => {
                let mut frame = top;
                let ghost before = deps_view(frame.reads);
                if !has_dep(&frame.reads, &dep) {
                    frame.reads.push(dep);
                    assert(deps_view(frame.reads) =~= before.push(dep@));
                    assert(before == old(self).frames().last().reads);
                    assert(deps_view(frame.reads).no_duplicates());
                }
                self.stack.push(frame);
                assert(self.frames() =~= recorded(old(self).frames(), dep@));
            },
        }
    }

    /// Records that the innermost query under way has read each of `deps`, in
    /// their order.
    pub fn record_all(&mut self, deps: &Vec<Dep>)
        requires
            old(self).inv(),
        ensures
            final(self).inv(),
            final(self).registered() == old(self).registered(),
            final(self).frames() == recorded_all(old(self).frames(), deps_view(*deps)),
    {
        let ghost start = self.frames();
        let ghost kinds = self.registered();
        let mut i: usize = 0;
        assert(deps_view(*deps).take(0) =~= Seq::<DepView>::empty());
        while i < deps.len()
            invariant
                i <= deps@.len(),
                self.inv(),
                self.registered() == kinds,
                self.frames() == recorded_all(start, deps_view(*deps).take(i as int)),
            decreases deps@.len() - i,
        {
            self.record(copy_dep(&deps[i]));
            proof {
                let next = deps_view(*deps).take(i + 1);
                assert(next.drop_last() =~= deps_view(*deps).take(i as int));
                assert(next.last() == deps@[i as int]@);
            }
            i += 1;
        }
        assert(deps_view(*deps).take(deps@.len() as int) =~= deps_view(*deps));
    }

    /// Ends the innermost query under way and hands it out with what it read.
    /// The query that is under way around it, if any, has then read this one
    /// and everything that this one read. With no query under way the result
    /// is `None`.
    pub fn finish(&mut self) -> (r: Option<Frame>)
        requires
            old(self).inv(),
        ensures
            final(self).inv(),
            final(self).registered() == old(self).registered(),
            r is None ==> *final(self) == *old(self),
            match r {
                None => old(self).frames().len() == 0 && final(self).frames() == old(self).frames(),
                Some(f) => old(self).frames().len() > 0 && f@ == old(self).frames().last()
                    && final(self).frames() == recorded_all(
                    recorded(old(self).frames().drop_last(), DepView::Query(f@.kind, f@.arg)),
                    f@.reads,
                ),
            },
    {
        if self.stack.len() == 0 {
            return None;
        }
        match self.stack.pop() {
            None => None,
            Some(frame) => {
                assert(self.frames() =~= old(self).frames().drop_last());
                self.record(Dep::Query(frame.kind.clone(), frame.arg.clone()));
                self.record_all(&frame.reads);
                Some(frame)
            },
        }
    }
}

} // verus!
