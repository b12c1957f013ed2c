//! The context: the one surface that a driver talks to. It holds the markdown
//! database and the engine's bookkeeping, forwards the setting of inputs, and
//! answers every registered kind of query.
//!
//! The kinds of the content layer are registered from the start and answered
//! here. A kind that a further layer registers is derived by that layer: where
//! no cached value stands, the context begins the query and tells the caller to
//! run its derivation, which may ask for other queries and ends with
//! `complete`, which caches the value, or with `finish`, which caches nothing.

use vstd::prelude::*;
use vstd::string::*;
use crate::cache::{
    entry_at,
    entry_of,
    find_entry,
    has_entry,
    keyed,
    lemma_entry_at,
    stands,
    still_stands,
    Entry,
};
use crate::database::{MarkdownDatabase, MarkdownDatabaseStruct};
use crate::engine::{
    deps_view,
    recorded,
    recorded_all,
    under_way,
    Dep,
    DepView,
    Frame,
    FrameView,
    QueryEngine,
};
use crate::error::TaekoError;
use crate::store::TaekoCoreDatabase;

verus! {

/// What a query gives.
#[derive(Debug, PartialEq, Eq)]
pub enum Answer {
    /// The metadata block of a markdown source, if it has one.
    Front(Option<String>),
    /// A derived text.
    Text(String),
    /// The query is begun and is the caller's to derive and to finish.
    Run,
}

/// The metadata result that an answer stands for.
pub open spec fn as_front(r: Result<Answer, TaekoError>) -> Option<
    Result<Option<String>, TaekoError>,
> {
    match r {
        Ok(Answer::Front(o)) => Some(Ok(o)),
        Err(e) => Some(Err(e)),
        _ => None,
    }
}

/// The text result that an answer stands for.
pub open spec fn as_text(r: Result<Answer, TaekoError>) -> Option<Result<String, TaekoError>> {
    match r {
        Ok(Answer::Text(s)) => Some(Ok(s)),
        Err(e) => Some(Err(e)),
        _ => None,
    }
}

/// What the query of a kind of the content layer leaves with the queries
/// under way: the innermost has read the query and the text of its path.
pub open spec fn answered(frames: Seq<FrameView>, kind: Seq<char>, arg: Seq<char>) -> Seq<
    FrameView,
> {
    recorded_all(recorded(frames, DepView::Query(kind, arg)), seq![DepView::Text(arg)])
}

/// The markdown database, the engine's bookkeeping and the cache of the
/// further layers.
pub struct Context {
    pub db: MarkdownDatabaseStruct,
    pub engine: QueryEngine,
    pub cache: Vec<Entry>,
}

impl Context {
    /// Both parts are in order, and the kinds of the content layer are registered.
    pub open spec fn inv(&self) -> bool {
        &&& self.db.inv()
        &&& self.engine.inv()
        &&& self.engine.registered().contains("frontmatter"@)
        &&& self.engine.registered().contains("content"@)
        &&& self.engine.registered().contains("as_html"@)
        &&& forall|i: int|
            0 <= i < self.cache@.len() ==> (#[trigger] self.cache@[i]).verified_at
                <= self.db.inputs.revision
    }

    /// What a query does to the context.
    pub open spec fn query_step(
        pre: Self,
        post: Self,
        kind: Seq<char>,
        arg: Seq<char>,
        r: Result<Answer, TaekoError>,
    ) -> bool {
        &&& post.engine.registered() == pre.engine.registered()
        &&& Self::answer_step(pre, post, kind, arg, r)
    }

    /// What a query answers, and what it does to the database, the cache and
    /// the queries under way.
    pub open spec fn answer_step(
        pre: Self,
        post: Self,
        kind: Seq<char>,
        arg: Seq<char>,
        r: Result<Answer, TaekoError>,
    ) -> bool {
        if !pre.engine.registered().contains(kind) {
            r == Err::<Answer, TaekoError>(TaekoError::UnregisteredQuery) && post == pre
        } else if under_way(pre.engine.frames(), kind, arg) {
            r == Err::<Answer, TaekoError>(TaekoError::CycleDetected) && post == pre
        } else if kind == "frontmatter"@ {
            &&& as_front(r) is Some
            &&& MarkdownDatabaseStruct::front_step(pre.db, post.db, arg, as_front(r)->0)
            &&& post.cache == pre.cache
            &&& post.engine.frames() == answered(pre.engine.frames(), kind, arg)
        } else if kind == "content"@ {
            &&& as_text(r) is Some
            &&& MarkdownDatabaseStruct::content_step(pre.db, post.db, arg, as_text(r)->0)
            &&& post.cache == pre.cache
            &&& post.engine.frames() == answered(pre.engine.frames(), kind, arg)
        } else if kind == "as_html"@ {
            &&& as_text(r) is Some
            &&& MarkdownDatabaseStruct::html_step(pre.db, post.db, arg, as_text(r)->0)
            &&& post.cache == pre.cache
            &&& post.engine.frames() == answered(pre.engine.frames(), kind, arg)
        } else if pre.cached(kind, arg) {
            &&& r == Ok::<Answer, TaekoError>(Answer::Text(entry_of(pre.cache@, kind, arg).value))
            &&& post.db == pre.db
            &&& post.cache == pre.cache
            &&& post.engine.frames() == recorded_all(
                recorded(pre.engine.frames(), DepView::Query(kind, arg)),
                deps_view(entry_of(pre.cache@, kind, arg).reads),
            )
        } else {
            &&& r == Ok::<Answer, TaekoError>(Answer::Run)
            &&& post.db == pre.db
            &&& post.cache == pre.cache
            &&& post.engine.frames() == pre.engine.frames().push(
                FrameView { kind: kind, arg: arg, reads: Seq::<DepView>::empty() },
            )
        }
    }

    /// The query of a further layer has a cached value that stands.
    pub open spec fn cached(&self, kind: Seq<char>, arg: Seq<char>) -> bool {
        has_entry(self.cache@, kind, arg) && stands(self.db.inputs, entry_of(self.cache@, kind, arg))
    }

    /// What completing the innermost query under way does to the context.
    pub open spec fn complete_step(pre: Self, post: Self, value: Seq<char>, done: bool) -> bool {
        if pre.engine.frames().len() == 0 {
            !done && post == pre
        } else {
            let f = pre.engine.frames().last();
            &&& done
            &&& post.db == pre.db
            &&& post.engine.frames() == recorded_all(
                recorded(pre.engine.frames().drop_last(), DepView::Query(f.kind, f.arg)),
                f.reads,
            )
            &&& has_entry(post.cache@, f.kind, f.arg)
            &&& entry_of(post.cache@, f.kind, f.arg).value@ == value
            &&& deps_view(entry_of(post.cache@, f.kind, f.arg).reads) == f.reads
            &&& entry_of(post.cache@, f.kind, f.arg).verified_at == pre.db.inputs.revision
            &&& forall|k: Seq<char>, a: Seq<char>|
                !(k == f.kind && a == f.arg) ==> (#[trigger] has_entry(post.cache@, k, a))
                    == has_entry(pre.cache@, k, a)
            &&& forall|k: Seq<char>, a: Seq<char>|
                !(k == f.kind && a == f.arg) && has_entry(pre.cache@, k, a) ==> (
                #[trigger] entry_of(post.cache@, k, a)) == entry_of(pre.cache@, k, a)
        }
    }

    /// A context with no input, with the kinds `frontmatter`, `content` and
    /// `as_html` registered and no query under way.
    pub fn new() -> (c: Self)
        ensures
            c.inv(),
            c.db.inputs.revision == 0,
            c.db.computations == 0,
            c.db.inputs.texts() == Map::<Seq<char>, Seq<char>>::empty(),
            c.db.inputs.blobs() == Map::<Seq<char>, Seq<u8>>::empty(),
            c.engine.frames() == Seq::<FrameView>::empty(),
            c.cache@.len() == 0,
            c.engine.registered() == Set::<Seq<char>>::empty().insert("frontmatter"@).insert(
                "content"@,
            ).insert("as_html"@),
    {
        let mut engine = QueryEngine::new();
        engine.register(String::from_str("frontmatter"));
        engine.register(String::from_str("content"));
        engine.register(String::from_str("as_html"));
        Context { db: MarkdownDatabaseStruct::new(), engine, cache: Vec::new() }
    }

    /// Tells whether no query is under way.
    pub fn is_idle(&self) -> (r: bool)
        ensures
            r == (self.engine.frames().len() == 0),
    {
        self.engine.stack.len() == 0
    }

    /// Registers a kind of query for a further layer.
    pub fn register(&mut self, kind: String)
        requires
            old(self).inv(),
        ensures
            final(self).inv(),
            final(self).db == old(self).db,
            final(self).cache == old(self).cache,
            final(self).engine.registered() == old(self).engine.registered().insert(kind@),
            final(self).engine.frames() == old(self).engine.frames(),
    {
        self.engine.register(kind);
    }

    /// Sets the text of a name. No query may be under way.
    pub fn set_text(&mut self, name: String, value: String)
        requires
            old(self).inv(),
            old(self).engine.frames().len() == 0,
            old(self).db.inputs.revision < u64::MAX,
        ensures
            final(self).inv(),
            final(self).engine == old(self).engine,
            final(self).cache == old(self).cache,
            MarkdownDatabaseStruct::text_step(old(self).db, final(self).db, name@, value@),
    {
        self.db.set_text(name, value);
    }

    /// Sets the blob of a name. No query may be under way.
    pub fn set_blob(&mut self, name: String, value: Vec<u8>)
        requires
            old(self).inv(),
            old(self).engine.frames().len() == 0,
            old(self).db.inputs.revision < u64::MAX,
        ensures
            final(self).inv(),
            final(self).engine == old(self).engine,
            final(self).cache == old(self).cache,
            final(self).db.inputs.blobs() == old(self).db.inputs.blobs().insert(name@, value@),
            final(self).db.inputs.texts == old(self).db.inputs.texts,
            final(self).db.inputs.revision == old(self).db.inputs.revision + 1,
            final(self).db.fronts == old(self).db.fronts,
            final(self).db.bodies == old(self).db.bodies,
            final(self).db.pages == old(self).db.pages,
            final(self).db.computations == old(self).db.computations,
    {
        self.db.set_blob(name, value);
    }

    /// Asks for the query of a kind and an argument.
    ///
    /// Fails with `UnregisteredQuery` where the kind was never registered and
    /// with `CycleDetected` where this very query is under way. A query of the
    /// content layer is answered, from the cache where that stands. A query of
    /// a further layer is answered where its cached value stands; else it is
    /// begun and left to the caller. A query that is answered is a dependency
    /// of the query under way around it, if there is one.
    pub fn query(&mut self, kind: String, arg: String) -> (r: Result<Answer, TaekoError>)
        requires
            old(self).inv(),
        ensures
            final(self).inv(),
            final(self).engine.registered() == old(self).engine.registered(),
            final(self).db.inputs == old(self).db.inputs,
            Self::query_step(*old(self), *final(self), kind@, arg@, r),
    {
        let front = kind == String::from_str("frontmatter");
        let body = kind == String::from_str("content");
        let html = kind == String::from_str("as_html");
        if !(front || body || html) && self.engine.is_registered(&kind)
            && !self.engine.is_under_way(&kind, &arg) {
            match find_entry(&self.cache, &kind, &arg) {
                Some(i) => {
                    proof {
                        lemma_entry_at(self.cache@, kind@, arg@, i as int);
                    }
                    if still_stands(&self.db.inputs, &self.cache[i]) {
                        let value = self.cache[i].value.clone();
                        self.engine.record(Dep::Query(kind, arg));
                        self.engine.record_all(&self.cache[i].reads);
                        return Ok(Answer::Text(value));
                    }
                },
                None => {},
            }
        }
        match self.engine.begin(kind, arg.clone()) {
            Err(e) => {
                return Err(e);
            },
            Ok(()) => {},
        }
        assert(self.engine.frames().drop_last() =~= old(self).engine.frames());
        if front || body || html {
            self.engine.record(Dep::Text(arg.clone()));
            assert(self.engine.frames().drop_last() =~= old(self).engine.frames());
            assert(self.engine.frames().last().reads =~= seq![DepView::Text(arg@)]);
        }
        if front {
            let r = self.db.frontmatter(arg);
            let _done = self.engine.finish();
            match r {
                Ok(o) => Ok(Answer::Front(o)),
                Err(e) => Err(e),
            }
        } else if body {
            let r = self.db.content(arg);
            let _done = self.engine.finish();
            match r {
                Ok(s) => Ok(Answer::Text(s)),
                Err(e) => Err(e),
            }
        } else if html {
            let r = self.db.as_html(arg);
            let _done = self.engine.finish();
            match r {
                Ok(s) => Ok(Answer::Text(s)),
                Err(e) => Err(e),
            }
        } else {
            Ok(Answer::Run)
        }
    }

    /// Ends the innermost query under way and caches `value` as its result,
    /// with what it read and the current revision. Returns whether a query was
    /// under way.
    pub fn complete(&mut self, value: String) -> (done: bool)
        requires
            old(self).inv(),
        ensures
            final(self).inv(),
            final(self).engine.registered() == old(self).engine.registered(),
            Self::complete_step(*old(self), *final(self), value@, done),
    {
        let rev: u64 = self.db.inputs.revision;
        match self.engine.finish() {
            None => false,
            Some(frame) => {
                let found = find_entry(&self.cache, &frame.kind, &frame.arg);
                let ghost kind = frame.kind@;
                let ghost arg = frame.arg@;
                let ghost before = self.cache@;
                let entry = Entry {
                    kind: frame.kind,
                    arg: frame.arg,
                    value,
                    reads: frame.reads,
                    verified_at: rev,
                };
                let k: usize = match found {
                    Some(i) => {
                        self.cache.set(i, entry);
                        i
                    },
                    None => {
                        self.cache.push(entry);
                        self.cache.len() - 1
                    },
                };
                proof {
                    let after = self.cache@;
                    assert(after[k as int] == entry);
                    assert(forall|j: int| 0 <= j < before.len() && j != k ==> after[j] == before[j]);
                    assert forall|j: int| 0 <= j < k implies !keyed(after, kind, arg, j) by {
                        assert(!keyed(before, kind, arg, j));
                    }
                    assert(entry_at(after, kind, arg, k as int));
                    lemma_entry_at(after, kind, arg, k as int);
                    assert forall|c: Seq<char>, a: Seq<char>, j: int|
                        !(c == kind && a == arg) implies keyed(after, c, a, j) == keyed(
                        before,
                        c,
                        a,
                        j,
                    ) by {}
                    assert forall|c: Seq<char>, a: Seq<char>| !(c == kind && a == arg) implies (
                    #[trigger] has_entry(after, c, a)) == has_entry(before, c, a) by {
                        if has_entry(before, c, a) {
                            let i = choose|i: int| entry_at(before, c, a, i);
                            assert(entry_at(after, c, a, i));
                        }
                        if has_entry(after, c, a) {
                            let i = choose|i: int| entry_at(after, c, a, i);
                            assert(keyed(before, c, a, i));
                            assert(entry_at(before, c, a, i));
                        }
                    }
                    assert forall|c: Seq<char>, a: Seq<char>|
                        !(c == kind && a == arg) && has_entry(before, c, a) implies (
                    #[trigger] entry_of(after, c, a)) == entry_of(before, c, a) by {
                        let i = choose|i: int| entry_at(before, c, a, i);
                        assert(entry_at(after, c, a, i));
                        lemma_entry_at(after, c, a, i);
                        lemma_entry_at(before, c, a, i);
                    }
                }
                true
            },
        }
    }

    /// Reads the text of a name for the innermost query under way, which has
    /// then read it, set or not.
    pub fn text(&mut self, name: String) -> (r: Result<String, TaekoError>)
        requires
            old(self).inv(),
        ensures
            final(self).inv(),
            final(self).db == old(self).db,
            final(self).cache == old(self).cache,
            final(self).engine.registered() == old(self).engine.registered(),
            final(self).engine.frames() == recorded(old(self).engine.frames(), DepView::Text(name@)),
            match r {
                Ok(v) => old(self).db.inputs.texts().contains_key(name@) && v@ == old(self).db.inputs.texts()[name@],
                Err(e) => e == TaekoError::NotFound && !old(self).db.inputs.texts().contains_key(
                    name@,
                ),
            },
    {
        let r = match self.db.inputs.text(&name) {
            Ok(v) => Ok(v.clone()),
            Err(e) => Err(e),
        };
        self.engine.record(Dep::Text(name));
        r
    }

    /// Reads the blob of a name for the innermost query under way, which has
    /// then read it, set or not.
    pub fn blob(&mut self, name: String) -> (r: Result<Vec<u8>, TaekoError>)
        requires
            old(self).inv(),
        ensures
            final(self).inv(),
            final(self).db == old(self).db,
            final(self).cache == old(self).cache,
            final(self).engine.registered() == old(self).engine.registered(),
            final(self).engine.frames() == recorded(old(self).engine.frames(), DepView::Blob(name@)),
            match r {
                Ok(v) => old(self).db.inputs.blobs().contains_key(name@) && v@ == old(self).db.inputs.blobs()[name@],
                Err(e) => e == TaekoError::NotFound && !old(self).db.inputs.blobs().contains_key(
                    name@,
                ),
            },
    {
        let r = match self.db.inputs.blob(&name) {
            Ok(v) => Ok(v.clone()),
            Err(e) => Err(e),
        };
        self.engine.record(Dep::Blob(name));
        r
    }

    /// Records that the innermost query under way has read `dep`.
    pub fn record(&mut self, dep: Dep)
        requires
            old(self).inv(),
        ensures
            final(self).inv(),
            final(self).db == old(self).db,
            final(self).cache == old(self).cache,
            final(self).engine.registered() == old(self).engine.registered(),
            final(self).engine.frames() == recorded(old(self).engine.frames(), dep@),
    {
        self.engine.record(dep);
    }

    /// Ends the innermost query under way without caching anything and hands
    /// it out with what it read.
    pub fn finish(&mut self) -> (r: Option<Frame>)
        requires
            old(self).inv(),
        ensures
            final(self).inv(),
            final(self).db == old(self).db,
            final(self).cache == old(self).cache,
            final(self).engine.registered() == old(self).engine.registered(),
            match r {
                None => old(self).engine.frames().len() == 0 && final(self).engine.frames() == old(self).engine.frames(),
                Some(f) => old(self).engine.frames().len() > 0 && f@ == old(self).engine.frames().last() && final(self).engine.frames() == recorded_all(
                    recorded(
                        old(self).engine.frames().drop_last(),
                        DepView::Query(f@.kind, f@.arg),
                    ),
                    f@.reads,
                ),
            },
    {
        self.engine.finish()
    }
}

} // verus!
