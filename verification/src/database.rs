//! The markdown database: the input store together with the cached forms of the
//! content layer's queries.
//!
//! Every cached value carries the revision at which it was last computed
//! (`verified_at`) and the revision at which it last came out different
//! (`changed_at`). A value derived from a text stands while the text has not
//! been set since; the HTML of a page stands while its body has not come out
//! different since. A query whose cached value stands changes nothing.

use vstd::prelude::*;
use vstd::string::*;
use crate::error::TaekoError;
use crate::markdown::{
    body_text,
    content_result,
    front_result,
    front_text,
    front_view,
    html_result,
    is_markdown_path,
    markdown_html,
    opt_view,
    render_markdown,
    text_view,
};
use crate::matter::{body_of, front_of};
use crate::store::{InputStore, TaekoCoreDatabase};
use crate::table::Table;

verus! {

/// The cached value of `n` was computed after the text `n` was last set.
pub open spec fn confirmed<V>(texts: Table<String>, memo: Table<V>, n: Seq<char>) -> bool {
    texts.has(n) && memo.has(n) && texts.slot(n).changed_at <= memo.slot(n).verified_at
}

/// A counter after one more step; it stays at its greatest value.
pub open spec fn bump(c: u64) -> u64 {
    if c < u64::MAX {
        (c + 1) as u64
    } else {
        c
    }
}

/// The input store and one table of cached values for each query of the content
/// layer, with the number of derivations that were run.
pub struct MarkdownDatabaseStruct {
    pub inputs: InputStore,
    pub fronts: Table<Option<String>>,
    pub bodies: Table<String>,
    pub pages: Table<String>,
    pub computations: u64,
}

/// The queries of the content layer, answered from a cache where it stands.
pub trait MarkdownDatabase: TaekoCoreDatabase {
    /// The raw metadata block of the markdown source at `path`.
    fn frontmatter(&mut self, path: String) -> (r: Result<Option<String>, TaekoError>)
        requires
            old(self).valid(),
        ensures
            final(self).valid(),
            final(self).texts() == old(self).texts(),
            final(self).blobs() == old(self).blobs(),
            final(self).revision() == old(self).revision(),
            front_view(r) == front_result(old(self).texts(), path@),
    ;

    /// The markdown source at `path` without its metadata block.
    fn content(&mut self, path: String) -> (r: Result<String, TaekoError>)
        requires
            old(self).valid(),
        ensures
            final(self).valid(),
            final(self).texts() == old(self).texts(),
            final(self).blobs() == old(self).blobs(),
            final(self).revision() == old(self).revision(),
            text_view(r) == content_result(old(self).texts(), path@),
    ;

    /// The body of the markdown source at `path`, converted to HTML.
    fn as_html(&mut self, path: String) -> (r: Result<String, TaekoError>)
        requires
            old(self).valid(),
        ensures
            final(self).valid(),
            final(self).texts() == old(self).texts(),
            final(self).blobs() == old(self).blobs(),
            final(self).revision() == old(self).revision(),
            text_view(r) == html_result(old(self).texts(), path@),
    ;
}

impl MarkdownDatabaseStruct {
    /// The cached metadata of `n` stands.
    pub open spec fn front_fresh(&self, n: Seq<char>) -> bool {
        confirmed(self.inputs.texts, self.fronts, n)
    }

    /// The cached body of `n` stands.
    pub open spec fn body_fresh(&self, n: Seq<char>) -> bool {
        confirmed(self.inputs.texts, self.bodies, n)
    }

    /// The cached HTML of `n` stands: its body stands and has not come out
    /// different since the HTML was computed.
    pub open spec fn page_fresh(&self, n: Seq<char>) -> bool {
        &&& self.body_fresh(n)
        &&& self.pages.has(n)
        &&& self.bodies.slot(n).changed_at <= self.pages.slot(n).verified_at
    }

    /// Every cached value that stands is the value that its derivation gives on
    /// the inputs as they are.
    pub open spec fn inv(&self) -> bool {
        &&& self.inputs.inv()
        &&& self.fronts.wf()
        &&& self.bodies.wf()
        &&& self.pages.wf()
        &&& forall|n: Seq<char>| #[trigger]
            self.fronts.has(n) ==> {
                &&& self.inputs.texts.has(n)
                &&& self.fronts.slot(n).verified_at <= self.inputs.revision
                &&& (self.front_fresh(n) ==> opt_view(self.fronts.slot(n).value) == front_of(
                    self.inputs.texts.slot(n).value@,
                ))
            }
        &&& forall|n: Seq<char>| #[trigger]
            self.bodies.has(n) ==> {
                &&& self.inputs.texts.has(n)
                &&& self.bodies.slot(n).changed_at <= self.bodies.slot(n).verified_at
                &&& self.bodies.slot(n).verified_at <= self.inputs.revision
                &&& (self.body_fresh(n) ==> self.bodies.slot(n).value@ == body_of(
                    self.inputs.texts.slot(n).value@,
                ))
            }
        &&& forall|n: Seq<char>| #[trigger]
            self.pages.has(n) ==> {
                &&& self.bodies.has(n)
                &&& self.pages.slot(n).verified_at <= self.inputs.revision
                &&& (self.inputs.texts.slot(n).changed_at <= self.pages.slot(n).verified_at
                    ==> self.body_fresh(n))
                &&& (self.bodies.slot(n).changed_at <= self.pages.slot(n).verified_at
                    ==> self.pages.slot(n).value@ == markdown_html(self.bodies.slot(n).value@))
            }
    }

    /// What a metadata query does to the database.
    pub open spec fn front_step(
        pre: Self,
        post: Self,
        path: Seq<char>,
        r: Result<Option<String>, TaekoError>,
    ) -> bool {
        &&& post.inv()
        &&& post.inputs == pre.inputs
        &&& post.bodies == pre.bodies
        &&& post.pages == pre.pages
        &&& front_view(r) == front_result(pre.inputs.texts(), path)
        &&& (r is Ok ==> post.front_fresh(path))
        &&& (r is Err || pre.front_fresh(path) ==> post == pre)
        &&& (r is Ok && !pre.front_fresh(path) ==> post.computations == bump(pre.computations))
        &&& forall|m: Seq<char>|
            m != path ==> (#[trigger] post.fronts.has(m)) == pre.fronts.has(m)
        &&& forall|m: Seq<char>|
            m != path && pre.fronts.has(m) ==> (#[trigger] post.fronts.slot(m))
                == pre.fronts.slot(m)
    }

    /// What a body query does to the database.
    pub open spec fn content_step(
        pre: Self,
        post: Self,
        path: Seq<char>,
        r: Result<String, TaekoError>,
    ) -> bool {
        &&& post.inv()
        &&& post.inputs == pre.inputs
        &&& post.fronts == pre.fronts
        &&& post.pages == pre.pages
        &&& text_view(r) == content_result(pre.inputs.texts(), path)
        &&& (r is Ok ==> post.body_fresh(path))
        &&& (r is Err || pre.body_fresh(path) ==> post == pre)
        &&& (r is Ok && !pre.body_fresh(path) ==> post.computations == bump(pre.computations))
        &&& forall|m: Seq<char>|
            m != path ==> (#[trigger] post.bodies.has(m)) == pre.bodies.has(m)
        &&& forall|m: Seq<char>|
            m != path && pre.bodies.has(m) ==> (#[trigger] post.bodies.slot(m))
                == pre.bodies.slot(m)
    }

    /// What an HTML query does to the database. It asks for the body first; the
    /// converter runs only where the body came out different since the cached
    /// HTML was computed, or where there is none.
    pub open spec fn html_step(
        pre: Self,
        post: Self,
        path: Seq<char>,
        r: Result<String, TaekoError>,
    ) -> bool {
        &&& post.inv()
        &&& post.inputs == pre.inputs
        &&& post.fronts == pre.fronts
        &&& text_view(r) == html_result(pre.inputs.texts(), path)
        &&& (r is Ok ==> post.page_fresh(path))
        &&& (r is Err || pre.page_fresh(path) ==> post == pre)
        &&& (r is Ok ==> post.computations == Self::html_count(pre, post, path))
        &&& forall|m: Seq<char>|
            m != path ==> (#[trigger] post.bodies.has(m)) == pre.bodies.has(m)
        &&& forall|m: Seq<char>|
            m != path && pre.bodies.has(m) ==> (#[trigger] post.bodies.slot(m))
                == pre.bodies.slot(m)
        &&& forall|m: Seq<char>| m != path ==> (#[trigger] post.pages.has(m)) == pre.pages.has(m)
        &&& forall|m: Seq<char>|
            m != path && pre.pages.has(m) ==> (#[trigger] post.pages.slot(m)) == pre.pages.slot(
                m,
            )
    }

    /// The number of derivations after a successful HTML query: one more where
    /// the body was computed, and one more where the converter ran.
    pub open spec fn html_count(pre: Self, post: Self, path: Seq<char>) -> u64 {
        let mid = if pre.body_fresh(path) {
            pre.computations
        } else {
            bump(pre.computations)
        };
        if pre.pages.has(path) && post.bodies.slot(path).changed_at <= pre.pages.slot(
            path,
        ).verified_at {
            mid
        } else {
            bump(mid)
        }
    }

    /// What setting a text does to the database: the cached values stay as they
    /// are, and those of every other name stand exactly where they stood.
    pub open spec fn text_step(pre: Self, post: Self, name: Seq<char>, value: Seq<char>) -> bool {
        &&& post.inv()
        &&& post.inputs.texts() == pre.inputs.texts().insert(name, value)
        &&& post.inputs.blobs == pre.inputs.blobs
        &&& post.inputs.revision == pre.inputs.revision + 1
        &&& post.inputs.texts.has(name)
        &&& post.inputs.texts.slot(name).changed_at == post.inputs.revision
        &&& forall|m: Seq<char>|
            m != name ==> (#[trigger] post.inputs.texts.has(m)) == pre.inputs.texts.has(m)
        &&& forall|m: Seq<char>|
            m != name && pre.inputs.texts.has(m) ==> (#[trigger] post.inputs.texts.slot(m))
                == pre.inputs.texts.slot(m)
        &&& post.fronts == pre.fronts
        &&& post.bodies == pre.bodies
        &&& post.pages == pre.pages
        &&& post.computations == pre.computations
        &&& !post.front_fresh(name)
        &&& !post.body_fresh(name)
        &&& !post.page_fresh(name)
        &&& forall|m: Seq<char>|
            m != name ==> (#[trigger] post.front_fresh(m)) == pre.front_fresh(m)
        &&& forall|m: Seq<char>| m != name ==> (#[trigger] post.body_fresh(m)) == pre.body_fresh(m)
        &&& forall|m: Seq<char>| m != name ==> (#[trigger] post.page_fresh(m)) == pre.page_fresh(m)
    }

    /// An empty database at revision zero.
    pub fn new() -> (db: Self)
        ensures
            db.inv(),
            db.inputs.revision == 0,
            db.computations == 0,
            db.inputs.texts() == Map::<Seq<char>, Seq<char>>::empty(),
            db.inputs.blobs() == Map::<Seq<char>, Seq<u8>>::empty(),
            forall|n: Seq<char>| !db.front_fresh(n) && !db.body_fresh(n) && !db.page_fresh(n),
    {
        MarkdownDatabaseStruct {
            inputs: InputStore::new(),
            fronts: Table::new(),
            bodies: Table::new(),
            pages: Table::new(),
            computations: 0,
        }
    }

    /// The number of derivations that were run so far.
    pub fn computations(&self) -> (c: u64)
        ensures
            c == self.computations,
    {
        self.computations
    }

    fn count(&mut self)
        ensures
            final(self).computations == bump(old(self).computations),
            final(self).inputs == old(self).inputs,
            final(self).fronts == old(self).fronts,
            final(self).bodies == old(self).bodies,
            final(self).pages == old(self).pages,
    {
        if self.computations < u64::MAX {
            self.computations = self.computations + 1;
        }
    }
}

impl TaekoCoreDatabase for MarkdownDatabaseStruct {
    open spec fn valid(&self) -> bool {
        self.inv()
    }

    open spec fn texts(&self) -> Map<Seq<char>, Seq<char>> {
        self.inputs.texts()
    }

    open spec fn blobs(&self) -> Map<Seq<char>, Seq<u8>> {
        self.inputs.blobs()
    }

    open spec fn revision(&self) -> nat {
        self.inputs.revision as nat
    }

    fn text(&self, name: &String) -> (r: Result<&String, TaekoError>) {
        self.inputs.text(name)
    }

    fn blob(&self, name: &String) -> (r: Result<&Vec<u8>, TaekoError>) {
        self.inputs.blob(name)
    }

    fn set_text(&mut self, name: String, value: String)
        ensures
            Self::text_step(*old(self), *final(self), name@, value@),
    {
        self.inputs.set_text(name, value);
    }

    fn set_blob(&mut self, name: String, value: Vec<u8>)
        ensures
            final(self).inputs.texts == old(self).inputs.texts,
            final(self).fronts == old(self).fronts,
            final(self).bodies == old(self).bodies,
            final(self).pages == old(self).pages,
            final(self).computations == old(self).computations,
    {
        self.inputs.set_blob(name, value);
    }
}

impl MarkdownDatabase for MarkdownDatabaseStruct {
    fn frontmatter(&mut self, path: String) -> (r: Result<Option<String>, TaekoError>)
        ensures
            Self::front_step(*old(self), *final(self), path@, r),
    {
        if !is_markdown_path(&path) {
            return Err(TaekoError::InvalidPath);
        }
        let text = match self.inputs.texts.get(&path) {
            Some(t) => t,
            None => {
                return Err(TaekoError::NotFound);
            },
        };
        match self.fronts.get(&path) {
            Some(m) => {
                if text.changed_at <= m.verified_at {
                    return Ok(
                        match &m.value {
                            Some(s) => Some(s.clone()),
                            None => None,
                        },
                    );
                }
            },
            None => {},
        }
        let front = front_text(text.value.as_str());
        let kept = match &front {
            Some(s) => Some(s.clone()),
            None => None,
        };
        let rev: u64 = self.inputs.revision;
        self.fronts.put(&path, kept, rev, rev);
        self.count();
        Ok(front)
    }

    fn content(&mut self, path: String) -> (r: Result<String, TaekoError>)
        ensures
            Self::content_step(*old(self), *final(self), path@, r),
    {
        if !is_markdown_path(&path) {
            return Err(TaekoError::InvalidPath);
        }
        let text = match self.inputs.texts.get(&path) {
            Some(t) => t,
            None => {
                return Err(TaekoError::NotFound);
            },
        };
        let rev: u64 = self.inputs.revision;
        let mut changed: u64 = rev;
        let body: String;
        match self.bodies.get(&path) {
            Some(m) => {
                if text.changed_at <= m.verified_at {
                    return Ok(m.value.clone());
                }
                body = body_text(text.value.as_str());
                if m.value == body {
                    changed = m.changed_at;
                }
            },
            None => {
                body = body_text(text.value.as_str());
            },
        }
        self.bodies.put(&path, body.clone(), changed, rev);
        self.count();
        Ok(body)
    }

    fn as_html(&mut self, path: String) -> (r: Result<String, TaekoError>)
        ensures
            Self::html_step(*old(self), *final(self), path@, r),
    {
        let body = match self.content(path.clone()) {
            Ok(b) => b,
            Err(e) => {
                return Err(e);
            },
        };
        let changed: u64 = match self.bodies.get(&path) {
            Some(m) => m.changed_at,
            None => {
                return Err(TaekoError::NotFound);
            },
        };
        match self.pages.get(&path) {
            Some(p) => {
                if changed <= p.verified_at {
                    return Ok(p.value.clone());
                }
            },
            None => {},
        }
        let html = render_markdown(body.as_str());
        let rev: u64 = self.inputs.revision;
        self.pages.put(&path, html.clone(), rev, rev);
        self.count();
        Ok(html)
    }
}

} // verus!
