//! What holds of the markdown database over several steps.

use vstd::prelude::*;
use crate::cache::{entry_of, has_entry, stands, unchanged_since};
use crate::context::{Answer, Context};
use crate::database::MarkdownDatabaseStruct;
use crate::decode::{from_text_result, parsed_view, Loader};
use crate::engine::{
    deps_view,
    lemma_recorded_all_keeps_keys,
    lemma_recorded_keeps_keys,
    recorded,
    under_way,
    DepView,
    FrameView,
};
use crate::error::TaekoError;
use crate::markdown::{
    content_result,
    front_result,
    front_view,
    html_result,
    markdown_html,
    markdown_path,
    text_view,
};
use crate::matter::{body_of, front_of};
use crate::store::TaekoCoreDatabase;

verus! {

/// A metadata query that follows another for the same path, with nothing set in
/// between, returns the same and leaves the database, and so the number of
/// derivations, as it is.
pub proof fn law_frontmatter_repeats(
    a: MarkdownDatabaseStruct,
    b: MarkdownDatabaseStruct,
    c: MarkdownDatabaseStruct,
    path: Seq<char>,
    first: Result<Option<String>, TaekoError>,
    second: Result<Option<String>, TaekoError>,
)
    requires
        MarkdownDatabaseStruct::front_step(a, b, path, first),
        MarkdownDatabaseStruct::front_step(b, c, path, second),
    ensures
        front_view(second) == front_view(first),
        c == b,
        c.computations == b.computations,
{
}

/// A body query that follows another for the same path, with nothing set in
/// between, returns the same and leaves the database, and so the number of
/// derivations, as it is.
pub proof fn law_content_repeats(
    a: MarkdownDatabaseStruct,
    b: MarkdownDatabaseStruct,
    c: MarkdownDatabaseStruct,
    path: Seq<char>,
    first: Result<String, TaekoError>,
    second: Result<String, TaekoError>,
)
    requires
        MarkdownDatabaseStruct::content_step(a, b, path, first),
        MarkdownDatabaseStruct::content_step(b, c, path, second),
    ensures
        text_view(second) == text_view(first),
        c == b,
        c.computations == b.computations,
{
}

/// An HTML query that follows another for the same path, with nothing set in
/// between, returns the same and leaves the database, and so the number of
/// derivations, as it is.
pub proof fn law_html_repeats(
    a: MarkdownDatabaseStruct,
    b: MarkdownDatabaseStruct,
    c: MarkdownDatabaseStruct,
    path: Seq<char>,
    first: Result<String, TaekoError>,
    second: Result<String, TaekoError>,
)
    requires
        MarkdownDatabaseStruct::html_step(a, b, path, first),
        MarkdownDatabaseStruct::html_step(b, c, path, second),
    ensures
        text_view(second) == text_view(first),
        c == b,
        c.computations == b.computations,
{
}

/// A metadata query takes the standing of no cached value away.
pub proof fn law_frontmatter_keeps_fresh(
    a: MarkdownDatabaseStruct,
    b: MarkdownDatabaseStruct,
    path: Seq<char>,
    r: Result<Option<String>, TaekoError>,
    m: Seq<char>,
)
    requires
        a.inv(),
        MarkdownDatabaseStruct::front_step(a, b, path, r),
    ensures
        a.front_fresh(m) ==> b.front_fresh(m),
        a.body_fresh(m) ==> b.body_fresh(m),
        a.page_fresh(m) ==> b.page_fresh(m),
{
    if m != path && a.front_fresh(m) {
        assert(b.fronts.has(m));
        assert(b.fronts.slot(m) == a.fronts.slot(m));
    }
}

/// A body query takes the standing of no cached value away.
pub proof fn law_content_keeps_fresh(
    a: MarkdownDatabaseStruct,
    b: MarkdownDatabaseStruct,
    path: Seq<char>,
    r: Result<String, TaekoError>,
    m: Seq<char>,
)
    requires
        a.inv(),
        MarkdownDatabaseStruct::content_step(a, b, path, r),
    ensures
        a.front_fresh(m) ==> b.front_fresh(m),
        a.body_fresh(m) ==> b.body_fresh(m),
        a.page_fresh(m) ==> b.page_fresh(m),
{
    if m != path && a.body_fresh(m) {
        assert(b.bodies.has(m));
        assert(b.bodies.slot(m) == a.bodies.slot(m));
    }
}

/// An HTML query takes the standing of no cached value away.
pub proof fn law_html_keeps_fresh(
    a: MarkdownDatabaseStruct,
    b: MarkdownDatabaseStruct,
    path: Seq<char>,
    r: Result<String, TaekoError>,
    m: Seq<char>,
)
    requires
        a.inv(),
        MarkdownDatabaseStruct::html_step(a, b, path, r),
    ensures
        a.front_fresh(m) ==> b.front_fresh(m),
        a.body_fresh(m) ==> b.body_fresh(m),
        a.page_fresh(m) ==> b.page_fresh(m),
{
    if m != path && a.body_fresh(m) {
        assert(b.bodies.has(m));
        assert(b.bodies.slot(m) == a.bodies.slot(m));
        if a.page_fresh(m) {
            assert(b.pages.has(m));
            assert(b.pages.slot(m) == a.pages.slot(m));
        }
    }
}

/// After a text is set, the queries for its name answer from the new value.
pub proof fn law_set_text_shows(
    a: MarkdownDatabaseStruct,
    b: MarkdownDatabaseStruct,
    name: Seq<char>,
    value: Seq<char>,
)
    requires
        MarkdownDatabaseStruct::text_step(a, b, name, value),
        markdown_path(name),
    ensures
        front_result(b.inputs.texts(), name) == Ok::<Option<Seq<char>>, TaekoError>(
            front_of(value),
        ),
        content_result(b.inputs.texts(), name) == Ok::<Seq<char>, TaekoError>(body_of(value)),
        html_result(b.inputs.texts(), name) == Ok::<Seq<char>, TaekoError>(
            markdown_html(body_of(value)),
        ),
{
}

/// After a text is set, a query for another name whose cached value stood
/// before still answers from the cache: it returns what it owed before and runs
/// no derivation.
pub proof fn law_set_text_spares_others(
    a: MarkdownDatabaseStruct,
    b: MarkdownDatabaseStruct,
    c: MarkdownDatabaseStruct,
    name: Seq<char>,
    value: Seq<char>,
    other: Seq<char>,
    front: Result<Option<String>, TaekoError>,
    body: Result<String, TaekoError>,
    html: Result<String, TaekoError>,
)
    requires
        a.inv(),
        MarkdownDatabaseStruct::text_step(a, b, name, value),
        other != name,
    ensures
        a.front_fresh(other) && MarkdownDatabaseStruct::front_step(b, c, other, front) ==> c == b
            && c.computations == a.computations && front_view(front) == front_result(
            a.inputs.texts(),
            other,
        ),
        a.body_fresh(other) && MarkdownDatabaseStruct::content_step(b, c, other, body) ==> c == b
            && c.computations == a.computations && text_view(body) == content_result(
            a.inputs.texts(),
            other,
        ),
        a.page_fresh(other) && MarkdownDatabaseStruct::html_step(b, c, other, html) ==> c == b
            && c.computations == a.computations && text_view(html) == html_result(
            a.inputs.texts(),
            other,
        ),
{
    assert(b.front_fresh(other) == a.front_fresh(other));
    assert(b.body_fresh(other) == a.body_fresh(other));
    assert(b.page_fresh(other) == a.page_fresh(other));
    assert(b.inputs.texts().contains_key(other) == a.inputs.texts().contains_key(other));
    if a.inputs.texts().contains_key(other) {
        assert(b.inputs.texts()[other] == a.inputs.texts()[other]);
    }
}

/// A query of a further layer that was completed is answered from the cache
/// when it is asked for again with nothing set in between: the answer is the
/// value that was cached, and neither the database nor the cache changes.
pub proof fn law_completed_is_answered(
    a: Context,
    b: Context,
    c: Context,
    value: Seq<char>,
    r: Result<Answer, TaekoError>,
)
    requires
        a.inv(),
        a.engine.frames().len() > 0,
        a.engine.frames().last().kind != "frontmatter"@,
        a.engine.frames().last().kind != "content"@,
        a.engine.frames().last().kind != "as_html"@,
        Context::complete_step(a, b, value, true),
        b.engine.registered() == a.engine.registered(),
        Context::query_step(
            b,
            c,
            a.engine.frames().last().kind,
            a.engine.frames().last().arg,
            r,
        ),
    ensures
        r is Ok,
        r->Ok_0 is Text,
        r->Ok_0->Text_0@ == value,
        c.db == b.db,
        c.cache == b.cache,
{
    let f = a.engine.frames().last();
    let rest = a.engine.frames().drop_last();
    let mid = recorded(rest, DepView::Query(f.kind, f.arg));
    lemma_recorded_keeps_keys(rest, DepView::Query(f.kind, f.arg));
    lemma_recorded_all_keeps_keys(mid, f.reads);
    if under_way(b.engine.frames(), f.kind, f.arg) {
        let i = choose|i: int|
            0 <= i < b.engine.frames().len() && (#[trigger] b.engine.frames()[i]).kind == f.kind
                && b.engine.frames()[i].arg == f.arg;
        assert(mid[i].kind == rest[i].kind);
        assert(a.engine.frames()[i].kind == f.kind && a.engine.frames()[i].arg == f.arg);
        assert(a.engine.frames()[a.engine.frames().len() - 1] == f);
        assert(false);
    }
    assert(a.engine.registered().contains(a.engine.frames()[a.engine.frames().len() - 1].kind));
    let e = entry_of(b.cache@, f.kind, f.arg);
    assert forall|i: int| 0 <= i < e.reads@.len() implies unchanged_since(
        b.db.inputs,
        #[trigger] deps_view(e.reads)[i],
        e.verified_at,
    ) by {}
}

/// After a text is set, a cached value of a further layer stands exactly as
/// before where the text was not read for it, and does not stand where it was.
pub proof fn law_set_text_and_the_cache(
    a: Context,
    b: Context,
    name: Seq<char>,
    value: Seq<char>,
    kind: Seq<char>,
    arg: Seq<char>,
)
    requires
        a.inv(),
        MarkdownDatabaseStruct::text_step(a.db, b.db, name, value),
        b.cache == a.cache,
        has_entry(a.cache@, kind, arg),
    ensures
        !deps_view(entry_of(a.cache@, kind, arg).reads).contains(DepView::Text(name)) ==> b.cached(
            kind,
            arg,
        ) == a.cached(kind, arg),
        deps_view(entry_of(a.cache@, kind, arg).reads).contains(DepView::Text(name)) ==> !b.cached(
            kind,
            arg,
        ),
{
    let e = entry_of(a.cache@, kind, arg);
    let reads = deps_view(e.reads);
    if !reads.contains(DepView::Text(name)) {
        assert forall|i: int| 0 <= i < e.reads@.len() implies unchanged_since(
            b.db.inputs,
            #[trigger] reads[i],
            e.verified_at,
        ) == unchanged_since(a.db.inputs, reads[i], e.verified_at) by {
            match reads[i] {
                DepView::Text(m) => {
                    assert(reads.contains(reads[i]));
                    assert(m != name);
                    assert(b.db.inputs.texts.has(m) == a.db.inputs.texts.has(m));
                    if a.db.inputs.texts.has(m) {
                        assert(b.db.inputs.texts.slot(m) == a.db.inputs.texts.slot(m));
                    }
                },
                _ => {},
            }
        }
        assert(stands(b.db.inputs, e) == stands(a.db.inputs, e));
    } else {
        let i = choose|i: int| 0 <= i < reads.len() && reads[i] == DepView::Text(name);
        assert(!unchanged_since(b.db.inputs, reads[i], e.verified_at));
    }
}

/// A decoding query that follows another for the same name, with nothing set
/// in between, returns the same and leaves the loader, and so the number of
/// decodings, as it is.
pub proof fn law_decoding_repeats(
    a: Loader,
    b: Loader,
    c: Loader,
    name: Seq<char>,
    first: Result<Vec<(String, String)>, TaekoError>,
    second: Result<Vec<(String, String)>, TaekoError>,
)
    requires
        Loader::decode_step(a, b, name, first),
        Loader::decode_step(b, c, name, second),
    ensures
        parsed_view(second) == parsed_view(first),
        c == b,
        c.decodes == b.decodes,
{
}

/// After a text is set, a decoding query for another name whose cached value
/// stood before still answers from the cache: it returns what it owed before
/// and runs no decoding.
pub proof fn law_set_text_spares_decoded(
    a: Loader,
    b: Loader,
    c: Loader,
    name: Seq<char>,
    value: Seq<char>,
    other: Seq<char>,
    r: Result<Vec<(String, String)>, TaekoError>,
)
    requires
        a.inv(),
        Loader::text_step(a, b, name, value),
        other != name,
        a.fresh(other),
        Loader::decode_step(b, c, other, r),
    ensures
        c == b,
        c.decodes == a.decodes,
        parsed_view(r) == from_text_result(a.inputs.texts(), a.format, other),
{
    assert(b.fresh(other) == a.fresh(other));
    assert(b.inputs.texts().contains_key(other) == a.inputs.texts().contains_key(other));
    assert(b.inputs.texts()[other] == a.inputs.texts()[other]);
}

/// A query that is under way is still under way after any query was asked for.
pub proof fn law_query_keeps_under_way(
    a: Context,
    b: Context,
    kind: Seq<char>,
    arg: Seq<char>,
    r: Result<Answer, TaekoError>,
    outer_kind: Seq<char>,
    outer_arg: Seq<char>,
)
    requires
        Context::query_step(a, b, kind, arg, r),
        under_way(a.engine.frames(), outer_kind, outer_arg),
    ensures
        under_way(b.engine.frames(), outer_kind, outer_arg),
{
    let before = a.engine.frames();
    let i = choose|i: int|
        0 <= i < before.len() && (#[trigger] before[i]).kind == outer_kind && before[i].arg
            == outer_arg;
    let asked = DepView::Query(kind, arg);
    lemma_recorded_keeps_keys(before, asked);
    lemma_recorded_all_keeps_keys(recorded(before, asked), seq![DepView::Text(arg)]);
    if has_entry(a.cache@, kind, arg) {
        lemma_recorded_all_keeps_keys(
            recorded(before, asked),
            deps_view(entry_of(a.cache@, kind, arg).reads),
        );
    }
    let after = b.engine.frames();
    assert(after.len() >= before.len());
    assert(after[i].kind == outer_kind && after[i].arg == outer_arg);
}

/// A query whose derivation asks for a second query, whose derivation asks for
/// the first again, is rejected: the third request fails with `CycleDetected`
/// and changes nothing.
pub proof fn law_cycle_is_rejected(
    a: Context,
    b: Context,
    c: Context,
    d: Context,
    first_kind: Seq<char>,
    first_arg: Seq<char>,
    second_kind: Seq<char>,
    second_arg: Seq<char>,
    second: Result<Answer, TaekoError>,
    again: Result<Answer, TaekoError>,
)
    requires
        Context::query_step(a, b, first_kind, first_arg, Ok(Answer::Run)),
        Context::query_step(b, c, second_kind, second_arg, second),
        Context::query_step(c, d, first_kind, first_arg, again),
    ensures
        again == Err::<Answer, TaekoError>(TaekoError::CycleDetected),
        d == c,
{
    let begun = FrameView { kind: first_kind, arg: first_arg, reads: Seq::<DepView>::empty() };
    assert(b.engine.frames() == a.engine.frames().push(begun));
    assert(b.engine.frames()[a.engine.frames().len() as int] == begun);
    assert(under_way(b.engine.frames(), first_kind, first_arg));
    law_query_keeps_under_way(b, c, second_kind, second_arg, second, first_kind, first_arg);
    assert(a.engine.registered().contains(first_kind));
}

} // verus!
