//! Writing settings back into the file they came from.
//!
//! A settings file belongs to whoever edits it: its comments and the keys that are
//! not known here stay as they are, and only the settings themselves are replaced.
//!
//! A table is described by its paths: the keys that lead from the table to each
//! item below it, the empty path being the table itself.

use vstd::prelude::*;

use crate::text::str_opt;

verus! {

/// The editable TOML document of `toml_edit`.
#[verifier::external_type_specification]
#[verifier::external_body]
pub struct ExDocumentMut(toml_edit::DocumentMut);

/// The TOML table of `toml_edit`.
#[verifier::external_type_specification]
#[verifier::external_body]
pub struct ExTable(toml_edit::Table);

/// What a table holds at each path: nothing more where the item is an
/// `Item::Table`, which is a table that is not written inline, and the text of the
/// item where it is anything else.
pub uninterp spec fn table_entries(t: toml_edit::Table) -> Map<Seq<Seq<char>>, Option<Seq<char>>>;

/// The whitespace and comments around the item at each path: what stands before and
/// behind its key where it is a value, and the decor that its table carries where it is
/// an `Item::Table`, which stands before and behind the header if there is one.
pub uninterp spec fn table_comments(t: toml_edit::Table) -> Map<
    Seq<Seq<char>>,
    (Seq<char>, Seq<char>),
>;

/// What the root table of a document holds, as [`table_entries`] says.
pub uninterp spec fn document_entries(d: toml_edit::DocumentMut) -> Map<
    Seq<Seq<char>>,
    Option<Seq<char>>,
>;

/// The comments of the root table of a document, as [`table_comments`] says.
pub uninterp spec fn document_comments(d: toml_edit::DocumentMut) -> Map<
    Seq<Seq<char>>,
    (Seq<char>, Seq<char>),
>;

/// The whitespace and comments after the last item of a document.
pub uninterp spec fn document_trailing(d: toml_edit::DocumentMut) -> Seq<char>;

/// The text of a document.
pub uninterp spec fn document_text(d: toml_edit::DocumentMut) -> Seq<char>;

/// What the parser makes of a text: the entries, the comments and the end of the
/// document, or its complaint.
pub uninterp spec fn parsed_toml(text: Seq<char>) -> Result<
    (Map<Seq<Seq<char>>, Option<Seq<char>>>, Map<Seq<Seq<char>>, (Seq<char>, Seq<char>)>, Seq<char>),
    Seq<char>,
>;

/// Whether an item is a table that is not written inline.
pub open spec fn is_table(m: Map<Seq<Seq<char>>, Option<Seq<char>>>, p: Seq<Seq<char>>) -> bool {
    m.contains_key(p) && m[p] is None
}

/// Whether entries are those of a table: there are finitely many, and only tables
/// lead on to other items.
pub open spec fn is_tree(m: Map<Seq<Seq<char>>, Option<Seq<char>>>) -> bool {
    &&& m.dom().finite()
    &&& is_table(m, Seq::empty())
    &&& forall|p: Seq<Seq<char>>, n: int|
        m.contains_key(p) && 0 <= n < p.len() ==> is_table(m, #[trigger] p.take(n))
}

/// The entries of the table at `key`.
pub open spec fn under<V>(m: Map<Seq<Seq<char>>, V>, key: Seq<char>) -> Map<Seq<Seq<char>>, V> {
    Map::new(
        |p: Seq<Seq<char>>| m.contains_key(seq![key] + p),
        |p: Seq<Seq<char>>| m[seq![key] + p],
    )
}

/// The entries with those at and below `key` replaced.
pub open spec fn with_under<V>(
    m: Map<Seq<Seq<char>>, V>,
    key: Seq<char>,
    sub: Map<Seq<Seq<char>>, V>,
) -> Map<Seq<Seq<char>>, V> {
    Map::new(
        |p: Seq<Seq<char>>|
            if p.len() > 0 && p[0] == key {
                sub.contains_key(p.skip(1))
            } else {
                m.contains_key(p)
            },
        |p: Seq<Seq<char>>|
            if p.len() > 0 && p[0] == key {
                sub[p.skip(1)]
            } else {
                m[p]
            },
    )
}

/// Whether something on the way to `p` is a value in `s`, so that nothing can be
/// below it.
pub open spec fn cut_off(
    s: Map<Seq<Seq<char>>, Option<Seq<char>>>,
    p: Seq<Seq<char>>,
) -> bool {
    exists|n: int|
        0 <= n <= p.len() && s.contains_key(#[trigger] p.take(n)) && s[p.take(n)] is Some
}

/// The entries of `d` with those of `s` written over them: everything of `s`, and
/// of `d` what `s` does not replace.
pub open spec fn merged(
    d: Map<Seq<Seq<char>>, Option<Seq<char>>>,
    s: Map<Seq<Seq<char>>, Option<Seq<char>>>,
) -> Map<Seq<Seq<char>>, Option<Seq<char>>> {
    Map::new(
        |p: Seq<Seq<char>>| s.contains_key(p) || (d.contains_key(p) && !cut_off(s, p)),
        |p: Seq<Seq<char>>|
            if s.contains_key(p) {
                s[p]
            } else {
                d[p]
            },
    )
}

/// Whether an item of `d` stays what it was, a table or a value, and so does
/// everything on the way to it, when `s` is written over `d`.
pub open spec fn keeps_kind(
    d: Map<Seq<Seq<char>>, Option<Seq<char>>>,
    s: Map<Seq<Seq<char>>, Option<Seq<char>>>,
    p: Seq<Seq<char>>,
) -> bool {
    &&& d.contains_key(p)
    &&& forall|n: int|
        0 <= n <= p.len() && s.contains_key(#[trigger] p.take(n)) ==> (is_table(s, p.take(n))
            <==> is_table(d, p.take(n)))
}

/// Whether the comments of every item of `d` that stays what it was are kept.
pub open spec fn comments_kept(
    d: Map<Seq<Seq<char>>, Option<Seq<char>>>,
    s: Map<Seq<Seq<char>>, Option<Seq<char>>>,
    before: Map<Seq<Seq<char>>, (Seq<char>, Seq<char>)>,
    after: Map<Seq<Seq<char>>, (Seq<char>, Seq<char>)>,
) -> bool {
    forall|p: Seq<Seq<char>>| #[trigger]
        keeps_kind(d, s, p) && before.contains_key(p) ==> after.contains_key(p) && after[p]
            == before[p]
}

/// `toml_edit`'s parser of documents. It is a function of the text, and the root of what
/// it reads is a table.
#[verifier::external_body]
fn parse_document(text: &str) -> (r: Result<toml_edit::DocumentMut, String>)
    ensures
        match r {
            Ok(d) => is_tree(document_entries(d)) && parsed_toml(text@) == Ok::<_, Seq<char>>(
                (document_entries(d), document_comments(d), document_trailing(d)),
            ),
            Err(e) => parsed_toml(text@) == Err::<
                (
                    Map<Seq<Seq<char>>, Option<Seq<char>>>,
                    Map<Seq<Seq<char>>, (Seq<char>, Seq<char>)>,
                    Seq<char>,
                ),
                _,
            >(e@),
        },
{
    text.parse::<toml_edit::DocumentMut>().map_err(|e| e.to_string())
}

/// The empty document, `DocumentMut::new`: only the root table, with no comments.
#[verifier::external_body]
fn empty_document() -> (r: toml_edit::DocumentMut)
    ensures
        document_entries(r) == empty_entries(),
        document_comments(r) == map![Seq::<Seq<char>>::empty() => (Seq::<char>::empty(), Seq::<char>::empty())],
        document_trailing(r) == Seq::<char>::empty(),
{
    toml_edit::DocumentMut::new()
}

/// `DocumentMut::as_table`: the root table. It panics where the root is no table.
#[verifier::external_body]
fn root_table(d: &toml_edit::DocumentMut) -> (r: &toml_edit::Table)
    requires
        is_tree(document_entries(*d)),
    ensures
        table_entries(*r) == document_entries(*d),
        table_comments(*r) == document_comments(*d),
{
    d.as_table()
}

/// `DocumentMut::as_table_mut`: the root table, through which the document is
/// changed. What follows the last item stays. It panics where the root is no table.
#[verifier::external_body]
fn root_table_mut(d: &mut toml_edit::DocumentMut) -> (r: &mut toml_edit::Table)
    requires
        is_tree(document_entries(*old(d))),
    ensures
        table_entries(*r) == document_entries(*old(d)),
        table_comments(*r) == document_comments(*old(d)),
        document_entries(*final(d)) == table_entries(*final(r)),
        document_comments(*final(d)) == table_comments(*final(r)),
        document_trailing(*final(d)) == document_trailing(*old(d)),
{
    d.as_table_mut()
}

/// The document as `toml_edit` displays it. Nothing is stated of how the text is laid
/// out, nor of what reading it again gives. It panics where the root is no table.
#[verifier::external_body]
fn render_document(d: &toml_edit::DocumentMut) -> (r: String)
    requires
        is_tree(document_entries(*d)),
    ensures
        r@ == document_text(*d),
{
    d.to_string()
}

/// The keys that `Table::iter` walks: each key of the table once.
#[verifier::external_body]
fn table_keys(t: &toml_edit::Table) -> (r: Vec<String>)
    ensures
        crate::text::texts(r@).no_duplicates(),
        forall|k: Seq<char>| #[trigger]
            crate::text::texts(r@).contains(k) <==> table_entries(*t).contains_key(seq![k]),
{
    t.iter().map(|(k, _)| k.to_string()).collect()
}

/// `Table::get`, where the item is a table.
#[verifier::external_body]
fn subtable<'a>(t: &'a toml_edit::Table, key: &str) -> (r: Option<&'a toml_edit::Table>)
    ensures
        r is Some <==> is_table(table_entries(*t), seq![key@]),
        r is Some ==> table_entries(*r->0) == under(table_entries(*t), key@),
        r is Some ==> table_comments(*r->0) == under(table_comments(*t), key@),
{
    match t.get(key) {
        Some(toml_edit::Item::Table(sub)) => Some(sub),
        _ => None,
    }
}

/// `Table::get_mut`, where the item is a table.
#[verifier::external_body]
fn subtable_mut<'a>(t: &'a mut toml_edit::Table, key: &str) -> (r: Option<&'a mut toml_edit::Table>)
    ensures
        r is Some <==> is_table(table_entries(*old(t)), seq![key@]),
        r is None ==> *final(t) == *old(t),
        r is Some ==> table_entries(*r->0) == under(table_entries(*old(t)), key@),
        r is Some ==> table_comments(*r->0) == under(table_comments(*old(t)), key@),
        r is Some ==> table_entries(*final(t)) == with_under(
            table_entries(*old(t)),
            key@,
            table_entries(*final(r->0)),
        ),
        r is Some ==> table_comments(*final(t)) == with_under(
            table_comments(*old(t)),
            key@,
            table_comments(*final(r->0)),
        ),
{
    match t.get_mut(key) {
        Some(toml_edit::Item::Table(sub)) => Some(sub),
        _ => None,
    }
}

/// `Table::contains_key`.
#[verifier::external_body]
fn holds_key(t: &toml_edit::Table, key: &str) -> (r: bool)
    ensures
        r == table_entries(*t).contains_key(seq![key@]),
{
    t.contains_key(key)
}

/// Assigns a copy of the item of `src` to what `Table::get_mut` finds in `t`. The
/// key and what stands around it stay, which are the item's comments where
/// neither the old item nor the new one is a table.
#[verifier::external_body]
fn overwrite_item(t: &mut toml_edit::Table, src: &toml_edit::Table, key: &str)
    requires
        table_entries(*old(t)).contains_key(seq![key@]),
        table_entries(*src).contains_key(seq![key@]),
    ensures
        table_entries(*final(t)) == with_under(
            table_entries(*old(t)),
            key@,
            under(table_entries(*src), key@),
        ),
        elsewhere_same(table_comments(*old(t)), table_comments(*final(t)), key@),
        !is_table(table_entries(*old(t)), seq![key@]) && !is_table(
            table_entries(*src),
            seq![key@],
        ) ==> same_at(table_comments(*old(t)), table_comments(*final(t)), seq![key@]),
{
    if let (Some(existing), Some(item)) = (t.get_mut(key), src.get(key)) {
        *existing = item.clone();
    }
}

/// `Table::insert` of a copy of the item of `src`, under a key that is not there.
#[verifier::external_body]
fn insert_item(t: &mut toml_edit::Table, src: &toml_edit::Table, key: &str)
    requires
        !table_entries(*old(t)).contains_key(seq![key@]),
        table_entries(*src).contains_key(seq![key@]),
    ensures
        table_entries(*final(t)) == with_under(
            table_entries(*old(t)),
            key@,
            under(table_entries(*src), key@),
        ),
        elsewhere_same(table_comments(*old(t)), table_comments(*final(t)), key@),
{
    if let Some(item) = src.get(key) {
        t.insert(key, item.clone());
    }
}

/// Whether the comments at a path are the same before and after.
pub open spec fn same_at(
    before: Map<Seq<Seq<char>>, (Seq<char>, Seq<char>)>,
    after: Map<Seq<Seq<char>>, (Seq<char>, Seq<char>)>,
    p: Seq<Seq<char>>,
) -> bool {
    before.contains_key(p) ==> after.contains_key(p) && after[p] == before[p]
}

/// Whether the comments that are not at or below `key` are the same before and
/// after.
pub open spec fn elsewhere_same(
    before: Map<Seq<Seq<char>>, (Seq<char>, Seq<char>)>,
    after: Map<Seq<Seq<char>>, (Seq<char>, Seq<char>)>,
    key: Seq<char>,
) -> bool {
    forall|p: Seq<Seq<char>>|
        (p.len() == 0 || p[0] != key) ==> #[trigger] same_at(before, after, p)
}

/// The entries of a document that holds nothing.
pub open spec fn empty_entries() -> Map<Seq<Seq<char>>, Option<Seq<char>>> {
    map![Seq::<Seq<char>>::empty() => None::<Seq<char>>]
}

/// The entries of `s` whose first key is among `ks`, and the table itself.
spec fn only(
    s: Map<Seq<Seq<char>>, Option<Seq<char>>>,
    ks: Seq<Seq<char>>,
) -> Map<Seq<Seq<char>>, Option<Seq<char>>> {
    Map::new(
        |p: Seq<Seq<char>>| s.contains_key(p) && (p.len() == 0 || ks.contains(p[0])),
        |p: Seq<Seq<char>>| s[p],
    )
}

proof fn lemma_under_tree(m: Map<Seq<Seq<char>>, Option<Seq<char>>>, key: Seq<char>)
    requires
        is_tree(m),
        is_table(m, seq![key]),
    ensures
        is_tree(under(m, key)),
        under(m, key).dom().len() < m.dom().len(),
{
    let sub = under(m, key);
    let f = |p: Seq<Seq<char>>| p.skip(1);
    let below = m.dom().filter(|p: Seq<Seq<char>>| p.len() > 0 && p[0] == key);
    m.dom().lemma_len_filter(|p: Seq<Seq<char>>| p.len() > 0 && p[0] == key);
    assert(below.subset_of(m.dom().remove(Seq::empty())));
    vstd::set_lib::lemma_len_subset(below, m.dom().remove(Seq::empty()));
    assert(below.map(f) =~= sub.dom()) by {
        assert forall|p: Seq<Seq<char>>| sub.dom().contains(p) implies below.map(f).contains(
            p,
        ) by {
            let q = seq![key] + p;
            assert(below.contains(q));
            assert(f(q) =~= p);
        }
        assert forall|p: Seq<Seq<char>>| below.map(f).contains(p) implies sub.dom().contains(
            p,
        ) by {
            let q = choose|q: Seq<Seq<char>>| below.contains(q) && f(q) == p;
            assert(seq![key] + p =~= q);
        }
    }
    vstd::set_lib::lemma_map_size_bound(below, sub.dom(), f);
    assert(seq![key] + Seq::<Seq<char>>::empty() =~= seq![key]);
    assert forall|p: Seq<Seq<char>>, n: int|
        sub.contains_key(p) && 0 <= n < p.len() implies is_table(sub, #[trigger] p.take(n)) by {
        assert((seq![key] + p).take(n + 1) =~= seq![key] + p.take(n));
    }
}

proof fn lemma_cut_off_below(
    s: Map<Seq<Seq<char>>, Option<Seq<char>>>,
    key: Seq<char>,
    t: Seq<Seq<char>>,
)
    requires
        is_tree(s),
    ensures
        cut_off(s, seq![key] + t) <==> cut_off(under(s, key), t),
{
    let p = seq![key] + t;
    if cut_off(s, p) {
        let n = choose|n: int|
            0 <= n <= p.len() && s.contains_key(#[trigger] p.take(n)) && s[p.take(n)] is Some;
        assert(p.take(0) =~= Seq::empty());
        assert(seq![key] + t.take(n - 1) =~= p.take(n));
        assert(under(s, key).contains_key(t.take(n - 1)));
    }
    if cut_off(under(s, key), t) {
        let n = choose|n: int|
            0 <= n <= t.len() && under(s, key).contains_key(#[trigger] t.take(n)) && under(
                s,
                key,
            )[t.take(n)] is Some;
        assert(p.take(n + 1) =~= seq![key] + t.take(n));
        assert(s.contains_key(p.take(n + 1)));
    }
}

proof fn lemma_cut_off_only(
    s: Map<Seq<Seq<char>>, Option<Seq<char>>>,
    ks: Seq<Seq<char>>,
    p: Seq<Seq<char>>,
)
    requires
        is_tree(s),
    ensures
        p.len() > 0 && ks.contains(p[0]) ==> (cut_off(only(s, ks), p) <==> cut_off(s, p)),
        p.len() == 0 || !ks.contains(p[0]) ==> !cut_off(only(s, ks), p),
{
    let o = only(s, ks);
    assert(p.take(0) =~= Seq::empty());
    if cut_off(o, p) {
        let n = choose|n: int|
            0 <= n <= p.len() && o.contains_key(#[trigger] p.take(n)) && o[p.take(n)] is Some;
        assert(n > 0);
        assert(p.take(n)[0] == p[0]);
        assert(s.contains_key(p.take(n)));
    }
    if cut_off(s, p) && p.len() > 0 && ks.contains(p[0]) {
        let n = choose|n: int|
            0 <= n <= p.len() && s.contains_key(#[trigger] p.take(n)) && s[p.take(n)] is Some;
        assert(n > 0);
        assert(p.take(n)[0] == p[0]);
        assert(o.contains_key(p.take(n)));
    }
}

/// Writing no key of `s` over `d` leaves `d`.
proof fn lemma_merge_nothing(
    d: Map<Seq<Seq<char>>, Option<Seq<char>>>,
    s: Map<Seq<Seq<char>>, Option<Seq<char>>>,
)
    requires
        is_tree(d),
        is_tree(s),
    ensures
        merged(d, only(s, Seq::empty())) == d,
{
    let m = merged(d, only(s, Seq::empty()));
    assert forall|p: Seq<Seq<char>>|
        #![trigger m.dom().contains(p)]
        #![trigger d.dom().contains(p)]
        #![trigger m[p]]
        m.contains_key(p) == d.contains_key(p) && (d.contains_key(p) ==> m[p] == d[p]) by {
        lemma_cut_off_only(s, Seq::empty(), p);
        if p.len() == 0 {
            assert(p =~= Seq::empty());
        }
    }
    assert(m =~= d);
}

/// Writing one more key of `s` over `d` is what merging one more key means.
proof fn lemma_merge_step(
    d: Map<Seq<Seq<char>>, Option<Seq<char>>>,
    s: Map<Seq<Seq<char>>, Option<Seq<char>>>,
    ks: Seq<Seq<char>>,
    key: Seq<char>,
    sub: Map<Seq<Seq<char>>, Option<Seq<char>>>,
)
    requires
        is_tree(d),
        is_tree(s),
        s.contains_key(seq![key]),
        !ks.contains(key),
        is_table(d, seq![key]) && is_table(s, seq![key]) ==> sub == merged(
            under(d, key),
            under(s, key),
        ),
        !(is_table(d, seq![key]) && is_table(s, seq![key])) ==> sub == under(s, key),
    ensures
        with_under(merged(d, only(s, ks)), key, sub) == merged(d, only(s, ks.push(key))),
        under(merged(d, only(s, ks)), key) == under(d, key),
        merged(d, only(s, ks)).contains_key(seq![key]) <==> d.contains_key(seq![key]),
        is_table(merged(d, only(s, ks)), seq![key]) <==> is_table(d, seq![key]),
{
    let m = merged(d, only(s, ks));
    let more = ks.push(key);
    let r = merged(d, only(s, more));
    let w = with_under(m, key, sub);
    lemma_cut_off_only(s, ks, seq![key]);
    assert(seq![key][0] == key);
    assert forall|t: Seq<Seq<char>>|
        #![trigger under(m, key).dom().contains(t)]
        #![trigger under(d, key).dom().contains(t)]
        #![trigger under(m, key)[t]]
        under(m, key).contains_key(t) == under(d, key).contains_key(t) && (under(
            d,
            key,
        ).contains_key(t) ==> under(m, key)[t] == under(d, key)[t]) by {
        lemma_cut_off_only(s, ks, seq![key] + t);
        assert((seq![key] + t)[0] == key);
    }
    assert(under(m, key) =~= under(d, key));
    assert forall|p: Seq<Seq<char>>|
        #![trigger w.dom().contains(p)]
        #![trigger r.dom().contains(p)]
        #![trigger w[p]]
        w.contains_key(p) == r.contains_key(p) && (r.contains_key(p) ==> w[p] == r[p]) by {
        lemma_cut_off_only(s, ks, p);
        lemma_cut_off_only(s, more, p);
        if p.len() > 0 {
            assert(more.contains(p[0]) <==> ks.contains(p[0]) || p[0] == key) by {
                if ks.contains(p[0]) {
                    let i = choose|i: int| 0 <= i < ks.len() && ks[i] == p[0];
                    assert(more[i] == p[0]);
                }
                assert(more[ks.len() as int] == key);
            }
        }
        if p.len() > 0 && p[0] == key {
            let t = p.skip(1);
            assert(seq![key] + t =~= p);
            lemma_cut_off_below(s, key, t);
            assert(p.take(1) =~= seq![key]);
            if !(is_table(d, seq![key]) && is_table(s, seq![key])) {
                if d.contains_key(p) && !s.contains_key(p) {
                    if p.len() > 1 {
                        assert(is_table(d, p.take(1)));
                    }
                    assert(s[p.take(1)] is Some);
                    assert(cut_off(s, p));
                }
            }
        }
    }
    assert(w =~= r);
}

/// Comments of items that keep their kind survive writing one more key.
proof fn lemma_comments_step(
    d: Map<Seq<Seq<char>>, Option<Seq<char>>>,
    s: Map<Seq<Seq<char>>, Option<Seq<char>>>,
    key: Seq<char>,
    start: Map<Seq<Seq<char>>, (Seq<char>, Seq<char>)>,
    before: Map<Seq<Seq<char>>, (Seq<char>, Seq<char>)>,
    after: Map<Seq<Seq<char>>, (Seq<char>, Seq<char>)>,
    sub: Map<Seq<Seq<char>>, (Seq<char>, Seq<char>)>,
)
    requires
        is_tree(d),
        is_tree(s),
        s.contains_key(seq![key]),
        comments_kept(d, s, start, before),
        is_table(d, seq![key]) && is_table(s, seq![key]) ==> {
            &&& after == with_under(before, key, sub)
            &&& comments_kept(under(d, key), under(s, key), under(before, key), sub)
        },
        !(is_table(d, seq![key]) && is_table(s, seq![key])) ==> {
            &&& elsewhere_same(before, after, key)
            &&& d.contains_key(seq![key]) && !is_table(d, seq![key]) && !is_table(s, seq![key])
                ==> same_at(before, after, seq![key])
        },
    ensures
        comments_kept(d, s, start, after),
{
    assert forall|p: Seq<Seq<char>>| #[trigger]
        keeps_kind(d, s, p) && start.contains_key(p) implies after.contains_key(p) && after[p]
        == start[p] by {
        assert(before.contains_key(p) && before[p] == start[p]);
        if p.len() > 0 && p[0] == key {
            let t = p.skip(1);
            assert(seq![key] + t =~= p);
            assert(p.take(1) =~= seq![key]);
            if p.len() > 1 {
                assert(is_table(d, p.take(1)));
            } else {
                assert(p =~= seq![key]);
            }
            assert(s.contains_key(p.take(1)));
            if is_table(d, seq![key]) {
                assert(is_table(s, seq![key]));
                assert(keeps_kind(under(d, key), under(s, key), t)) by {
                    assert forall|n: int|
                        0 <= n <= t.len() && under(s, key).contains_key(
                            #[trigger] t.take(n),
                        ) implies (is_table(under(s, key), t.take(n)) <==> is_table(
                        under(d, key),
                        t.take(n),
                    )) by {
                        assert(p.take(n + 1) =~= seq![key] + t.take(n));
                        assert(s.contains_key(p.take(n + 1)));
                    }
                }
                assert(under(before, key).contains_key(t));
            } else {
                assert(same_at(before, after, seq![key]));
            }
        } else {
            if !(is_table(d, seq![key]) && is_table(s, seq![key])) {
                assert(same_at(before, after, p));
            }
        }
    }
}

/// Write every key of `src` into `dst`, going down into the tables that both have,
/// so that the other keys of `dst` and their comments are left alone.
fn merge_toml_table(dst: &mut toml_edit::Table, src: &toml_edit::Table)
    requires
        is_tree(table_entries(*old(dst))),
        is_tree(table_entries(*src)),
    ensures
        table_entries(*final(dst)) == merged(table_entries(*old(dst)), table_entries(*src)),
        comments_kept(
            table_entries(*old(dst)),
            table_entries(*src),
            table_comments(*old(dst)),
            table_comments(*final(dst)),
        ),
    decreases table_entries(*src).dom().len(),
{
    let ghost d = table_entries(*dst);
    let ghost s = table_entries(*src);
    let ghost start = table_comments(*dst);
    let keys = table_keys(src);
    let ghost names = crate::text::texts(keys@);
    let mut i: usize = 0;
    proof {
        lemma_merge_nothing(d, s);
        assert(names.take(0) =~= Seq::empty());
    }
    while i < keys.len()
        invariant
            i <= keys@.len(),
            names == crate::text::texts(keys@),
            names.no_duplicates(),
            forall|k: Seq<char>| #[trigger] names.contains(k) <==> s.contains_key(seq![k]),
            is_tree(d),
            is_tree(s),
            s == table_entries(*src),
            table_entries(*dst) == merged(d, only(s, names.take(i as int))),
            comments_kept(d, s, start, table_comments(*dst)),
        decreases keys@.len() - i,
    {
        let key = keys[i].as_str();
        let ghost before = table_entries(*dst);
        let ghost noted = table_comments(*dst);
        let ghost sub = if is_table(d, seq![key@]) && is_table(s, seq![key@]) {
            merged(under(d, key@), under(s, key@))
        } else {
            under(s, key@)
        };
        proof {
            assert(names[i as int] == key@);
            assert(names.contains(key@));
            assert(!names.take(i as int).contains(key@));
            assert(names.take(i as int).push(key@) =~= names.take(i + 1));
            lemma_merge_step(d, s, names.take(i as int), key@, sub);
        }
        match subtable(src, key) {
            Some(src_sub) => {
                match subtable_mut(dst, key) {
                    Some(dst_sub) => {
                        proof {
                            lemma_under_tree(d, key@);
                            lemma_under_tree(s, key@);
                        }
                        merge_toml_table(dst_sub, src_sub);
                        let ghost sub_after = table_comments(*dst_sub);
                        proof {
                            lemma_comments_step(
                                d,
                                s,
                                key@,
                                start,
                                noted,
                                with_under(noted, key@, sub_after),
                                sub_after,
                            );
                        }
                    },
                    None => {
                        write_item(dst, src, key);
                        proof {
                            lemma_comments_step(
                                d,
                                s,
                                key@,
                                start,
                                noted,
                                table_comments(*dst),
                                Map::empty(),
                            );
                        }
                    },
                }
            },
            None => {
                write_item(dst, src, key);
                proof {
                    lemma_comments_step(
                        d,
                        s,
                        key@,
                        start,
                        noted,
                        table_comments(*dst),
                        Map::empty(),
                    );
                }
            },
        }
        i = i + 1;
    }
    proof {
        assert(names.take(i as int) =~= names);
        assert forall|p: Seq<Seq<char>>| s.contains_key(p) && p.len() > 0 implies names.contains(
            p[0],
        ) by {
            assert(p.take(1) =~= seq![p[0]]);
            if p.len() > 1 {
                assert(is_table(s, p.take(1)));
            } else {
                assert(p =~= p.take(1));
            }
        }
        assert(only(s, names) =~= s);
    }
}

/// Write one item of `src` into `dst`, over what is there or as a new key.
fn write_item(dst: &mut toml_edit::Table, src: &toml_edit::Table, key: &str)
    requires
        table_entries(*src).contains_key(seq![key@]),
    ensures
        table_entries(*final(dst)) == with_under(
            table_entries(*old(dst)),
            key@,
            under(table_entries(*src), key@),
        ),
        elsewhere_same(table_comments(*old(dst)), table_comments(*final(dst)), key@),
        table_entries(*old(dst)).contains_key(seq![key@]) && !is_table(
            table_entries(*old(dst)),
            seq![key@],
        ) && !is_table(table_entries(*src), seq![key@]) ==> same_at(
            table_comments(*old(dst)),
            table_comments(*final(dst)),
            seq![key@],
        ),
{
    if holds_key(dst, key) {
        overwrite_item(dst, src, key);
    } else {
        insert_item(dst, src, key);
    }
}

/// What a text holds as a settings file that is to be written over: what the
/// parser reads in it, or nothing where there is no text or it does not parse.
pub open spec fn existing_toml(text: Option<Seq<char>>) -> (
    Map<Seq<Seq<char>>, Option<Seq<char>>>,
    Map<Seq<Seq<char>>, (Seq<char>, Seq<char>)>,
    Seq<char>,
) {
    if text is Some && parsed_toml(text->0) is Ok {
        parsed_toml(text->0)->Ok_0
    } else {
        (
            empty_entries(),
            map![Seq::<Seq<char>>::empty() => (Seq::<char>::empty(), Seq::<char>::empty())],
            Seq::empty(),
        )
    }
}

/// Whether a document is an existing one with generated settings written over it.
pub open spec fn is_merge(
    doc: toml_edit::DocumentMut,
    existing: Option<Seq<char>>,
    generated: Map<Seq<Seq<char>>, Option<Seq<char>>>,
) -> bool {
    let (entries, comments, trailing) = existing_toml(existing);
    &&& document_entries(doc) == merged(entries, generated)
    &&& comments_kept(entries, generated, comments, document_comments(doc))
    &&& document_trailing(doc) == trailing
}

/// What is said of generated settings that do not parse.
pub open spec fn merge_failure_text(detail: Seq<char>) -> Seq<char> {
    "failed to parse serialized config: "@ + detail
}

/// Write generated settings over the text of an existing settings file. A file
/// that is missing or does not parse counts as empty. The result is the text of
/// the merged document; how that document is laid out as text is `toml_edit`'s.
pub fn merge_config_text(existing: Option<&str>, generated: &str) -> (r: Result<String, String>)
    ensures
        match parsed_toml(generated@) {
            Ok(new) => r matches Ok(text) && exists|doc: toml_edit::DocumentMut|
                text@ == #[trigger] document_text(doc) && is_merge(doc, str_opt(existing), new.0),
            Err(detail) => r matches Err(text) && text@ == merge_failure_text(detail) && text@
                == "failed to parse serialized config: "@ + detail,
        },
{
    let new_doc = match parse_document(generated) {
        Ok(d) => d,
        Err(e) => {
            let mut text = "failed to parse serialized config: ".to_owned();
            text.push_str(e.as_str());
            return Err(text);
        },
    };
    let mut doc = match existing {
        Some(text) => match parse_document(text) {
            Ok(d) => d,
            Err(_) => empty_document(),
        },
        None => empty_document(),
    };
    merge_toml_table(root_table_mut(&mut doc), root_table(&new_doc));
    proof {
        law_merge_is_tree(
            existing_toml(str_opt(existing)).0,
            document_entries(new_doc),
        );
    }
    let text = render_document(&doc);
    assert(text@ == document_text(doc) && is_merge(
        doc,
        str_opt(existing),
        document_entries(new_doc),
    ));
    Ok(text)
}

/// Every setting that was written is read back as it was written.
pub proof fn law_merge_reads_back(
    d: Map<Seq<Seq<char>>, Option<Seq<char>>>,
    s: Map<Seq<Seq<char>>, Option<Seq<char>>>,
    p: Seq<Seq<char>>,
)
    requires
        s.contains_key(p),
    ensures
        merged(d, s).contains_key(p),
        merged(d, s)[p] == s[p],
{
}

/// A key that the settings do not have, and that is not below one that they have
/// as a value, survives with its value.
pub proof fn law_merge_keeps_unknown(
    d: Map<Seq<Seq<char>>, Option<Seq<char>>>,
    s: Map<Seq<Seq<char>>, Option<Seq<char>>>,
    p: Seq<Seq<char>>,
)
    requires
        d.contains_key(p),
        !s.contains_key(p),
        !cut_off(s, p),
    ensures
        merged(d, s).contains_key(p),
        merged(d, s)[p] == d[p],
{
}

/// The comments at and below a key at the top of the file survive, if the settings do
/// not have that key.
pub proof fn law_merge_keeps_unknown_comments(
    d: Map<Seq<Seq<char>>, Option<Seq<char>>>,
    s: Map<Seq<Seq<char>>, Option<Seq<char>>>,
    before: Map<Seq<Seq<char>>, (Seq<char>, Seq<char>)>,
    after: Map<Seq<Seq<char>>, (Seq<char>, Seq<char>)>,
    p: Seq<Seq<char>>,
)
    requires
        is_tree(d),
        is_tree(s),
        comments_kept(d, s, before, after),
        p.len() > 0,
        d.contains_key(p),
        before.contains_key(p),
        !s.contains_key(seq![p[0]]),
    ensures
        after.contains_key(p),
        after[p] == before[p],
{
    assert forall|n: int|
        0 <= n <= p.len() && s.contains_key(#[trigger] p.take(n)) implies (is_table(s, p.take(n))
        <==> is_table(d, p.take(n))) by {
        if n == 0 {
            assert(p.take(0) =~= Seq::empty());
        } else {
            lemma_first_key(s, p.take(n));
            assert(p.take(n)[0] == p[0]);
        }
    }
    assert(keeps_kind(d, s, p));
}

/// The first key on the way to an item is itself that of an item.
proof fn lemma_first_key(m: Map<Seq<Seq<char>>, Option<Seq<char>>>, p: Seq<Seq<char>>)
    requires
        is_tree(m),
        m.contains_key(p),
        p.len() > 0,
    ensures
        m.contains_key(seq![p[0]]),
{
    assert(p.take(1) =~= seq![p[0]]);
    if p.len() > 1 {
        assert(is_table(m, p.take(1)));
    } else {
        assert(p =~= p.take(1));
    }
}

/// A merge goes key by key. The keys are those of both tables; what is at and below a
/// key that the settings do not have stays; two tables are merged in turn; and anything
/// else is what the settings have there.
pub proof fn law_merge_by_key(
    d: Map<Seq<Seq<char>>, Option<Seq<char>>>,
    s: Map<Seq<Seq<char>>, Option<Seq<char>>>,
    key: Seq<char>,
)
    requires
        is_tree(d),
        is_tree(s),
    ensures
        merged(d, s).contains_key(seq![key]) <==> d.contains_key(seq![key]) || s.contains_key(
            seq![key],
        ),
        !s.contains_key(seq![key]) ==> under(merged(d, s), key) == under(d, key),
        is_table(d, seq![key]) && is_table(s, seq![key]) ==> under(merged(d, s), key) == merged(
            under(d, key),
            under(s, key),
        ),
        s.contains_key(seq![key]) && !(is_table(d, seq![key]) && is_table(s, seq![key])) ==> under(
            merged(d, s),
            key,
        ) == under(s, key),
{
    let m = merged(d, s);
    let k = seq![key];
    assert(k + Seq::<Seq<char>>::empty() =~= k);
    lemma_cut_off_below(s, key, Seq::empty());
    assert forall|t: Seq<Seq<char>>| cut_off(s, k + t) implies s.contains_key(k) by {
        let p = k + t;
        let n = choose|n: int|
            0 <= n <= p.len() && s.contains_key(#[trigger] p.take(n)) && s[p.take(n)] is Some;
        assert(p.take(0) =~= Seq::empty());
        assert(p.take(n)[0] == key);
        lemma_first_key(s, p.take(n));
    }
    if cut_off(s, k) {
        assert(cut_off(s, k + Seq::<Seq<char>>::empty()));
    }
    if !s.contains_key(k) {
        assert forall|t: Seq<Seq<char>>| !s.contains_key(#[trigger] (k + t)) by {
            if s.contains_key(k + t) {
                lemma_first_key(s, k + t);
                assert((k + t)[0] == key);
            }
        }
        assert(under(m, key) =~= under(d, key));
    } else {
        let sub = if is_table(d, k) && is_table(s, k) {
            merged(under(d, key), under(s, key))
        } else {
            under(s, key)
        };
        assert forall|t: Seq<Seq<char>>|
            #![trigger under(m, key).dom().contains(t)]
            #![trigger sub.dom().contains(t)]
            #![trigger under(m, key)[t]]
            under(m, key).contains_key(t) == sub.contains_key(t) && (sub.contains_key(t) ==> under(
                m,
                key,
            )[t] == sub[t]) by {
            let p = k + t;
            lemma_cut_off_below(s, key, t);
            assert(p.take(1) =~= k);
            if !(is_table(d, k) && is_table(s, k)) && d.contains_key(p) && !s.contains_key(p) {
                if p.len() > 1 {
                    assert(is_table(d, p.take(1)));
                } else {
                    assert(p =~= k);
                }
                assert(s[p.take(1)] is Some);
                assert(cut_off(s, p));
            }
        }
        assert(under(m, key) =~= sub);
    }
}

/// What comes of a merge is again what a table can hold.
pub proof fn law_merge_is_tree(
    d: Map<Seq<Seq<char>>, Option<Seq<char>>>,
    s: Map<Seq<Seq<char>>, Option<Seq<char>>>,
)
    requires
        is_tree(d),
        is_tree(s),
    ensures
        is_tree(merged(d, s)),
{
    let m = merged(d, s);
    assert(m.dom().subset_of(d.dom().union(s.dom())));
    vstd::set_lib::lemma_set_subset_finite(d.dom().union(s.dom()), m.dom());
    assert forall|p: Seq<Seq<char>>, n: int|
        m.contains_key(p) && 0 <= n < p.len() implies is_table(m, #[trigger] p.take(n)) by {
        let q = p.take(n);
        if s.contains_key(p) {
            assert(is_table(s, q));
        } else {
            assert(is_table(d, q));
            assert(!cut_off(s, q)) by {
                if cut_off(s, q) {
                    let k = choose|k: int|
                        0 <= k <= q.len() && s.contains_key(#[trigger] q.take(k))
                            && s[q.take(k)] is Some;
                    assert(p.take(k) =~= q.take(k));
                }
            }
            if s.contains_key(q) {
                assert(q.take(q.len() as int) =~= q);
            }
        }
    }
}

/// Writing the same settings a second time changes nothing.
pub proof fn law_merge_idempotent(
    d: Map<Seq<Seq<char>>, Option<Seq<char>>>,
    s: Map<Seq<Seq<char>>, Option<Seq<char>>>,
)
    ensures
        merged(merged(d, s), s) == merged(d, s),
{
    assert(merged(merged(d, s), s) =~= merged(d, s));
}

/// Saving settings over a file that parses keeps what its owner wrote there: every entry
/// that the settings do not have and that is below no value of theirs, and what follows
/// the last one; and every setting is in the result as it was generated. A file that is
/// missing or does not parse counts as empty.
pub proof fn law_save_keeps_the_file(
    doc: toml_edit::DocumentMut,
    existing: Option<Seq<char>>,
    generated: Map<Seq<Seq<char>>, Option<Seq<char>>>,
    p: Seq<Seq<char>>,
)
    requires
        is_merge(doc, existing, generated),
    ensures
        generated.contains_key(p) ==> document_entries(doc).contains_key(p) && document_entries(
            doc,
        )[p] == generated[p],
        existing is Some && parsed_toml(existing->0) is Ok ==> {
            let old_file = parsed_toml(existing->0)->Ok_0;
            let clear = forall|n: int|
                0 <= n <= p.len() && generated.contains_key(#[trigger] p.take(n))
                    ==> generated[p.take(n)] is None;
            &&& (old_file.0.contains_key(p) && !generated.contains_key(p) && clear
                ==> document_entries(doc).contains_key(p) && document_entries(doc)[p]
                == old_file.0[p])
            &&& document_trailing(doc) == old_file.2
            &&& (document_entries(doc).contains_key(p) ==> generated.contains_key(p)
                || old_file.0.contains_key(p))
        },
        existing is None || parsed_toml(existing->0) is Err ==> (document_entries(
            doc,
        ).contains_key(p) ==> p.len() == 0 || generated.contains_key(p)),
{
}

/// The comments at a setting whose value is replaced by another value are kept.
pub proof fn law_merge_keeps_comments_of_values(
    d: Map<Seq<Seq<char>>, Option<Seq<char>>>,
    s: Map<Seq<Seq<char>>, Option<Seq<char>>>,
    before: Map<Seq<Seq<char>>, (Seq<char>, Seq<char>)>,
    after: Map<Seq<Seq<char>>, (Seq<char>, Seq<char>)>,
    p: Seq<Seq<char>>,
)
    requires
        is_tree(d),
        is_tree(s),
        comments_kept(d, s, before, after),
        d.contains_key(p),
        s.contains_key(p),
        d[p] is Some == s[p] is Some,
        before.contains_key(p),
    ensures
        after.contains_key(p),
        after[p] == before[p],
{
    assert forall|n: int|
        0 <= n <= p.len() && s.contains_key(#[trigger] p.take(n)) implies (is_table(s, p.take(n))
        <==> is_table(d, p.take(n))) by {
        if n < p.len() {
            assert(is_table(d, p.take(n)));
            assert(is_table(s, p.take(n)));
        } else {
            assert(p.take(n) =~= p);
        }
    }
    assert(keeps_kind(d, s, p));
}

/// A value that the settings replace by a table, or a table that they replace by a value,
/// leaves nothing of itself behind: below a value of the settings there is nothing.
pub proof fn law_merge_leaves_nothing_below_values(
    d: Map<Seq<Seq<char>>, Option<Seq<char>>>,
    s: Map<Seq<Seq<char>>, Option<Seq<char>>>,
    p: Seq<Seq<char>>,
    n: int,
)
    requires
        is_tree(s),
        0 <= n < p.len(),
        s.contains_key(p.take(n)),
        s[p.take(n)] is Some,
    ensures
        !merged(d, s).contains_key(p),
{
    if s.contains_key(p) {
        assert(is_table(s, p.take(n)));
    }
    assert(cut_off(s, p));
}

/// Without a settings file, and with one that cannot be read, there is nothing to keep:
/// no settings, no comments, and nothing at the end. One that can be read is kept as it
/// is read.
pub proof fn law_nothing_to_keep(text: Option<Seq<char>>, path: Seq<Seq<char>>)
    ensures
        text is None || parsed_toml(text->0) is Err ==> {
            let (entries, comments, trailing) = existing_toml(text);
            &&& path.len() > 0 ==> !entries.contains_key(path)
            &&& comments.contains_key(path) ==> comments[path].0.len() == 0
                && comments[path].1.len() == 0
            &&& trailing.len() == 0
        },
        text is Some && parsed_toml(text->0) is Ok ==> Ok::<_, Seq<char>>(existing_toml(text))
            == parsed_toml(text->0),
{
}

/// What is said of generated settings that do not parse ends with what the parser said.
pub proof fn law_merge_failure_quotes_the_parser(detail: Seq<char>)
    ensures
        ({
            let text = merge_failure_text(detail);
            let n = text.len() - detail.len();
            n == 35 && text.take(n) == "failed to parse serialized config: "@ && text.skip(n)
                == detail
        }),
{
    reveal_strlit("failed to parse serialized config: ");
    let text = merge_failure_text(detail);
    assert(text.take(35) =~= "failed to parse serialized config: "@);
    assert(text.skip(35) =~= detail);
}

} // verus!
