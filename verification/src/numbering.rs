//! What the numbering pass over a compiled text guarantees.
//!
//! A list can be compiled with a bare `?` for every parameter and the
//! placeholders numbered afterwards in one pass over the text. The laws here
//! say that the pass settles after one run, and that on such a list the
//! markers come out as `$1`, `$2`, and so on in the order of the leaves, which
//! is the order of the parameters: the pass gives the very text that the
//! compiler writes when it numbers the leaves itself. The second law needs
//! field names that hold no `?`: a field name is written into the text, and
//! the pass cannot tell a `?` there from a placeholder. That is why the
//! compiler of whole queries numbers the leaves itself.

use crate::json::Json;
use crate::query::{ItemView, LeafView, QueryView};
use crate::sql::{
    filter_items, item_numbered, item_params, item_sql, items_numbered, items_params, items_sql,
    items_unsupported, leaf_numbered, leaf_sql, leaf_token, limit_sql, marker, operation_sql,
    renumber, renumber_from, select_compiled, CompileError,
};
use crate::text::{decimal, digit_char};
use vstd::prelude::*;

verus! {

/// How many placeholders a text holds.
pub open spec fn count_marks(s: Seq<char>) -> nat
    decreases s.len(),
{
    if s.len() == 0 {
        0
    } else if s.first() == '?' {
        1 + count_marks(s.drop_first())
    } else {
        count_marks(s.drop_first())
    }
}

/// Whether no field name under an item holds a `?`.
pub open spec fn item_plain(item: ItemView) -> bool
    decreases item,
{
    match item {
        ItemView::Filter { leaf, .. } => count_marks(leaf.field) == 0,
        ItemView::Condition { children, .. } => items_plain(children),
    }
}

/// Whether no field name under a list holds a `?`.
pub open spec fn items_plain(items: Seq<ItemView>) -> bool
    decreases items,
{
    if items.len() == 0 {
        true
    } else {
        items_plain(items.drop_last()) && item_plain(items.last())
    }
}

/// A text none of whose characters is `?` holds no placeholder.
pub proof fn lemma_no_marks(s: Seq<char>)
    requires
        forall|i: int| 0 <= i < s.len() ==> s[i] != '?',
    ensures
        count_marks(s) == 0,
    decreases s.len(),
{
    if s.len() > 0 {
        lemma_no_marks(s.drop_first());
    }
}

/// The placeholders of two texts add up when the texts are joined.
pub proof fn lemma_count_concat(a: Seq<char>, b: Seq<char>)
    ensures
        count_marks(a + b) == count_marks(a) + count_marks(b),
    decreases a.len(),
{
    if a.len() == 0 {
        assert(a + b =~= b);
    } else {
        assert((a + b).drop_first() =~= a.drop_first() + b);
        lemma_count_concat(a.drop_first(), b);
    }
}

/// Numbering a joined text numbers its first part and then goes on in the
/// second with the next free number.
pub proof fn lemma_renumber_concat(a: Seq<char>, b: Seq<char>, n: nat)
    ensures
        renumber_from(a + b, n) == renumber_from(a, n) + renumber_from(b, n + count_marks(a)),
    decreases a.len(),
{
    if a.len() == 0 {
        assert(a + b =~= b);
        assert(renumber_from(a, n) + renumber_from(b, n) =~= renumber_from(b, n));
    } else {
        assert((a + b).drop_first() =~= a.drop_first() + b);
        assert((a + b).first() == a.first());
        if a.first() == '?' {
            lemma_renumber_concat(a.drop_first(), b, n + 1);
            assert(renumber_from(a + b, n) =~= renumber_from(a, n) + renumber_from(
                b,
                n + count_marks(a),
            ));
        } else {
            lemma_renumber_concat(a.drop_first(), b, n);
            assert(renumber_from(a + b, n) =~= renumber_from(a, n) + renumber_from(
                b,
                n + count_marks(a),
            ));
        }
    }
}

/// Numbering leaves a text without placeholders as it is.
pub proof fn lemma_renumber_plain(s: Seq<char>, n: nat)
    requires
        count_marks(s) == 0,
    ensures
        renumber_from(s, n) == s,
    decreases s.len(),
{
    if s.len() > 0 {
        lemma_renumber_plain(s.drop_first(), n);
        assert(seq![s.first()] + s.drop_first() =~= s);
    }
}

/// A decimal numeral holds no placeholder.
pub proof fn lemma_decimal_plain(n: nat)
    ensures
        count_marks(decimal(n)) == 0,
    decreases n,
{
    if n < 10 {
        lemma_no_marks(decimal(n));
    } else {
        lemma_decimal_plain(n / 10);
        let last = seq![digit_char(n % 10)];
        lemma_no_marks(last);
        assert(decimal(n) =~= decimal(n / 10) + last);
        lemma_count_concat(decimal(n / 10), last);
    }
}

/// A marker holds no placeholder.
pub proof fn lemma_marker_plain(n: nat)
    ensures
        count_marks(marker(n)) == 0,
{
    lemma_decimal_plain(n);
    lemma_no_marks(seq!['$']);
    lemma_count_concat(seq!['$'], decimal(n));
}

/// A numbered text holds no placeholder any more.
pub proof fn lemma_renumber_clears(s: Seq<char>, n: nat)
    ensures
        count_marks(renumber_from(s, n)) == 0,
    decreases s.len(),
{
    if s.len() > 0 {
        if s.first() == '?' {
            lemma_renumber_clears(s.drop_first(), n + 1);
            lemma_marker_plain(n);
            lemma_count_concat(marker(n), renumber_from(s.drop_first(), n + 1));
        } else {
            lemma_renumber_clears(s.drop_first(), n);
            lemma_no_marks(seq![s.first()]);
            lemma_count_concat(seq![s.first()], renumber_from(s.drop_first(), n));
        }
    }
}

/// Numbering is idempotent: a second pass over a numbered text changes
/// nothing.
pub proof fn lemma_renumber_idempotent(s: Seq<char>)
    ensures
        renumber(renumber(s)) == renumber(s),
{
    lemma_renumber_clears(s, 1);
    lemma_renumber_plain(renumber(s), 1);
}

/// The fixed pieces of the compiled text hold no placeholder, but for the
/// one that ends a leaf.
pub proof fn lemma_pieces(leaf: LeafView)
    ensures
        count_marks("data->'"@) == 0,
        count_marks("' "@) == 0,
        count_marks(" "@) == 0,
        count_marks("("@) == 0,
        count_marks(")"@) == 0,
        count_marks("AND"@) == 0,
        count_marks("OR"@) == 0,
        count_marks("NOT"@) == 0,
        count_marks(leaf_token(leaf)) == 0,
        " ?"@ == " "@ + seq!['?'],
{
    reveal_strlit("data->'");
    reveal_strlit("' ");
    reveal_strlit(" ");
    reveal_strlit("(");
    reveal_strlit(")");
    reveal_strlit("AND");
    reveal_strlit("OR");
    reveal_strlit("NOT");
    reveal_strlit("=");
    reveal_strlit("<>");
    reveal_strlit(">");
    reveal_strlit(" ?");
    assert("data->'"@.len() == 7);
    lemma_no_marks("data->'"@);
    assert("' "@.len() == 2);
    lemma_no_marks("' "@);
    assert(" "@.len() == 1);
    lemma_no_marks(" "@);
    assert("("@.len() == 1);
    lemma_no_marks("("@);
    assert(")"@.len() == 1);
    lemma_no_marks(")"@);
    assert("AND"@.len() == 3);
    lemma_no_marks("AND"@);
    assert("OR"@.len() == 2);
    lemma_no_marks("OR"@);
    assert("NOT"@.len() == 3);
    lemma_no_marks("NOT"@);
    assert("="@.len() == 1);
    lemma_no_marks("="@);
    assert("<>"@.len() == 2);
    lemma_no_marks("<>"@);
    assert(">"@.len() == 1);
    lemma_no_marks(">"@);
    lemma_no_marks(Seq::<char>::empty());
    assert(" ?"@.len() == 2);
    assert(" ?"@ =~= " "@ + seq!['?']);
}

/// A leaf whose field name holds no `?` holds one placeholder, and numbering
/// puts the marker with the next free number there.
pub proof fn lemma_leaf_numbered(leaf: LeafView, n: nat)
    requires
        count_marks(leaf.field) == 0,
    ensures
        renumber_from(leaf_sql(leaf), n) == leaf_numbered(leaf, n),
        count_marks(leaf_sql(leaf)) == 1,
{
    lemma_pieces(leaf);
    let head = "data->'"@ + leaf.field + "' "@ + leaf_token(leaf) + " "@;
    let mark = seq!['?'];
    lemma_count_concat("data->'"@, leaf.field);
    lemma_count_concat("data->'"@ + leaf.field, "' "@);
    lemma_count_concat("data->'"@ + leaf.field + "' "@, leaf_token(leaf));
    lemma_count_concat("data->'"@ + leaf.field + "' "@ + leaf_token(leaf), " "@);
    assert(count_marks(head) == 0);
    assert(leaf_sql(leaf) =~= head + mark);
    assert(mark.drop_first() =~= Seq::<char>::empty());
    assert(count_marks(Seq::<char>::empty()) == 0);
    assert(renumber_from(Seq::<char>::empty(), n + 1) =~= Seq::<char>::empty());
    assert(mark.first() == '?');
    assert(count_marks(mark) == 1);
    assert(renumber_from(mark, n) =~= marker(n));
    lemma_count_concat(head, mark);
    lemma_renumber_concat(head, mark, n);
    lemma_renumber_plain(head, n);
    assert(leaf_numbered(leaf, n) =~= head + marker(n));
}

/// On an item whose field names hold no `?`, numbering gives every leaf
/// the marker of its place, counted in list order from the next free number,
/// and the item holds as many placeholders as parameters.
pub proof fn lemma_item_numbered(item: ItemView, n: nat)
    requires
        item_plain(item),
    ensures
        renumber_from(item_sql(item), n) == item_numbered(item, n),
        count_marks(item_sql(item)) == item_params(item).len(),
    decreases item,
{
    match item {
        ItemView::Filter { leaf, .. } => {
            lemma_leaf_numbered(leaf, n);
        },
        ItemView::Condition { children, .. } => {
            lemma_items_numbered(children, n);
            lemma_pieces(arbitrary());
            let body = items_sql(children);
            lemma_count_concat("("@, body);
            lemma_count_concat("("@ + body, ")"@);
            lemma_renumber_concat("("@ + body, ")"@, n);
            lemma_renumber_concat("("@, body, n);
            lemma_renumber_plain("("@, n);
            lemma_renumber_plain(")"@, n + count_marks("("@ + body));
        },
    }
}

/// On a list whose field names hold no `?`, numbering gives every leaf the
/// marker of its place, counted in list order from the next free number, and
/// the list holds as many placeholders as parameters: the markers run from
/// the first number upwards with no gap and in the order of the parameters.
pub proof fn lemma_items_numbered(items: Seq<ItemView>, n: nat)
    requires
        items_plain(items),
    ensures
        renumber_from(items_sql(items), n) == items_numbered(items, n),
        count_marks(items_sql(items)) == items_params(items).len(),
    decreases items,
{
    if items.len() == 0 {
    } else if items.len() == 1 {
        lemma_item_numbered(items.last(), n);
        assert(items_params(items.drop_last()).len() == 0);
    } else {
        let front = items.drop_last();
        let last = items.last();
        let seen = items_params(front).len();
        lemma_items_numbered(front, n);
        lemma_item_numbered(last, n + seen);
        lemma_pieces(arbitrary());
        let a = items_sql(front);
        let joiner = " "@ + operation_sql(last.operation()) + " "@;
        lemma_count_concat(" "@, operation_sql(last.operation()));
        lemma_count_concat(" "@ + operation_sql(last.operation()), " "@);
        assert(count_marks(joiner) == 0);
        assert(items_sql(items) =~= a + joiner + item_sql(last));
        lemma_count_concat(a, joiner);
        lemma_count_concat(a + joiner, item_sql(last));
        lemma_renumber_concat(a + joiner, item_sql(last), n);
        lemma_renumber_concat(a, joiner, n);
        lemma_renumber_plain(joiner, n + count_marks(a));
        assert(items_numbered(items, n) =~= items_numbered(front, n) + joiner + item_numbered(
            last,
            n + seen,
        ));
    }
}

/// Where no field name holds a `?`, the `WHERE` clause of a compiled query
/// is what the numbering pass makes of its filter list written with bare
/// placeholders; a query without filter items has no such clause.
pub proof fn lemma_select_numbered(table: Seq<char>, query: QueryView)
    requires
        items_plain(filter_items(query)),
        items_unsupported(filter_items(query)) is None,
    ensures
        filter_items(query).len() == 0 ==> select_compiled(table, Some(query)) == Ok::<
            (Seq<char>, Seq<Json>),
            CompileError,
        >(("SELECT data FROM "@ + table + limit_sql(query.limit), Seq::empty())),
        filter_items(query).len() > 0 ==> select_compiled(table, Some(query)) == Ok::<
            (Seq<char>, Seq<Json>),
            CompileError,
        >(
            (
                "SELECT data FROM "@ + table + " WHERE "@ + renumber(
                    items_sql(filter_items(query)),
                ) + limit_sql(query.limit),
                items_params(filter_items(query)),
            ),
        ),
{
    lemma_items_numbered(filter_items(query), 1);
    if filter_items(query).len() == 0 {
        assert(items_params(filter_items(query)) =~= Seq::<Json>::empty());
        assert("SELECT data FROM "@ + table + Seq::<char>::empty() + limit_sql(query.limit)
            =~= "SELECT data FROM "@ + table + limit_sql(query.limit));
    } else {
        assert("SELECT data FROM "@ + table + (" WHERE "@ + items_numbered(
            filter_items(query),
            1,
        )) + limit_sql(query.limit) =~= "SELECT data FROM "@ + table + " WHERE "@ + renumber(
            items_sql(filter_items(query)),
        ) + limit_sql(query.limit));
    }
}

} // verus!
