use vstd::prelude::*;

use crate::codegen::{binds, decodes, param_name, Getter, NamedParam, ParamPlan};
use crate::conformance::{conformance, first_missing, lemma_first_missing};
use crate::mapping::{clause_of, insert_body, joined, Derivee, OnConflict};

verus! {

/// When every item of `xs` that `b` lacks is `c`, and `xs` holds `c` while `b` does not,
/// the first item of `xs` missing from `b` is `c`.
proof fn lemma_only_missing(xs: Seq<Seq<char>>, b: Seq<Seq<char>>, c: Seq<char>)
    requires
        xs.contains(c),
        !b.contains(c),
        forall|x: Seq<char>| #[trigger] xs.contains(x) && !b.contains(x) ==> x == c,
    ensures
        first_missing(xs, b) == Some(c),
    decreases xs.len(),
{
    assert(xs.contains(xs[0]));
    if b.contains(xs[0]) {
        let rest = xs.drop_first();
        let k = choose|k: int| 0 <= k < xs.len() && xs[k] == c;
        assert(k != 0);
        assert(rest[k - 1] == c);
        assert forall|x: Seq<char>| #[trigger] rest.contains(x) && !b.contains(x) implies x == c by {
            let m = choose|m: int| 0 <= m < rest.len() && rest[m] == x;
            assert(xs[m + 1] == x);
            assert(xs.contains(x));
        }
        lemma_only_missing(rest, b, c);
    }
}

/// Items of `s.remove(i)` are items of `s`, and every item of `s` but `s[i]` is one of
/// `s.remove(i)`.
proof fn lemma_remove_items(s: Seq<Seq<char>>, i: int)
    requires
        0 <= i < s.len(),
    ensures
        forall|x: Seq<char>| #[trigger] s.remove(i).contains(x) ==> s.contains(x),
        forall|x: Seq<char>| #[trigger] s.contains(x) && x != s[i] ==> s.remove(i).contains(x),
        s.contains(s[i]),
{
    assert forall|x: Seq<char>| #[trigger] s.remove(i).contains(x) implies s.contains(x) by {
        let k = choose|k: int| 0 <= k < s.remove(i).len() && s.remove(i)[k] == x;
        if k < i {
            assert(s[k] == x);
        } else {
            assert(s[k + 1] == x);
        }
    }
    assert forall|x: Seq<char>| #[trigger] s.contains(x) && x != s[i] implies s.remove(i).contains(x) by {
        let k = choose|k: int| 0 <= k < s.len() && s[k] == x;
        if k < i {
            assert(s.remove(i)[k] == x);
        } else {
            assert(k != i);
            assert(s.remove(i)[k - 1] == x);
        }
    }
}

/// The items of `s.push(c)` are those of `s` and `c`.
proof fn lemma_push_items(s: Seq<Seq<char>>, c: Seq<char>)
    ensures
        forall|x: Seq<char>| #[trigger] s.push(c).contains(x) <==> s.contains(x) || x == c,
{
    assert forall|x: Seq<char>| #[trigger] s.push(c).contains(x) implies s.contains(x) || x == c by {
        let k = choose|k: int| 0 <= k < s.push(c).len() && s.push(c)[k] == x;
        if k < s.len() {
            assert(s[k] == x);
        }
    }
    assert forall|x: Seq<char>| s.contains(x) || x == c implies #[trigger] s.push(c).contains(x) by {
        if x == c {
            assert(s.push(c)[s.len() as int] == x);
        } else {
            let k = choose|k: int| 0 <= k < s.len() && s[k] == x;
            assert(s.push(c)[k] == x);
        }
    }
}

/// Two sequences hold the same items exactly when they make the same set.
proof fn lemma_to_set_items(a: Seq<Seq<char>>, b: Seq<Seq<char>>)
    ensures
        a.to_set() == b.to_set() <==> forall|x: Seq<char>| #[trigger] a.contains(x) <==> b.contains(x),
{
    if forall|x: Seq<char>| #[trigger] a.contains(x) <==> b.contains(x) {
        assert(a.to_set() =~= b.to_set());
    }
    if a.to_set() == b.to_set() {
        assert forall|x: Seq<char>| #[trigger] a.contains(x) <==> b.contains(x) by {
            assert(a.to_set().contains(x) == b.to_set().contains(x));
        }
    }
}

/// The schema check passes exactly when the declared columns and the schema's columns are the
/// same set of names.
pub proof fn lemma_conformance_iff_same_columns(declared: Seq<Seq<char>>, schema: Seq<Seq<char>>)
    ensures
        conformance(declared, schema) is Ok <==> declared.to_set() == schema.to_set(),
{
    lemma_first_missing(declared, schema);
    lemma_first_missing(schema, declared);
    lemma_to_set_items(declared, schema);
}

/// Starting from a passing schema check, a column added to the schema alone fails the check
/// as an unmapped column, and a column added to the mapping alone fails it as an undeclared
/// column.
pub proof fn lemma_conformance_added_column(declared: Seq<Seq<char>>, schema: Seq<Seq<char>>, c: Seq<char>)
    requires
        declared.to_set() == schema.to_set(),
        !declared.contains(c),
    ensures
        conformance(declared, schema.push(c)) == Err::<(), (bool, Seq<char>)>((false, c)),
        conformance(declared.push(c), schema) == Err::<(), (bool, Seq<char>)>((true, c)),
{
    lemma_to_set_items(declared, schema);
    lemma_push_items(schema, c);
    lemma_push_items(declared, c);
    lemma_first_missing(declared, schema.push(c));
    lemma_only_missing(schema.push(c), declared, c);
    lemma_only_missing(declared.push(c), schema, c);
}

/// Starting from a passing schema check, removing from the mapping a column that it declares
/// once fails the check as an unmapped column, and removing from the schema a column that it
/// holds once fails it as an undeclared column.
pub proof fn lemma_conformance_removed_column(declared: Seq<Seq<char>>, schema: Seq<Seq<char>>, i: int, j: int)
    requires
        declared.to_set() == schema.to_set(),
        0 <= i < declared.len(),
        !declared.remove(i).contains(declared[i]),
        0 <= j < schema.len(),
        !schema.remove(j).contains(schema[j]),
    ensures
        conformance(declared.remove(i), schema) == Err::<(), (bool, Seq<char>)>((false, declared[i])),
        conformance(declared, schema.remove(j)) == Err::<(), (bool, Seq<char>)>((true, schema[j])),
{
    lemma_to_set_items(declared, schema);
    lemma_remove_items(declared, i);
    lemma_remove_items(schema, j);
    lemma_first_missing(declared.remove(i), schema);
    assert forall|x: Seq<char>| #[trigger] schema.contains(x) && !declared.remove(i).contains(x)
        implies x == declared[i] by {
        assert(declared.contains(x));
    }
    assert forall|x: Seq<char>| #[trigger] declared.contains(x) && !schema.remove(j).contains(x)
        implies x == schema[j] by {
        assert(schema.contains(x));
    }
    assert(schema.contains(declared[i]));
    assert(declared.contains(schema[j]));
    lemma_only_missing(schema, declared.remove(i), declared[i]);
    lemma_only_missing(declared, schema.remove(j), schema[j]);
}

/// The insertion statement depends on the table and the column names alone: two mappings that
/// agree on them get the same text for every policy, whatever their field names and
/// conversion functions.
pub proof fn lemma_statement_determined(d1: Derivee, d2: Derivee, p: OnConflict)
    requires
        d1.table@ == d2.table@,
        d1.column_seq() == d2.column_seq(),
    ensures
        d1.statement(clause_of(p)) == d2.statement(clause_of(p)),
{
}

/// `Abort` adds no clause to the statement; each other policy adds `OR` and its own word,
/// and nothing else differs.
pub proof fn lemma_policy_clauses(d: Derivee, p: OnConflict)
    ensures
        d.statement(clause_of(OnConflict::Abort)) == "INSERT "@ + insert_body(d.table@, d.column_seq()),
        p != OnConflict::Abort ==> d.statement(clause_of(p)) == "INSERT "@ + "OR "@ + clause_of(p)->Some_0
            + " "@ + insert_body(d.table@, d.column_seq()),
        clause_of(OnConflict::Fail) == Some("FAIL"@),
        clause_of(OnConflict::Ignore) == Some("IGNORE"@),
        clause_of(OnConflict::Replace) == Some("REPLACE"@),
        clause_of(OnConflict::Rollback) == Some("ROLLBACK"@),
{
}

/// The name of each parameter.
pub open spec fn param_names(ps: Seq<NamedParam>) -> Seq<Seq<char>> {
    ps.map_values(|p: NamedParam| p.name@)
}

/// The parameters of a mapping come in the order of its columns, each named after its column.
pub proof fn lemma_param_order(d: Derivee, ps: Seq<NamedParam>)
    requires
        binds(ps, d),
    ensures
        param_names(ps) == d.column_seq().map_values(|c: Seq<char>| param_name(c)),
{
    assert(param_names(ps) =~= d.column_seq().map_values(|c: Seq<char>| param_name(c)));
}

/// Joining items each after `prefix` is joining the prefixed items.
proof fn lemma_joined_prefix(items: Seq<Seq<char>>, prefix: Seq<char>)
    ensures
        joined(items, prefix) == joined(items.map_values(|c: Seq<char>| prefix + c), Seq::empty()),
    decreases items.len(),
{
    let pre = items.map_values(|c: Seq<char>| prefix + c);
    if items.len() == 1 {
        assert(Seq::<char>::empty() + pre[0] =~= pre[0]);
    } else if items.len() > 1 {
        lemma_joined_prefix(items.drop_last(), prefix);
        assert(pre.drop_last() =~= items.drop_last().map_values(|c: Seq<char>| prefix + c));
        assert(joined(items, prefix) =~= joined(pre, Seq::empty()));
    }
}

/// What the bind plan writes and what the decode plan reads meet: the statement's values
/// are the parameter names joined in order; the parameter of each field is named after the
/// column that the field is decoded from; and the field bound there is the field filled.
pub proof fn lemma_codec_round_trip(d: Derivee, gs: Seq<Getter>, ps: Seq<NamedParam>)
    requires
        decodes(gs, d),
        binds(ps, d),
    ensures
        joined(d.column_seq(), ":"@) == joined(param_names(ps), Seq::empty()),
        forall|i: int| 0 <= i < ps.len() ==> #[trigger] ps[i].name@ == param_name(gs[i].column@)
            && gs[i].column@ == d.column_seq()[i],
        forall|i: int| 0 <= i < ps.len() ==> match #[trigger] ps[i].value {
            ParamPlan::Borrowed { field } => field@ == gs[i].field@,
            ParamPlan::Boxed { field, .. } => field@ == gs[i].field@,
        },
        forall|i: int| 0 <= i < ps.len() ==> (#[trigger] ps[i].value is Boxed <==> d.fields@[i].bind is Some)
            && (gs[i].read is Extract <==> d.fields@[i].extr is Some),
{
    lemma_param_order(d, ps);
    lemma_joined_prefix(d.column_seq(), ":"@);
    assert(param_names(ps) =~= d.column_seq().map_values(|c: Seq<char>| ":"@ + c));
}

} // verus!
