//! What holds of the shapes of queries and of the declarations written from
//! them, whatever the queries are.

use crate::text::join;
use crate::ts_generator::generator::{render_blocks, render_file};
use crate::ts_generator::types::ordered::{lemma_ordered_values, ordered_values};
use crate::ts_generator::types::ts_field_type::{
    render_field, render_fields, render_rows, FieldType,
};
use crate::ts_generator::types::ts_query::{
    after_counted, after_numbered, after_placeholder, param_type, params_declaration, query_declaration,
    render_column, render_params, render_query, render_result, result_declaration,
    rows_in_order, QueryShape,
};
use vstd::prelude::*;

verus! {

/// `q` after one `?` placeholder for each of `inferred`, from left to right;
/// `None` where a `?` meets parameters that `$n` placeholders have set.
pub open spec fn after_counted_all(q: QueryShape, inferred: Seq<FieldType>) -> Option<QueryShape>
    decreases inferred.len(),
{
    if inferred.len() == 0 {
        Some(q)
    } else {
        match after_counted_all(q, inferred.drop_last()) {
            Some(before) => after_counted(before, inferred.last()),
            None => None,
        }
    }
}

/// A query that uses `?` placeholders alone has as many parameters as
/// placeholders, and their indices are 1 to that number, without a gap.
pub proof fn lemma_counted_indices(q: QueryShape, inferred: Seq<FieldType>)
    requires
        q.param_order == 0,
        forall|k: int| !q.params.contains_key(k),
    ensures
        after_counted_all(q, inferred) is Some,
        after_counted_all(q, inferred)->0.param_order == inferred.len(),
        forall|k: int|
            after_counted_all(q, inferred)->0.params.contains_key(k) <==> 1 <= k <= inferred.len(),
    decreases inferred.len(),
{
    if inferred.len() > 0 {
        lemma_counted_indices(q, inferred.drop_last());
    }
}

/// Such a query has as many parameters as placeholders.
pub proof fn lemma_counted_len(q: QueryShape, inferred: Seq<FieldType>)
    requires
        q.param_order == 0,
        forall|k: int| !q.params.contains_key(k),
    ensures
        after_counted_all(q, inferred) is Some,
        after_counted_all(q, inferred)->0.params.dom().finite(),
        after_counted_all(q, inferred)->0.params.dom().len() == inferred.len(),
{
    lemma_counted_indices(q, inferred);
    let indices = after_counted_all(q, inferred)->0.params.dom();
    let end = inferred.len() as int + 1;
    vstd::set_lib::lemma_int_range(1, end);
    assert(indices =~= vstd::set_lib::set_int_range(1, end));
}

/// The parameters of such a query are written in the order of the
/// placeholders.
pub proof fn lemma_counted_order(q: QueryShape, inferred: Seq<FieldType>)
    requires
        q.param_order == 0,
        forall|k: int| !q.params.contains_key(k),
    ensures
        after_counted_all(q, inferred) is Some,
        ordered_values(after_counted_all(q, inferred)->0.params) == Seq::new(
            inferred.len(),
            |i: int| param_type(q, i + 1, inferred[i]),
        ),
{
    lemma_counted_indices(q, inferred);
    lemma_counted_values(q, inferred);
    let after = after_counted_all(q, inferred)->0;
    let keys = Seq::new(inferred.len(), |i: int| i + 1);
    let values = Seq::new(inferred.len(), |i: int| param_type(q, i + 1, inferred[i]));
    assert forall|k: int| after.params.dom().contains(k) <==> keys.contains(k) by {
        if 1 <= k <= inferred.len() {
            assert(keys[k - 1] == k);
        }
    }
    lemma_ordered_values(after.params, keys, values);
}

/// Each parameter of such a query has the type of its annotation, or the
/// type inferred at its placeholder.
pub proof fn lemma_counted_values(q: QueryShape, inferred: Seq<FieldType>)
    requires
        q.param_order == 0,
        forall|k: int| !q.params.contains_key(k),
    ensures
        after_counted_all(q, inferred) is Some,
        after_counted_all(q, inferred)->0.annotated_params == q.annotated_params,
        forall|i: int|
            0 <= i < inferred.len() ==> #[trigger] after_counted_all(q, inferred)->0.params[i + 1]
                == param_type(q, i + 1, inferred[i]),
    decreases inferred.len(),
{
    lemma_counted_indices(q, inferred);
    if inferred.len() > 0 {
        lemma_counted_values(q, inferred.drop_last());
        lemma_counted_indices(q, inferred.drop_last());
        let before = after_counted_all(q, inferred.drop_last())->0;
        let after = after_counted_all(q, inferred)->0;
        assert forall|i: int| 0 <= i < inferred.len() implies #[trigger] after.params[i + 1]
            == param_type(q, i + 1, inferred[i]) by {
            if i < inferred.len() - 1 {
                assert(before.params[i + 1] == param_type(q, i + 1, inferred.drop_last()[i]));
            }
        }
    }
}

/// In a query without annotations that uses `?` placeholders alone, the
/// parameter with the index `i` has the type inferred at the `i`-th
/// placeholder, and a `?` handed to `insert_param` is counted as one.
pub proof fn lemma_counted_without_annotations(q: QueryShape, inferred: Seq<FieldType>)
    requires
        q.param_order == 0,
        forall|k: int| !q.params.contains_key(k),
        forall|k: int| !q.annotated_params.contains_key(k),
    ensures
        after_counted_all(q, inferred) is Some,
        forall|i: int|
            0 <= i < inferred.len() ==> #[trigger] after_counted_all(q, inferred)->0.params[i + 1]
                == inferred[i],
        forall|shape: QueryShape, value: FieldType|
            #[trigger] after_placeholder(shape, value, Some("?"@)) == after_counted(shape, value),
{
    lemma_counted_values(q, inferred);
}

/// The indices that stand in the first `n` of `placeholders`.
pub open spec fn indices_of(placeholders: Seq<(int, FieldType)>, n: nat) -> Set<int>
    decreases n,
{
    if n == 0 || n > placeholders.len() {
        Set::empty()
    } else {
        indices_of(placeholders, (n - 1) as nat).insert(placeholders[n - 1].0)
    }
}

/// `q` after one `$n` placeholder for each of the first `n` of
/// `placeholders`; `None` where a `$n` comes after a `?`.
pub open spec fn after_numbered_first(
    q: QueryShape,
    placeholders: Seq<(int, FieldType)>,
    n: nat,
) -> Option<QueryShape>
    decreases n,
{
    if n == 0 || n > placeholders.len() {
        Some(q)
    } else {
        match after_numbered_first(q, placeholders, (n - 1) as nat) {
            Some(before) => after_numbered(before, placeholders[n - 1].0, placeholders[n - 1].1),
            None => None,
        }
    }
}

/// In a query that uses `$n` placeholders alone, the indices of the
/// parameters are the numbers that stand in its placeholders, each once
/// however often it stands there.
pub proof fn lemma_numbered_indices(q: QueryShape, placeholders: Seq<(int, FieldType)>, n: nat)
    requires
        q.param_order == 0,
        n <= placeholders.len(),
    ensures
        after_numbered_first(q, placeholders, n) is Some,
        after_numbered_first(q, placeholders, n)->0.param_order == 0,
        after_numbered_first(q, placeholders, n)->0.params.dom() == q.params.dom().union(
            indices_of(placeholders, n),
        ),
    decreases n,
{
    if n > 0 {
        lemma_numbered_indices(q, placeholders, (n - 1) as nat);
        let before = after_numbered_first(q, placeholders, (n - 1) as nat)->0;
        let after = after_numbered_first(q, placeholders, n)->0;
        assert(after.params.dom() =~= before.params.dom().insert(placeholders[n - 1].0));
        assert(after.params.dom() =~= q.params.dom().union(indices_of(placeholders, n)));
    } else {
        assert(q.params.dom() =~= q.params.dom().union(indices_of(placeholders, n)));
    }
}

/// A parameter with an annotation has the type of the annotation, whatever
/// type is inferred for it and whichever kind of placeholder sets it.
pub proof fn lemma_annotation_wins(
    q: QueryShape,
    index: int,
    inferred: FieldType,
    other: FieldType,
)
    requires
        q.annotated_params.contains_key(index),
    ensures
        param_type(q, index, inferred) == q.annotated_params[index],
        after_numbered(q, index, inferred) == after_numbered(q, index, other),
        after_numbered(q, index, inferred) matches Some(after) ==> after.params[index]
            == q.annotated_params[index] && render_field(after.params[index]) == render_field(
            q.annotated_params[index],
        ),
        q.param_order + 1 == index ==> after_counted(q, inferred) == after_counted(q, other) && (
        after_counted(q, inferred) matches Some(after) ==> after.params[index]
            == q.annotated_params[index]),
{
}

/// The text written for a query is made of three declarations, each once
/// and in this order: the tuple of the parameters, the interface of a row of
/// the result, and the interface that names both. All three carry the name
/// of the query.
pub proof fn lemma_three_declarations(q: QueryShape)
    ensures
        render_query(q) == "\n"@ + params_declaration(q.name, render_params(q)) + "\n"@
            + result_declaration(q.name, render_result(q)) + "\n"@ + query_declaration(q.name)
            + "\n"@,
{
}

/// Whether `text` holds no backtick, the character that opens and closes a
/// template.
pub open spec fn no_backtick(text: Seq<char>) -> bool {
    forall|i: int| 0 <= i < text.len() ==> text[i] != '`'
}

/// Parts without a backtick, joined with a separator without one, hold none.
proof fn lemma_join_no_backtick(parts: Seq<Seq<char>>, sep: Seq<char>)
    requires
        no_backtick(sep),
        forall|i: int| 0 <= i < parts.len() ==> no_backtick(#[trigger] parts[i]),
    ensures
        no_backtick(join(parts, sep)),
    decreases parts.len(),
{
    if parts.len() > 1 {
        lemma_join_no_backtick(parts.drop_last(), sep);
        assert(no_backtick(parts[parts.len() - 1]));
    } else if parts.len() == 1 {
        assert(no_backtick(parts[0]));
    }
}

/// The words and signs that types are written with hold no backtick.
proof fn lemma_words_no_backtick()
    ensures
        no_backtick("boolean"@),
        no_backtick("number"@),
        no_backtick("string"@),
        no_backtick("object"@),
        no_backtick("Date"@),
        no_backtick("any"@),
        no_backtick("null"@),
        no_backtick("never"@),
        no_backtick("Array<"@),
        no_backtick(">"@),
        no_backtick("["@),
        no_backtick("]"@),
        no_backtick(", "@),
        no_backtick(" | "@),
        no_backtick(": "@),
        no_backtick(";"@),
        no_backtick("\n\t"@),
{
    reveal_strlit("boolean");
    reveal_strlit("number");
    reveal_strlit("string");
    reveal_strlit("object");
    reveal_strlit("Date");
    reveal_strlit("any");
    reveal_strlit("null");
    reveal_strlit("never");
    reveal_strlit("Array<");
    reveal_strlit(">");
    reveal_strlit("[");
    reveal_strlit("]");
    reveal_strlit(", ");
    reveal_strlit(" | ");
    reveal_strlit(": ");
    reveal_strlit(";");
    reveal_strlit("\n\t");
}

/// The text of a type holds no backtick.
proof fn lemma_field_no_backtick(t: FieldType)
    ensures
        no_backtick(render_field(t)),
    decreases t,
{
    lemma_words_no_backtick();
    match t {
        FieldType::Array(inner) => {
            lemma_field_no_backtick(*inner);
        },
        FieldType::Array2D(rows) => {
            assert forall|i: int| 0 <= i < rows.len() implies no_backtick(
                #[trigger] render_rows(rows)[i],
            ) by {
                assert forall|j: int| 0 <= j < rows[i].len() implies no_backtick(
                    #[trigger] render_fields(rows[i])[j],
                ) by {
                    lemma_field_no_backtick(rows[i][j]);
                }
                lemma_join_no_backtick(render_fields(rows[i]), ", "@);
            }
            lemma_join_no_backtick(render_rows(rows), ", "@);
        },
        _ => {},
    }
}

/// The texts of types, joined, hold no backtick.
proof fn lemma_fields_no_backtick(types: Seq<FieldType>, sep: Seq<char>)
    requires
        no_backtick(sep),
    ensures
        no_backtick(join(render_fields(types), sep)),
{
    assert forall|j: int| 0 <= j < types.len() implies no_backtick(
        #[trigger] render_fields(types)[j],
    ) by {
        lemma_field_no_backtick(types[j]);
    }
    lemma_join_no_backtick(render_fields(types), sep);
}

/// The declarations written for a query hold no backtick, and so no
/// template, as long as the name of the query and the labels of its columns
/// hold none: read again, they give no query.
pub proof fn lemma_declarations_hold_no_template(q: QueryShape)
    requires
        no_backtick(q.name),
        forall|i: int| 0 <= i < q.result.len() ==> no_backtick((#[trigger] q.result[i]).0),
    ensures
        no_backtick(render_query(q)),
{
    lemma_words_no_backtick();
    reveal_strlit("\n");
    reveal_strlit("\nexport type ");
    reveal_strlit("Params = [");
    reveal_strlit("];\n");
    reveal_strlit("\nexport interface I");
    reveal_strlit("Result {\n    ");
    reveal_strlit("\n};\n");
    reveal_strlit("Query {\n    params: ");
    reveal_strlit("Params;\n    result: I");
    reveal_strlit("Result;\n};\n");
    let rows = rows_in_order(q.insert_params);
    assert forall|i: int| 0 <= i < rows.len() implies no_backtick(
        #[trigger] render_rows(rows)[i],
    ) by {
        lemma_fields_no_backtick(rows[i], ", "@);
    }
    lemma_join_no_backtick(render_rows(rows), ", "@);
    lemma_fields_no_backtick(ordered_values(q.params), ", "@);
    assert(no_backtick(render_params(q)));
    let lines = q.result.map_values(|entry: (Seq<char>, Seq<FieldType>)| render_column(entry));
    assert forall|i: int| 0 <= i < lines.len() implies no_backtick(#[trigger] lines[i]) by {
        lemma_fields_no_backtick(q.result[i].1, " | "@);
        assert(no_backtick(q.result[i].0));
    }
    lemma_join_no_backtick(lines, "\n\t"@);
    assert(no_backtick(render_result(q)));
    assert(no_backtick(params_declaration(q.name, render_params(q))));
    assert(no_backtick(result_declaration(q.name, render_result(q))));
    assert(no_backtick(query_declaration(q.name)));
}

/// Whether neither the name of `q` nor a label of its columns holds a
/// backtick.
pub open spec fn names_hold_no_backtick(q: QueryShape) -> bool {
    &&& no_backtick(q.name)
    &&& forall|i: int| 0 <= i < q.result.len() ==> no_backtick((#[trigger] q.result[i]).0)
}

/// The declarations of the first `n` queries hold no backtick.
proof fn lemma_blocks_hold_no_template(shapes: Seq<QueryShape>, n: nat)
    requires
        forall|i: int| 0 <= i < shapes.len() ==> names_hold_no_backtick(#[trigger] shapes[i]),
    ensures
        no_backtick(render_blocks(shapes, n)),
    decreases n,
{
    if 0 < n <= shapes.len() {
        lemma_blocks_hold_no_template(shapes, (n - 1) as nat);
        assert(names_hold_no_backtick(shapes[n - 1]));
        lemma_declarations_hold_no_template(shapes[n - 1]);
    }
}

/// A file of declarations holds no backtick, and so no template, as long as
/// the names of its queries and the labels of their columns hold none.
pub proof fn lemma_file_holds_no_template(shapes: Seq<QueryShape>)
    requires
        forall|i: int| 0 <= i < shapes.len() ==> names_hold_no_backtick(#[trigger] shapes[i]),
    ensures
        no_backtick(render_file(shapes)),
{
    reveal_strlit(
        "/* TypeScript types of the SQL queries of this project, written by sqlx-ts. */\n",
    );
    lemma_blocks_hold_no_template(shapes, shapes.len());
}

} // verus!
