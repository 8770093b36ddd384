//! The shape of one query, its bind parameters and the columns of its
//! result, and the TypeScript declarations written from it.

use crate::common::sql::SQL;
use crate::text::{join, join_strings, str_eq, views};
use crate::ts_generator::errors::TsGeneratorError;
use crate::ts_generator::naming::{case_converted, query_name, to_camel_case};
use crate::ts_generator::placeholder::{
    capture_placeholder_digits, indexed_placeholder_digits, parse_placeholder_index,
    placeholder_index,
};
use crate::ts_generator::types::column_types::{
    as_map, has_label, sorted_by_label, types_of, ColumnTypes,
};
use crate::ts_generator::types::ordered::{
    keyed_by_i32, keyed_by_usize, listed, ordered_values, values_in_order_i32,
    values_in_order_usize,
};
use crate::ts_generator::types::ts_field_type::{
    clone_types, field_models, render_fields, render_rows, FieldType, TsFieldType,
};
use std::collections::BTreeMap;
use vstd::prelude::*;
use vstd::string::StringExecFns;

verus! {

/// What is needed to write the type declarations of one SQL query.
#[derive(Debug, Clone)]
pub struct TsQuery {
    pub name: String,
    param_order: i32,
    /// The bind parameters by index; the map keeps them in the order of the
    /// indices.
    pub params: BTreeMap<i32, TsFieldType>,
    /// The types that annotations give to parameters, by index.
    pub annotated_params: BTreeMap<usize, TsFieldType>,
    /// The bind parameters of the rows of an `INSERT`, by row and column.
    pub insert_params: BTreeMap<usize, BTreeMap<usize, TsFieldType>>,
    /// The types that annotations give to the parameters of an `INSERT`.
    pub annotated_insert_params: BTreeMap<usize, BTreeMap<usize, TsFieldType>>,
    /// The columns of the result, by label.
    pub result: ColumnTypes,
    /// The types that annotations give to columns of the result.
    pub annotated_results: ColumnTypes,
    convert_to_camel_case_column_name: bool,
}

/// The mathematical value of a [`TsQuery`].
pub struct QueryShape {
    pub name: Seq<char>,
    /// How many `?` placeholders have been given an index.
    pub param_order: int,
    pub params: Map<int, FieldType>,
    pub annotated_params: Map<int, FieldType>,
    pub insert_params: Map<int, Map<int, FieldType>>,
    pub annotated_insert_params: Map<int, Map<int, FieldType>>,
    pub result: Seq<(Seq<char>, Seq<FieldType>)>,
    pub annotated_results: Seq<(Seq<char>, Seq<FieldType>)>,
    pub convert_to_camel_case_column_name: bool,
}

/// The parameters of a query as a map from index to type.
pub open spec fn params_model(params: Map<i32, TsFieldType>) -> Map<int, FieldType> {
    keyed_by_i32(params).map_values(|t: TsFieldType| t@)
}

/// One row of parameters, or the annotated parameters of a query, as a map
/// from index to type.
pub open spec fn row_model(row: Map<usize, TsFieldType>) -> Map<int, FieldType> {
    keyed_by_usize(row).map_values(|t: TsFieldType| t@)
}

/// The rows of parameters of an `INSERT` as a map from row to column to type.
pub open spec fn rows_model(rows: Map<usize, BTreeMap<usize, TsFieldType>>) -> Map<
    int,
    Map<int, FieldType>,
> {
    keyed_by_usize(rows).map_values(|row: BTreeMap<usize, TsFieldType>| row_model(row@))
}

impl View for TsQuery {
    type V = QueryShape;

    closed spec fn view(&self) -> QueryShape {
        QueryShape {
            name: self.name@,
            param_order: self.param_order as int,
            params: params_model(self.params@),
            annotated_params: row_model(self.annotated_params@),
            insert_params: rows_model(self.insert_params@),
            annotated_insert_params: rows_model(self.annotated_insert_params@),
            result: self.result@,
            annotated_results: self.annotated_results@,
            convert_to_camel_case_column_name: self.convert_to_camel_case_column_name,
        }
    }
}

/// The shape of a query called `name` of which nothing else is known yet.
pub open spec fn empty_shape(name: Seq<char>) -> QueryShape {
    QueryShape {
        name,
        param_order: 0,
        params: Map::empty(),
        annotated_params: Map::empty(),
        insert_params: Map::empty(),
        annotated_insert_params: Map::empty(),
        result: Seq::empty(),
        annotated_results: Seq::empty(),
        convert_to_camel_case_column_name: false,
    }
}

/// What holds of the shape of every query: the count of `?` placeholders is
/// one that an `i32` holds; once a `?` has been counted the indices are 1 to
/// that count, without a gap; no column label stands twice.
pub open spec fn shape_wf(q: QueryShape) -> bool {
    &&& 0 <= q.param_order <= i32::MAX
    &&& q.param_order > 0 ==> forall|k: int| q.params.contains_key(k) <==> 1 <= k <= q.param_order
    &&& sorted_by_label(q.result)
    &&& sorted_by_label(q.annotated_results)
}

/// The label under which the column `column_name` is written.
pub open spec fn column_label(q: QueryShape, column_name: Seq<char>) -> Seq<char> {
    if q.convert_to_camel_case_column_name {
        case_converted(column_name, false)
    } else {
        column_name
    }
}

/// The types of the column `alias`: those of its annotation where it has
/// one, else the inferred ones.
pub open spec fn column_types(q: QueryShape, alias: Seq<char>, inferred: Seq<FieldType>) -> Seq<
    FieldType,
> {
    if has_label(q.annotated_results, alias) {
        types_of(q.annotated_results, alias)
    } else {
        inferred
    }
}

/// The type of the parameter at `index`: that of its annotation where it has
/// one, else the inferred one.
pub open spec fn param_type(q: QueryShape, index: int, inferred: FieldType) -> FieldType {
    if q.annotated_params.contains_key(index) {
        q.annotated_params[index]
    } else {
        inferred
    }
}

/// `q` with the parameter at `index` set.
pub open spec fn with_param(q: QueryShape, index: int, inferred: FieldType) -> QueryShape {
    QueryShape { params: q.params.insert(index, param_type(q, index, inferred)), ..q }
}

/// `q` after a `$n` placeholder with the index `order`; `None` where `?`
/// placeholders have been counted before.
pub open spec fn after_numbered(q: QueryShape, order: int, inferred: FieldType) -> Option<
    QueryShape,
> {
    if q.param_order > 0 {
        None
    } else {
        Some(with_param(q, order, inferred))
    }
}

/// `q` after one more `?` placeholder, which gets the next index, counted
/// from 1; `None` where parameters have been set by `$n` placeholders before.
pub open spec fn after_counted(q: QueryShape, inferred: FieldType) -> Option<QueryShape> {
    if q.param_order == 0 && exists|k: int| q.params.contains_key(k) {
        None
    } else {
        Some(
            QueryShape {
                param_order: q.param_order + 1,
                ..with_param(q, q.param_order + 1, inferred)
            },
        )
    }
}

/// The text of a placeholder, if there is one.
pub open spec fn placeholder_text(placeholder: Option<String>) -> Option<Seq<char>> {
    match placeholder {
        Some(text) => Some(text@),
        None => None,
    }
}

/// Whether a parameter can be set for `placeholder`: the count of `?`
/// placeholders has not reached the largest `i32`, and the index of a `$n`
/// placeholder is one that an `i32` holds.
pub open spec fn placeholder_in_range(q: QueryShape, placeholder: Option<Seq<char>>) -> bool {
    match placeholder {
        None => true,
        Some(text) => if text == "?"@ {
            q.param_order < i32::MAX
        } else {
            match indexed_placeholder_digits(text) {
                None => true,
                Some(digits) => placeholder_index(digits) is Some,
            }
        },
    }
}

/// `q` after a parameter with the placeholder `placeholder`: `?` counts, `$n`
/// gives its index, and without a placeholder, or with a text that holds no
/// `$n`, nothing changes. `None` where the two kinds of placeholder meet.
/// Of a `$n` whose index no `i32` holds this says nothing that is used:
/// `placeholder_in_range` leaves it out.
pub open spec fn after_placeholder(
    q: QueryShape,
    inferred: FieldType,
    placeholder: Option<Seq<char>>,
) -> Option<QueryShape> {
    match placeholder {
        None => Some(q),
        Some(text) => if text == "?"@ {
            after_counted(q, inferred)
        } else {
            match indexed_placeholder_digits(text) {
                None => Some(q),
                Some(digits) => match placeholder_index(digits) {
                    Some(order) => after_numbered(q, order, inferred),
                    None => Some(q),
                },
            }
        },
    }
}

/// The type of the parameter in row `row` and column `column` of an
/// `INSERT`: that of its annotation where it has one, else the inferred one.
pub open spec fn cell_type(q: QueryShape, row: int, column: int, inferred: FieldType) -> FieldType {
    if q.annotated_insert_params.contains_key(row) && q.annotated_insert_params[row].contains_key(
        column,
    ) {
        q.annotated_insert_params[row][column]
    } else {
        inferred
    }
}

/// `q` with the parameter in row `row` and column `column` set.
pub open spec fn with_cell(q: QueryShape, row: int, column: int, inferred: FieldType) -> QueryShape {
    let cells = if q.insert_params.contains_key(row) {
        q.insert_params[row]
    } else {
        Map::empty()
    };
    QueryShape {
        insert_params: q.insert_params.insert(
            row,
            cells.insert(column, cell_type(q, row, column, inferred)),
        ),
        ..q
    }
}

/// The rows of parameters of an `INSERT`, each with its parameters in the
/// order of the columns, in the order of the rows.
pub open spec fn rows_in_order(rows: Map<int, Map<int, FieldType>>) -> Seq<Seq<FieldType>> {
    ordered_values(rows).map_values(|cells: Map<int, FieldType>| ordered_values(cells))
}

/// The parameters as they stand between the brackets of the `Params` tuple:
/// for an `INSERT` with rows of values one tuple for each row, else the
/// types of the parameters in the order of their indices.
pub open spec fn render_params(q: QueryShape) -> Seq<char> {
    if exists|row: int| q.insert_params.contains_key(row) {
        join(render_rows(rows_in_order(q.insert_params)), ", "@)
    } else {
        join(render_fields(ordered_values(q.params)), ", "@)
    }
}

/// One line for a column: its label, a colon, its types with ` | ` between
/// them, a semicolon.
pub open spec fn render_column(entry: (Seq<char>, Seq<FieldType>)) -> Seq<char> {
    entry.0 + ": "@ + join(render_fields(entry.1), " | "@) + ";"@
}

/// The lines of the columns of the result, in the order of their labels.
pub open spec fn render_result(q: QueryShape) -> Seq<char> {
    join(q.result.map_values(|entry: (Seq<char>, Seq<FieldType>)| render_column(entry)), "\n\t"@)
}

/// The declaration of the tuple of parameters.
pub open spec fn params_declaration(name: Seq<char>, params: Seq<char>) -> Seq<char> {
    "\nexport type "@ + name + "Params = ["@ + params + "];\n"@
}

/// The declaration of the interface of a row of the result.
pub open spec fn result_declaration(name: Seq<char>, columns: Seq<char>) -> Seq<char> {
    "\nexport interface I"@ + name + "Result {\n    "@ + columns + "\n};\n"@
}

/// The declaration of the interface that holds both.
pub open spec fn query_declaration(name: Seq<char>) -> Seq<char> {
    "\nexport interface I"@ + name + "Query {\n    params: "@ + name + "Params;\n    result: I"@
        + name + "Result;\n};\n"@
}

/// The three declarations of a query: parameters, result, and the two
/// together.
pub open spec fn render_query(q: QueryShape) -> Seq<char> {
    "\n"@ + params_declaration(q.name, render_params(q)) + "\n"@ + result_declaration(
        q.name,
        render_result(q),
    ) + "\n"@ + query_declaration(q.name) + "\n"@
}

/// The parameters of a query in the order of their indices are what the
/// map hands out, each as the type it stands for.
proof fn lemma_params_in_order(params: Map<i32, TsFieldType>)
    requires
        listed(keyed_by_i32(params).dom()),
    ensures
        ordered_values(params_model(params)) == field_models(ordered_values(keyed_by_i32(params))),
{
    assert(params_model(params).dom() =~= keyed_by_i32(params).dom());
    assert(ordered_values(params_model(params)) =~= field_models(
        ordered_values(keyed_by_i32(params)),
    ));
}

/// The same for one row of parameters.
proof fn lemma_row_in_order(row: Map<usize, TsFieldType>)
    requires
        listed(keyed_by_usize(row).dom()),
    ensures
        ordered_values(row_model(row)) == field_models(ordered_values(keyed_by_usize(row))),
{
    assert(row_model(row).dom() =~= keyed_by_usize(row).dom());
    assert(ordered_values(row_model(row)) =~= field_models(ordered_values(keyed_by_usize(row))));
}

/// The rows of an `INSERT` in order are what the map hands out, each as the
/// row it stands for.
proof fn lemma_rows_in_order(rows: Map<usize, BTreeMap<usize, TsFieldType>>)
    requires
        listed(keyed_by_usize(rows).dom()),
    ensures
        ordered_values(rows_model(rows)) == ordered_values(keyed_by_usize(rows)).map_values(
            |row: BTreeMap<usize, TsFieldType>| row_model(row@),
        ),
{
    assert(rows_model(rows).dom() =~= keyed_by_usize(rows).dom());
    assert(ordered_values(rows_model(rows)) =~= ordered_values(keyed_by_usize(rows)).map_values(
        |row: BTreeMap<usize, TsFieldType>| row_model(row@),
    ));
}

impl TsQuery {
    /// The name of the query.
    pub fn name(&self) -> (name: &String)
        ensures
            name@ == self@.name,
    {
        &self.name
    }

    /// The bind parameters, by index.
    pub fn params(&self) -> (params: &BTreeMap<i32, TsFieldType>)
        ensures
            params_model(params@) == self@.params,
    {
        &self.params
    }

    /// The types that annotations give to parameters, by index.
    pub fn annotated_params(&self) -> (params: &BTreeMap<usize, TsFieldType>)
        ensures
            row_model(params@) == self@.annotated_params,
    {
        &self.annotated_params
    }

    /// The bind parameters of the rows of an `INSERT`, by row and column.
    pub fn insert_params(&self) -> (rows: &BTreeMap<usize, BTreeMap<usize, TsFieldType>>)
        ensures
            rows_model(rows@) == self@.insert_params,
    {
        &self.insert_params
    }

    /// The types that annotations give to the parameters of an `INSERT`.
    pub fn annotated_insert_params(&self) -> (rows: &BTreeMap<
        usize,
        BTreeMap<usize, TsFieldType>,
    >)
        ensures
            rows_model(rows@) == self@.annotated_insert_params,
    {
        &self.annotated_insert_params
    }

    /// The columns of the result, by label.
    pub fn result(&self) -> (columns: &ColumnTypes)
        ensures
            columns@ == self@.result,
    {
        &self.result
    }

    /// The types that annotations give to columns of the result.
    pub fn annotated_results(&self) -> (columns: &ColumnTypes)
        ensures
            columns@ == self@.annotated_results,
    {
        &self.annotated_results
    }

    /// Whether column names are written in camel case.
    pub fn converts_to_camel_case_column_name(&self) -> (convert: bool)
        ensures
            convert == self@.convert_to_camel_case_column_name,
    {
        self.convert_to_camel_case_column_name
    }

    /// How many `?` placeholders have been given an index.
    pub fn counted_params(&self) -> (count: i32)
        ensures
            count == self@.param_order,
    {
        self.param_order
    }

    /// The invariant of the type.
    pub open spec fn wf(&self) -> bool {
        shape_wf(self@)
    }

    /// The shape of a query called `name`, with no parameter and no column;
    /// column names are kept as they are.
    pub fn new(name: String) -> (out: TsQuery)
        ensures
            out.wf(),
            out@ == empty_shape(name@),
    {
        let out = TsQuery {
            name,
            param_order: 0,
            params: BTreeMap::new(),
            annotated_params: BTreeMap::new(),
            result: ColumnTypes::new(),
            insert_params: BTreeMap::new(),
            annotated_results: ColumnTypes::new(),
            annotated_insert_params: BTreeMap::new(),
            convert_to_camel_case_column_name: false,
        };
        proof {
            assert(out@.params =~= Map::empty());
            assert(out@.annotated_params =~= Map::empty());
            assert(out@.insert_params =~= Map::empty());
            assert(out@.annotated_insert_params =~= Map::empty());
        }
        out
    }

    /// The shape that the declarations of `sql` are written from, still
    /// without parameters and columns: its name is the binding name of the
    /// query in upper camel case. A query without a binding name has no
    /// declarations.
    pub fn for_sql(sql: &SQL) -> (out: Option<TsQuery>)
        ensures
            match (sql.binding_name, out) {
                (Some(binding_name), Some(query)) => query.wf() && query@ == empty_shape(
                    case_converted(binding_name@, true),
                ),
                (None, None) => true,
                _ => false,
            },
    {
        match &sql.binding_name {
            Some(binding_name) => Some(TsQuery::new(query_name(binding_name.as_str()))),
            None => None,
        }
    }

    /// Chooses whether column names are written in camel case.
    pub fn set_convert_to_camel_case_column_name(&mut self, convert: bool)
        ensures
            final(self)@ == (QueryShape { convert_to_camel_case_column_name: convert, ..old(self)@ }),
    {
        self.convert_to_camel_case_column_name = convert;
    }

    /// Sets the annotated types of columns, which take the place of the
    /// inferred ones when columns are inserted.
    pub fn set_annotated_results(&mut self, annotated_results: ColumnTypes)
        ensures
            final(self)@ == (QueryShape { annotated_results: annotated_results@, ..old(self)@ }),
    {
        self.annotated_results = annotated_results;
    }

    /// Sets the annotated types of parameters, which take the place of the
    /// inferred ones when parameters are inserted.
    pub fn set_annotated_params(&mut self, annotated_params: BTreeMap<usize, TsFieldType>)
        ensures
            final(self)@ == (QueryShape {
                annotated_params: row_model(annotated_params@),
                ..old(self)@
            }),
    {
        self.annotated_params = annotated_params;
    }

    /// Sets the annotated types of the parameters of an `INSERT`, which take
    /// the place of the inferred ones when such parameters are inserted.
    pub fn set_annotated_insert_params(
        &mut self,
        annotated_insert_params: BTreeMap<usize, BTreeMap<usize, TsFieldType>>,
    )
        ensures
            final(self)@ == (QueryShape {
                annotated_insert_params: rows_model(annotated_insert_params@),
                ..old(self)@
            }),
    {
        self.annotated_insert_params = annotated_insert_params;
    }

    /// The label under which a column is written: its name, in camel case
    /// where that was chosen.
    pub fn format_column_name(&self, column_name: &str) -> (label: String)
        ensures
            label@ == column_label(self@, column_name@),
    {
        if self.convert_to_camel_case_column_name {
            to_camel_case(column_name)
        } else {
            String::from_str(column_name)
        }
    }

    /// Puts a selected column into the result. Only a selection has columns:
    /// where `is_selection` is false nothing happens. A selected expression
    /// without an alias is refused, with its text in the error.
    pub fn insert_result(
        &mut self,
        alias: Option<&str>,
        value: &[TsFieldType],
        is_selection: bool,
        expr_for_logging: &str,
    ) -> (outcome: Result<(), TsGeneratorError>)
        requires
            old(self).wf(),
        ensures
            final(self).wf(),
            final(self)@ == (QueryShape { result: final(self)@.result, ..old(self)@ }),
            match outcome {
                Ok(()) => match alias {
                    Some(name) if is_selection => as_map(final(self)@.result) == as_map(
                        old(self)@.result,
                    ).insert(
                        column_label(old(self)@, name@),
                        column_types(old(self)@, name@, field_models(value@)),
                    ),
                    _ => !is_selection && final(self)@ == old(self)@,
                },
                Err(TsGeneratorError::MissingAliasForFunctions(text)) => is_selection && alias
                    is None && text@ == expr_for_logging@ && final(self)@ == old(self)@,
                Err(_) => false,
            },
    {
        if is_selection {
            if let Some(alias) = alias {
                let label = self.format_column_name(alias);
                let types = match self.annotated_results.get(alias) {
                    Some(annotated) => clone_types(annotated.as_slice()),
                    None => clone_types(value),
                };
                self.result.insert(label, types);
            } else {
                return Err(
                    TsGeneratorError::MissingAliasForFunctions(String::from_str(expr_for_logging)),
                );
            }
        }
        Ok(())
    }

    /// Sets the parameter in row `point.0` and column `point.1` of an
    /// `INSERT`: to the type of its annotation where it has one, else to
    /// `value`.
    pub fn insert_value_params(
        &mut self,
        value: &TsFieldType,
        point: &(usize, usize),
        _placeholder: &Option<String>,
    )
        requires
            old(self).wf(),
        ensures
            final(self).wf(),
            final(self)@ == with_cell(old(self)@, point.0 as int, point.1 as int, value@),
    {
        let row = point.0;
        let column = point.1;
        let cell = match self.annotated_insert_params.get(&row) {
            Some(cells) => match cells.get(&column) {
                Some(annotation) => annotation.clone(),
                None => value.clone(),
            },
            None => value.clone(),
        };
        let mut cells = match self.insert_params.remove(&row) {
            Some(cells) => cells,
            None => BTreeMap::new(),
        };
        let ghost old_cells = cells@;
        cells.insert(column, cell);
        let ghost new_cells = cells@;
        self.insert_params.insert(row, cells);
        proof {
            let q = old(self)@;
            assert(cell@ == cell_type(q, row as int, column as int, value@));
            let model_cells = if q.insert_params.contains_key(row as int) {
                q.insert_params[row as int]
            } else {
                Map::empty()
            };
            assert(row_model(old_cells) =~= model_cells);
            assert(row_model(new_cells) =~= model_cells.insert(column as int, cell@));
            assert(self@.insert_params =~= q.insert_params.insert(
                row as int,
                row_model(new_cells),
            ));
            assert(self@.params == q.params);
        }
    }

    /// Sets the parameter of a `$n` placeholder with the index `order`: to
    /// the type of its annotation where it has one, else to `value`. Refused
    /// where `?` placeholders have been counted before.
    pub fn insert_numbered_param(&mut self, value: &TsFieldType, order: i32) -> (outcome: Result<
        (),
        TsGeneratorError,
    >)
        requires
            old(self).wf(),
        ensures
            final(self).wf(),
            match outcome {
                Ok(()) => after_numbered(old(self)@, order as int, value@) == Some(final(self)@),
                Err(TsGeneratorError::PlaceholderMix) => after_numbered(
                    old(self)@,
                    order as int,
                    value@,
                ) is None && final(self)@ == old(self)@,
                Err(_) => false,
            },
    {
        if self.param_order > 0 {
            return Err(TsGeneratorError::PlaceholderMix);
        }
        let annotation = if order >= 0 {
            self.annotated_params.get(&(order as usize))
        } else {
            None
        };
        let param = match annotation {
            Some(annotated) => annotated.clone(),
            None => value.clone(),
        };
        self.params.insert(order, param);
        proof {
            let q = old(self)@;
            assert(param@ == param_type(q, order as int, value@));
            assert(self@.params =~= q.params.insert(order as int, param@));
        }
        Ok(())
    }

    /// Sets the parameter of one more `?` placeholder, which gets the next
    /// index, counted from 1: to the type of its annotation where it has
    /// one, else to `value`. Refused where parameters have been set by `$n`
    /// placeholders before.
    pub fn insert_counted_param(&mut self, value: &TsFieldType) -> (outcome: Result<
        (),
        TsGeneratorError,
    >)
        requires
            old(self).wf(),
            old(self)@.param_order < i32::MAX,
        ensures
            final(self).wf(),
            match outcome {
                Ok(()) => after_counted(old(self)@, value@) == Some(final(self)@),
                Err(TsGeneratorError::PlaceholderMix) => after_counted(old(self)@, value@)
                    is None && final(self)@ == old(self)@,
                Err(_) => false,
            },
    {
        let ghost q = self@;
        if self.param_order == 0 && !self.params.is_empty() {
            proof {
                let k = choose|k: i32| self.params@.contains_key(k);
                assert(self.params@.dom().contains(k));
                assert(q.params.contains_key(k as int));
            }
            return Err(TsGeneratorError::PlaceholderMix);
        }
        proof {
            if self.param_order == 0 {
                assert forall|k: int| !q.params.contains_key(k) by {
                    if q.params.contains_key(k) {
                        assert(self.params@.dom().contains(k as i32));
                    }
                }
            }
        }
        let index = self.param_order + 1;
        let param = match self.annotated_params.get(&(index as usize)) {
            Some(annotated) => annotated.clone(),
            None => value.clone(),
        };
        self.params.insert(index, param);
        self.param_order = index;
        proof {
            assert(param@ == param_type(q, index as int, value@));
            assert(self@.params =~= q.params.insert(index as int, param@));
        }
        Ok(())
    }

    /// Sets the parameter that stands at `placeholder`. A `?` gets the next
    /// index, counted from 1; a `$n` gets the index `n`; where the parameter
    /// has an annotation, its type is that of the annotation, else `value`.
    /// Without a placeholder, or with one that is neither, nothing happens.
    /// A query that uses both kinds is refused. The index of a `$n` has to
    /// be one that an `i32` holds; `try_insert_param` tells whether it is.
    pub fn insert_param(&mut self, value: &TsFieldType, placeholder: &Option<String>) -> (outcome:
        Result<(), TsGeneratorError>)
        requires
            old(self).wf(),
            placeholder_in_range(old(self)@, placeholder_text(*placeholder)),
        ensures
            final(self).wf(),
            match outcome {
                Ok(()) => after_placeholder(old(self)@, value@, placeholder_text(*placeholder))
                    == Some(final(self)@),
                Err(TsGeneratorError::PlaceholderMix) => after_placeholder(
                    old(self)@,
                    value@,
                    placeholder_text(*placeholder),
                ) is None && final(self)@ == old(self)@,
                Err(_) => false,
            },
    {
        if let Some(placeholder) = placeholder {
            if str_eq(placeholder.as_str(), "?") {
                return self.insert_counted_param(value);
            } else {
                if let Some(digits) = capture_placeholder_digits(placeholder.as_str()) {
                    if let Some(order) = parse_placeholder_index(digits.as_str()) {
                        return self.insert_numbered_param(value, order);
                    }
                }
            }
        }
        Ok(())
    }

    /// Sets the parameter that stands at `placeholder` as `insert_param`
    /// does, where that can be done. Where the index of a `$n` placeholder
    /// is too large for an `i32`, or the count of `?` placeholders has
    /// reached the largest `i32`, nothing happens and the result is `None`.
    pub fn try_insert_param(&mut self, value: &TsFieldType, placeholder: &Option<String>) -> (outcome:
        Option<Result<(), TsGeneratorError>>)
        requires
            old(self).wf(),
        ensures
            final(self).wf(),
            outcome is Some <==> placeholder_in_range(old(self)@, placeholder_text(*placeholder)),
            match outcome {
                Some(Ok(())) => after_placeholder(old(self)@, value@, placeholder_text(*placeholder))
                    == Some(final(self)@),
                Some(Err(TsGeneratorError::PlaceholderMix)) => after_placeholder(
                    old(self)@,
                    value@,
                    placeholder_text(*placeholder),
                ) is None && final(self)@ == old(self)@,
                Some(Err(_)) => false,
                None => final(self)@ == old(self)@,
            },
    {
        if let Some(text) = placeholder {
            if str_eq(text.as_str(), "?") {
                if self.param_order == i32::MAX {
                    return None;
                }
            } else {
                if let Some(digits) = capture_placeholder_digits(text.as_str()) {
                    if parse_placeholder_index(digits.as_str()).is_none() {
                        return None;
                    }
                }
            }
        }
        Some(self.insert_param(value, placeholder))
    }

    /// The parameters as they stand between the brackets of the `Params`
    /// tuple.
    pub fn fmt_params(&self) -> (out: String)
        ensures
            out@ == render_params(self@),
    {
        if !self.insert_params.is_empty() {
            proof {
                let k = choose|k: usize| self.insert_params@.contains_key(k);
                assert(self.insert_params@.dom().contains(k));
                assert(self@.insert_params.contains_key(k as int));
            }
            let rows = values_in_order_usize(&self.insert_params);
            proof {
                lemma_rows_in_order(self.insert_params@);
            }
            let mut rendered: Vec<String> = Vec::new();
            let mut i: usize = 0;
            while i < rows.len()
                invariant
                    i <= rows.len(),
                    rendered.len() == i,
                    rows@.len() == rows_in_order(self@.insert_params).len(),
                    forall|k: int|
                        0 <= k < rows@.len() ==> row_model((#[trigger] rows@[k])@) == ordered_values(
                            self@.insert_params,
                        )[k],
                    forall|k: int|
                        0 <= k < i ==> (#[trigger] rendered@[k])@ == render_rows(
                            rows_in_order(self@.insert_params),
                        )[k],
                decreases rows.len() - i,
            {
                let cells = values_in_order_usize(rows[i]);
                let items = render_types(&cells);
                let inside = join_strings(&items, ", ");
                let mut text = String::from_str("[");
                text.append(inside.as_str());
                text.append("]");
                proof {
                    lemma_row_in_order(rows@[i as int]@);
                    assert(field_models(cells@.map_values(|t: &TsFieldType| *t)) =~= cells@.map_values(
                        |t: &TsFieldType| t@,
                    ));
                }
                rendered.push(text);
                i = i + 1;
            }
            proof {
                assert(views(rendered@) =~= render_rows(rows_in_order(self@.insert_params)));
            }
            return join_strings(&rendered, ", ");
        }
        proof {
            assert forall|k: int| !self@.insert_params.contains_key(k) by {
                if self@.insert_params.contains_key(k) {
                    assert(self.insert_params@.dom().contains(k as usize));
                }
            }
        }
        let values = values_in_order_i32(&self.params);
        let items = render_types(&values);
        proof {
            lemma_params_in_order(self.params@);
            assert(field_models(values@.map_values(|t: &TsFieldType| *t)) =~= values@.map_values(
                |t: &TsFieldType| t@,
            ));
        }
        join_strings(&items, ", ")
    }

    /// The lines of the columns of the result, in the order of their labels.
    pub fn fmt_result(&self) -> (out: String)
        ensures
            out@ == render_result(self@),
    {
        let mut lines: Vec<String> = Vec::new();
        let mut i: usize = 0;
        while i < self.result.len()
            invariant
                i <= self.result@.len(),
                lines.len() == i,
                forall|k: int| 0 <= k < i ==> (#[trigger] lines@[k])@ == render_column(self.result@[k]),
            decreases self.result@.len() - i,
        {
            let types = self.result.types_at(i);
            let mut items: Vec<String> = Vec::new();
            let mut j: usize = 0;
            while j < types.len()
                invariant
                    j <= types.len(),
                    items.len() == j,
                    forall|k: int| 0 <= k < j ==> (#[trigger] items@[k])@ == render_fields(
                        field_models(types@),
                    )[k],
                decreases types.len() - j,
            {
                items.push(types[j].to_string());
                j = j + 1;
            }
            proof {
                assert(views(items@) =~= render_fields(field_models(types@)));
            }
            let unioned = join_strings(&items, " | ");
            let mut line = self.result.label_at(i).clone();
            line.append(": ");
            line.append(unioned.as_str());
            line.append(";");
            lines.push(line);
            i = i + 1;
        }
        proof {
            assert(views(lines@) =~= self@.result.map_values(
                |entry: (Seq<char>, Seq<FieldType>)| render_column(entry),
            ));
        }
        join_strings(&lines, "\n\t")
    }

    /// The three declarations of the query, as TypeScript.
    pub fn to_string(&self) -> (out: String)
        ensures
            out@ == render_query(self@),
    {
        let params = self.fmt_params();
        let columns = self.fmt_result();
        let name = self.name.as_str();
        let mut out = String::from_str("\n");
        out.append("\nexport type ");
        out.append(name);
        out.append("Params = [");
        out.append(params.as_str());
        out.append("];\n");
        out.append("\n");
        out.append("\nexport interface I");
        out.append(name);
        out.append("Result {\n    ");
        out.append(columns.as_str());
        out.append("\n};\n");
        out.append("\n");
        out.append("\nexport interface I");
        out.append(name);
        out.append("Query {\n    params: ");
        out.append(name);
        out.append("Params;\n    result: I");
        out.append(name);
        out.append("Result;\n};\n");
        out.append("\n");
        proof {
            assert(out@ =~= render_query(self@));
        }
        out
    }
}

/// The TypeScript text of each of `types`.
fn render_types(types: &Vec<&TsFieldType>) -> (out: Vec<String>)
    ensures
        views(out@) == render_fields(types@.map_values(|t: &TsFieldType| t@)),
{
    let mut out: Vec<String> = Vec::new();
    let mut i: usize = 0;
    while i < types.len()
        invariant
            i <= types.len(),
            out.len() == i,
            forall|k: int| 0 <= k < i ==> (#[trigger] out@[k])@ == render_fields(
                types@.map_values(|t: &TsFieldType| t@),
            )[k],
        decreases types.len() - i,
    {
        out.push(types[i].to_string());
        i = i + 1;
    }
    assert(views(out@) =~= render_fields(types@.map_values(|t: &TsFieldType| t@)));
    out
}

} // verus!
