//! The kinds of TypeScript type a column or a parameter can have, how each is
//! written, and which kind stands for a database's native type.

use crate::text::{join, join_strings, str_eq, views};
use vstd::prelude::*;
use vstd::string::StringExecFns;

verus! {

/// The TypeScript type of one field.
#[derive(Debug, PartialEq, Eq)]
pub enum TsFieldType {
    String,
    Number,
    Boolean,
    Object,
    Date,
    Null,
    Any,
    Array2D(Vec<Vec<TsFieldType>>),
    Array(Box<TsFieldType>),
    Never,
}

/// The mathematical value of a [`TsFieldType`]: the same kinds, with
/// sequences in place of vectors.
pub enum FieldType {
    String,
    Number,
    Boolean,
    Object,
    Date,
    Null,
    Any,
    Array2D(Seq<Seq<FieldType>>),
    Array(Box<FieldType>),
    Never,
}

/// The value that `t` stands for.
pub open spec fn field_model(t: TsFieldType) -> FieldType
    decreases t,
{
    match t {
        TsFieldType::String => FieldType::String,
        TsFieldType::Number => FieldType::Number,
        TsFieldType::Boolean => FieldType::Boolean,
        TsFieldType::Object => FieldType::Object,
        TsFieldType::Date => FieldType::Date,
        TsFieldType::Null => FieldType::Null,
        TsFieldType::Any => FieldType::Any,
        TsFieldType::Never => FieldType::Never,
        TsFieldType::Array(inner) => FieldType::Array(Box::new(field_model(*inner))),
        TsFieldType::Array2D(rows) => FieldType::Array2D(
            Seq::new(
                rows@.len(),
                |i: int|
                    if 0 <= i < rows@.len() {
                        Seq::new(
                            rows@[i]@.len(),
                            |j: int|
                                if 0 <= j < rows@[i]@.len() {
                                    field_model(rows@[i]@[j])
                                } else {
                                    FieldType::Never
                                },
                        )
                    } else {
                        Seq::empty()
                    },
            ),
        ),
    }
}

impl View for TsFieldType {
    type V = FieldType;

    open spec fn view(&self) -> FieldType {
        field_model(*self)
    }
}

/// The values that a sequence of field types stands for.
pub open spec fn field_models(types: Seq<TsFieldType>) -> Seq<FieldType> {
    types.map_values(|t: TsFieldType| t@)
}

/// The TypeScript text of each type of `types`.
pub open spec fn render_fields(types: Seq<FieldType>) -> Seq<Seq<char>>
    decreases types, 0nat,
{
    Seq::new(
        types.len(),
        |j: int|
            if 0 <= j < types.len() {
                render_field(types[j])
            } else {
                Seq::empty()
            },
    )
}

/// One row of a tuple of tuples: its types separated by `", "`, in square
/// brackets.
pub open spec fn render_row(row: Seq<FieldType>) -> Seq<char>
    decreases row, 1nat,
{
    "["@ + join(render_fields(row), ", "@) + "]"@
}

/// The text of each row of `rows`.
pub open spec fn render_rows(rows: Seq<Seq<FieldType>>) -> Seq<Seq<char>>
    decreases rows, 2nat,
{
    Seq::new(
        rows.len(),
        |i: int|
            if 0 <= i < rows.len() {
                render_row(rows[i])
            } else {
                Seq::empty()
            },
    )
}

/// The TypeScript text of a field type.
pub open spec fn render_field(t: FieldType) -> Seq<char>
    decreases t, 0nat,
{
    match t {
        FieldType::Boolean => "boolean"@,
        FieldType::Number => "number"@,
        FieldType::String => "string"@,
        FieldType::Object => "object"@,
        FieldType::Date => "Date"@,
        FieldType::Any => "any"@,
        FieldType::Null => "null"@,
        FieldType::Never => "never"@,
        FieldType::Array(inner) => "Array<"@ + render_field(*inner) + ">"@,
        FieldType::Array2D(rows) => join(render_rows(rows), ", "@),
    }
}

/// The field type for a PostgreSQL `data_type`. Arrays map to `Any`: the
/// type of their elements is not looked at.
pub open spec fn from_postgres(native: Seq<char>) -> FieldType {
    if native == "smallint"@ || native == "integer"@ || native == "real"@ || native
        == "double precision"@ || native == "numeric"@ {
        FieldType::Number
    } else if native == "character"@ || native == "character varying"@ || native == "bytea"@
        || native == "uuid"@ || native == "text"@ {
        FieldType::String
    } else if native == "boolean"@ {
        FieldType::Boolean
    } else if native == "json"@ || native == "jsonb"@ {
        FieldType::Object
    } else if native == "date"@ {
        FieldType::Date
    } else {
        FieldType::Any
    }
}

/// Whether a PostgreSQL `data_type` is that of an array.
pub open spec fn is_postgres_array(native: Seq<char>) -> bool {
    native == "ARRAY"@ || native == "array"@
}

/// What the user is told, at the level of information, of a column whose
/// PostgreSQL type is an array: that the type of its elements is not looked
/// at. Of every other type nothing is told.
pub open spec fn postgres_note(native: Seq<char>) -> Option<Seq<char>> {
    if is_postgres_array(native) {
        Some(
            "Currently we cannot figure out the type information for an array, the feature will be added in the future"@,
        )
    } else {
        None
    }
}

/// The field type for a MySQL `DATA_TYPE`. Every `tinyint` counts as a
/// boolean.
pub open spec fn from_mysql(native: Seq<char>) -> FieldType {
    if native == "bigint"@ || native == "decimal"@ || native == "double"@ || native == "float"@
        || native == "int"@ || native == "mediumint"@ || native == "smallint"@ || native
        == "year"@ {
        FieldType::Number
    } else if native == "binary"@ || native == "bit"@ || native == "blob"@ || native == "char"@
        || native == "text"@ || native == "varbinary"@ || native == "varchar"@ {
        FieldType::String
    } else if native == "tinyint"@ {
        FieldType::Boolean
    } else if native == "date"@ || native == "datetime"@ || native == "timestamp"@ {
        FieldType::Date
    } else {
        FieldType::Any
    }
}

/// The field type that a type word of an annotation names.
pub open spec fn from_annotation(word: Seq<char>) -> FieldType {
    if word == "string"@ {
        FieldType::String
    } else if word == "number"@ {
        FieldType::Number
    } else if word == "boolean"@ {
        FieldType::Boolean
    } else if word == "object"@ {
        FieldType::Object
    } else if word == "null"@ {
        FieldType::Null
    } else {
        FieldType::Any
    }
}

impl Clone for TsFieldType {
    fn clone(&self) -> (out: Self)
        ensures
            out@ == self@,
        decreases self,
    {
        match self {
            TsFieldType::String => TsFieldType::String,
            TsFieldType::Number => TsFieldType::Number,
            TsFieldType::Boolean => TsFieldType::Boolean,
            TsFieldType::Object => TsFieldType::Object,
            TsFieldType::Date => TsFieldType::Date,
            TsFieldType::Null => TsFieldType::Null,
            TsFieldType::Any => TsFieldType::Any,
            TsFieldType::Never => TsFieldType::Never,
            TsFieldType::Array(inner) => {
                let copy = (&**inner).clone();
                TsFieldType::Array(Box::new(copy))
            },
            TsFieldType::Array2D(rows) => {
                let mut out_rows: Vec<Vec<TsFieldType>> = Vec::new();
                let mut i: usize = 0;
                while i < rows.len()
                    invariant
                        i <= rows.len(),
                        out_rows.len() == i,
                        forall|k: int| 0 <= k < i ==> out_rows@[k]@.len() == rows@[k]@.len(),
                        forall|k: int, j: int|
                            0 <= k < i && 0 <= j < rows@[k]@.len() ==> (#[trigger] out_rows@[k]@[j])@
                                == rows@[k]@[j]@,
                        decreases_to!(*self => *rows),
                    decreases rows.len() - i,
                {
                    let row = &rows[i];
                    let mut out_row: Vec<TsFieldType> = Vec::new();
                    let mut j: usize = 0;
                    while j < row.len()
                        invariant
                            j <= row.len(),
                            i < rows.len(),
                            row == &rows@[i as int],
                            out_row.len() == j,
                            forall|k: int| 0 <= k < j ==> (#[trigger] out_row@[k])@ == row@[k]@,
                            decreases_to!(*self => *rows),
                        decreases row.len() - j,
                    {
                        proof {
                            assert(decreases_to!(*rows => rows@[i as int]));
                            assert(decreases_to!(rows@[i as int] => rows@[i as int]@[j as int]));
                        }
                        let copy = row[j].clone();
                        out_row.push(copy);
                        j = j + 1;
                    }
                    out_rows.push(out_row);
                    i = i + 1;
                }
                let out = TsFieldType::Array2D(out_rows);
                proof {
                    assert(out@->Array2D_0 =~~= self@->Array2D_0);
                }
                out
            },
        }
    }
}

/// A copy of `types`, type by type.
pub fn clone_types(types: &[TsFieldType]) -> (out: Vec<TsFieldType>)
    ensures
        field_models(out@) == field_models(types@),
{
    let mut out: Vec<TsFieldType> = Vec::new();
    let mut i: usize = 0;
    while i < types.len()
        invariant
            i <= types.len(),
            out.len() == i,
            forall|k: int| 0 <= k < i ==> (#[trigger] out@[k])@ == types@[k]@,
        decreases types.len() - i,
    {
        out.push(types[i].clone());
        i = i + 1;
    }
    assert(field_models(out@) =~= field_models(types@));
    out
}

impl TsFieldType {
    /// The type written as TypeScript.
    pub fn to_string(&self) -> (out: String)
        ensures
            out@ == render_field(self@),
        decreases self,
    {
        match self {
            TsFieldType::Boolean => String::from_str("boolean"),
            TsFieldType::Number => String::from_str("number"),
            TsFieldType::String => String::from_str("string"),
            TsFieldType::Object => String::from_str("object"),
            TsFieldType::Date => String::from_str("Date"),
            TsFieldType::Any => String::from_str("any"),
            TsFieldType::Null => String::from_str("null"),
            TsFieldType::Never => String::from_str("never"),
            TsFieldType::Array(inner) => {
                let inner_text = (&**inner).to_string();
                let mut out = String::from_str("Array<");
                out.append(inner_text.as_str());
                out.append(">");
                out
            },
            TsFieldType::Array2D(rows) => {
                let mut rendered: Vec<String> = Vec::new();
                let mut i: usize = 0;
                while i < rows.len()
                    invariant
                        i <= rows.len(),
                        rendered.len() == i,
                        forall|k: int|
                            0 <= k < i ==> (#[trigger] rendered@[k])@ == render_row(
                                self@->Array2D_0[k],
                            ),
                        self@->Array2D_0.len() == rows.len(),
                        forall|k: int|
                            0 <= k < rows.len() ==> #[trigger] self@->Array2D_0[k] == field_models(
                                rows@[k]@,
                            ),
                        decreases_to!(*self => *rows),
                    decreases rows.len() - i,
                {
                    let row = &rows[i];
                    let mut items: Vec<String> = Vec::new();
                    let mut j: usize = 0;
                    while j < row.len()
                        invariant
                            j <= row.len(),
                            i < rows.len(),
                            row == &rows@[i as int],
                            items.len() == j,
                            forall|k: int|
                                0 <= k < j ==> (#[trigger] items@[k])@ == render_field(row@[k]@),
                            decreases_to!(*self => *rows),
                        decreases row.len() - j,
                    {
                        proof {
                            assert(decreases_to!(*rows => rows@[i as int]));
                            assert(decreases_to!(rows@[i as int] => rows@[i as int]@[j as int]));
                        }
                        items.push(row[j].to_string());
                        j = j + 1;
                    }
                    let inside = join_strings(&items, ", ");
                    let mut text = String::from_str("[");
                    text.append(inside.as_str());
                    text.append("]");
                    proof {
                        assert(views(items@) =~= render_fields(field_models(row@)));
                    }
                    rendered.push(text);
                    i = i + 1;
                }
                proof {
                    let model_rows = self@->Array2D_0;
                    assert(views(rendered@) =~= render_rows(model_rows));
                }
                join_strings(&rendered, ", ")
            },
        }
    }

    /// The field type for a PostgreSQL `data_type`, as `information_schema`
    /// names it.
    pub fn get_ts_field_type_from_postgres_field_type(field_type: String) -> (out: Self)
        ensures
            out@ == from_postgres(field_type@),
    {
        let name = field_type.as_str();
        if str_eq(name, "smallint") || str_eq(name, "integer") || str_eq(name, "real") || str_eq(
            name,
            "double precision",
        ) || str_eq(name, "numeric") {
            TsFieldType::Number
        } else if str_eq(name, "character") || str_eq(name, "character varying") || str_eq(
            name,
            "bytea",
        ) || str_eq(name, "uuid") || str_eq(name, "text") {
            TsFieldType::String
        } else if str_eq(name, "boolean") {
            TsFieldType::Boolean
        } else if str_eq(name, "json") || str_eq(name, "jsonb") {
            TsFieldType::Object
        } else if str_eq(name, "date") {
            TsFieldType::Date
        } else {
            TsFieldType::Any
        }
    }

    /// The note that goes with the field type of a PostgreSQL `data_type`:
    /// for an array, which `get_ts_field_type_from_postgres_field_type`
    /// gives `Any`, that the type of its elements is not looked at.
    pub fn get_postgres_field_type_note(field_type: &str) -> (note: Option<String>)
        ensures
            match note {
                Some(text) => postgres_note(field_type@) == Some(text@),
                None => postgres_note(field_type@) is None,
            },
    {
        if str_eq(field_type, "ARRAY") || str_eq(field_type, "array") {
            Some(
                String::from_str(
                    "Currently we cannot figure out the type information for an array, the feature will be added in the future",
                ),
            )
        } else {
            None
        }
    }

    /// The field type for a MySQL `DATA_TYPE`.
    pub fn get_ts_field_type_from_mysql_field_type(mysql_field_type: String) -> (out: Self)
        ensures
            out@ == from_mysql(mysql_field_type@),
    {
        let name = mysql_field_type.as_str();
        if str_eq(name, "bigint") || str_eq(name, "decimal") || str_eq(name, "double") || str_eq(
            name,
            "float",
        ) || str_eq(name, "int") || str_eq(name, "mediumint") || str_eq(name, "smallint")
            || str_eq(name, "year") {
            TsFieldType::Number
        } else if str_eq(name, "binary") || str_eq(name, "bit") || str_eq(name, "blob") || str_eq(
            name,
            "char",
        ) || str_eq(name, "text") || str_eq(name, "varbinary") || str_eq(name, "varchar") {
            TsFieldType::String
        } else if str_eq(name, "tinyint") {
            TsFieldType::Boolean
        } else if str_eq(name, "date") || str_eq(name, "datetime") || str_eq(name, "timestamp") {
            TsFieldType::Date
        } else {
            TsFieldType::Any
        }
    }

    /// The field type that the type word of an annotation names; a word that
    /// is none of the five known ones gives `Any`.
    pub fn get_ts_field_from_annotation(annotated_type: &str) -> (out: Self)
        ensures
            out@ == from_annotation(annotated_type@),
    {
        if str_eq(annotated_type, "string") {
            return TsFieldType::String;
        } else if str_eq(annotated_type, "number") {
            return TsFieldType::Number;
        } else if str_eq(annotated_type, "boolean") {
            return TsFieldType::Boolean;
        } else if str_eq(annotated_type, "object") {
            return TsFieldType::Object;
        } else if str_eq(annotated_type, "null") {
            return TsFieldType::Null;
        }
        TsFieldType::Any
    }
}

} // verus!
