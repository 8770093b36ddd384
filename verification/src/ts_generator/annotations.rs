//! Annotations: directives in the comments that a query begins with, which
//! give types to parameters and columns by hand.
//!
//! A directive is the whole text of a comment, spaces at both ends aside:
//!
//! - `@param N: T` gives the type `T` to the parameter with the index `N`;
//! - `@result name: T | U` gives the types `T` and `U` to the column `name`;
//! - `@insert-param row,col: T` gives the type `T` to the parameter in row
//!   `row` and column `col` of an `INSERT`.
//!
//! A comment that begins with `@` and is none of these is kept as an
//! unrecognized directive. Other comments say nothing.

use crate::text::{chars_of, parse_decimal, parse_decimal_spec};
use crate::ts_generator::types::column_types::{as_map, ColumnTypes};
use crate::ts_generator::types::ts_field_type::{
    field_models, from_annotation, FieldType, TsFieldType,
};
use crate::ts_generator::types::ts_query::{row_model, rows_model, QueryShape, TsQuery};
use std::collections::BTreeMap;
use vstd::prelude::*;
use vstd::string::StrSliceExecFns;
use vstd::string::StringExecFns;

verus! {

/// Whether `c` is a space, a tab or the end of a line.
pub open spec fn is_space(c: char) -> bool {
    c == ' ' || c == '\t' || c == '\n' || c == '\r'
}

/// The first place from `at` on, before `end`, that holds no space; `end`
/// where there is none.
pub open spec fn skip_spaces(text: Seq<char>, at: int, end: int) -> int
    decreases end - at,
{
    if 0 <= at < end <= text.len() && is_space(text[at]) {
        skip_spaces(text, at + 1, end)
    } else {
        at
    }
}

/// The place behind the last character of `text` from `lo` up to `hi` that
/// is no space; `lo` where there is none.
pub open spec fn drop_spaces(text: Seq<char>, lo: int, hi: int) -> int
    decreases hi - lo,
{
    if 0 <= lo < hi <= text.len() && is_space(text[hi - 1]) {
        drop_spaces(text, lo, hi - 1)
    } else {
        hi
    }
}

/// The first place from `at` on, before `end`, that holds `c`; `end` where
/// there is none.
pub open spec fn find(text: Seq<char>, at: int, end: int, c: char) -> int
    decreases end - at,
{
    if 0 <= at < end <= text.len() && text[at] != c {
        find(text, at + 1, end, c)
    } else {
        at
    }
}

/// The first place from `at` on where `*/` stands; the end of `text` where
/// it stands nowhere.
pub open spec fn find_close(text: Seq<char>, at: int) -> int
    decreases text.len() - at,
{
    if 0 <= at && at + 1 < text.len() {
        if text[at] == '*' && text[at + 1] == '/' {
            at
        } else {
            find_close(text, at + 1)
        }
    } else {
        text.len() as int
    }
}

/// Whether `word` stands in `text` at `at`, before `end`.
pub open spec fn stands_at(text: Seq<char>, at: int, end: int, word: Seq<char>) -> bool {
    &&& 0 <= at
    &&& at + word.len() <= end <= text.len()
    &&& text.subrange(at, at + word.len()) == word
}

/// `text` from `lo` up to `hi`, without the spaces at both ends.
pub open spec fn trimmed(text: Seq<char>, lo: int, hi: int) -> Seq<char> {
    let from = skip_spaces(text, lo, hi);
    let to = drop_spaces(text, from, hi);
    text.subrange(from, to)
}

fn is_space_char(c: char) -> (space: bool)
    ensures
        space == is_space(c),
{
    c == ' ' || c == '\t' || c == '\n' || c == '\r'
}

fn skip_spaces_from(text: &Vec<char>, at: usize, end: usize) -> (next: usize)
    requires
        at <= end <= text.len(),
    ensures
        next == skip_spaces(text@, at as int, end as int),
        at <= next <= end,
{
    let mut next = at;
    while next < end && is_space_char(text[next])
        invariant
            at <= next <= end <= text.len(),
            skip_spaces(text@, at as int, end as int) == skip_spaces(text@, next as int, end as int),
        decreases end - next,
    {
        next = next + 1;
    }
    next
}

fn drop_spaces_from(text: &Vec<char>, lo: usize, hi: usize) -> (last: usize)
    requires
        lo <= hi <= text.len(),
    ensures
        last == drop_spaces(text@, lo as int, hi as int),
        lo <= last <= hi,
{
    let mut last = hi;
    while lo < last && is_space_char(text[last - 1])
        invariant
            lo <= last <= hi <= text.len(),
            drop_spaces(text@, lo as int, hi as int) == drop_spaces(text@, lo as int, last as int),
        decreases last - lo,
    {
        last = last - 1;
    }
    last
}

fn find_char(text: &Vec<char>, at: usize, end: usize, c: char) -> (place: usize)
    requires
        at <= end <= text.len(),
    ensures
        place == find(text@, at as int, end as int, c),
        at <= place <= end,
        place < end ==> text@[place as int] == c,
{
    let mut place = at;
    while place < end && text[place] != c
        invariant
            at <= place <= end <= text.len(),
            find(text@, at as int, end as int, c) == find(text@, place as int, end as int, c),
        decreases end - place,
    {
        place = place + 1;
    }
    place
}

fn find_close_from(text: &Vec<char>, at: usize) -> (place: usize)
    requires
        at <= text.len(),
    ensures
        place == find_close(text@, at as int),
        at <= place <= text.len(),
        place < text.len() ==> place + 2 <= text.len(),
{
    let mut place = at;
    while text.len() - place > 1
        invariant
            at <= place <= text.len(),
            find_close(text@, at as int) == find_close(text@, place as int),
        decreases text.len() - place,
    {
        if text[place] == '*' && text[place + 1] == '/' {
            return place;
        }
        place = place + 1;
    }
    text.len()
}

fn stands_at_place(text: &Vec<char>, at: usize, end: usize, word: &str) -> (stands: bool)
    requires
        at <= end <= text.len(),
    ensures
        stands == stands_at(text@, at as int, end as int, word@),
{
    let letters = chars_of(word);
    if letters.len() > end - at {
        return false;
    }
    let mut i: usize = 0;
    while i < letters.len()
        invariant
            i <= letters.len(),
            at + letters.len() <= end <= text.len(),
            letters@ == word@,
            forall|k: int| 0 <= k < i ==> text@[at + k] == letters@[k],
        decreases letters.len() - i,
    {
        if text[at + i] != letters[i] {
            proof {
                assert(text@.subrange(at as int, at + letters.len())[i as int] == text@[at + i]);
            }
            return false;
        }
        i = i + 1;
    }
    proof {
        assert(text@.subrange(at as int, at + letters.len()) =~= letters@);
    }
    true
}

/// One directive of an annotation.
#[derive(Debug, PartialEq, Eq)]
pub enum Directive {
    Param { index: usize, param_type: TsFieldType },
    Result { name: String, types: Vec<TsFieldType> },
    InsertParam { row: usize, column: usize, param_type: TsFieldType },
    /// A comment that begins with `@` and is no directive; the text is that
    /// of the comment, without the spaces at its ends.
    Unrecognized(String),
}

/// The mathematical value of a [`Directive`].
pub enum DirectiveView {
    Param { index: int, param_type: FieldType },
    Result { name: Seq<char>, types: Seq<FieldType> },
    InsertParam { row: int, column: int, param_type: FieldType },
    Unrecognized(Seq<char>),
}

impl View for Directive {
    type V = DirectiveView;

    open spec fn view(&self) -> DirectiveView {
        match *self {
            Directive::Param { index, param_type } => DirectiveView::Param {
                index: index as int,
                param_type: param_type@,
            },
            Directive::Result { name, types } => DirectiveView::Result {
                name: name@,
                types: field_models(types@),
            },
            Directive::InsertParam { row, column, param_type } => DirectiveView::InsertParam {
                row: row as int,
                column: column as int,
                param_type: param_type@,
            },
            Directive::Unrecognized(text) => DirectiveView::Unrecognized(text@),
        }
    }
}

/// The number that stands in `text` from `lo` up to `hi`, spaces aside:
/// digits alone, which write an index that a `usize` holds.
pub open spec fn number_at(text: Seq<char>, lo: int, hi: int) -> Option<int> {
    parse_decimal_spec(trimmed(text, lo, hi), usize::MAX as int)
}

/// The type that the word in `text` from `lo` up to `hi` names, spaces
/// aside.
pub open spec fn type_at(text: Seq<char>, lo: int, hi: int) -> FieldType {
    from_annotation(trimmed(text, lo, hi))
}

/// The types that stand in `text` from `lo` up to `hi` with `|` between
/// them.
pub open spec fn union_at(text: Seq<char>, lo: int, hi: int) -> Seq<FieldType>
    decreases hi - lo,
{
    let bar = find(text, lo, hi, '|');
    if 0 <= lo <= bar < hi <= text.len() {
        seq![type_at(text, lo, bar)] + union_at(text, bar + 1, hi)
    } else {
        seq![type_at(text, lo, hi)]
    }
}

/// What stands behind `@param`: an index, a colon, a type.
pub open spec fn param_directive(text: Seq<char>, lo: int, hi: int) -> Option<DirectiveView> {
    let colon = find(text, lo, hi, ':');
    if colon < hi {
        match number_at(text, lo, colon) {
            Some(index) => Some(
                DirectiveView::Param { index, param_type: type_at(text, colon + 1, hi) },
            ),
            None => None,
        }
    } else {
        None
    }
}

/// What stands behind `@result`: a name, a colon, one type or more with `|`
/// between them.
pub open spec fn result_directive(text: Seq<char>, lo: int, hi: int) -> Option<DirectiveView> {
    let colon = find(text, lo, hi, ':');
    let name = trimmed(text, lo, colon);
    if colon < hi && name.len() > 0 {
        Some(DirectiveView::Result { name, types: union_at(text, colon + 1, hi) })
    } else {
        None
    }
}

/// What stands behind `@insert-param`: a row, a comma, a column, a colon, a
/// type.
pub open spec fn insert_param_directive(text: Seq<char>, lo: int, hi: int) -> Option<
    DirectiveView,
> {
    let colon = find(text, lo, hi, ':');
    let comma = find(text, lo, colon, ',');
    if colon < hi && comma < colon {
        match (number_at(text, lo, comma), number_at(text, comma + 1, colon)) {
            (Some(row), Some(column)) => Some(
                DirectiveView::InsertParam {
                    row,
                    column,
                    param_type: type_at(text, colon + 1, hi),
                },
            ),
            _ => None,
        }
    } else {
        None
    }
}

/// Whether the word `word` stands in `text` at `at` with a space behind it.
pub open spec fn keyword_at(text: Seq<char>, at: int, end: int, word: Seq<char>) -> bool {
    &&& stands_at(text, at, end, word)
    &&& at + word.len() < end
    &&& is_space(text[at + word.len()])
}

/// The directive that the comment in `text` from `lo` up to `hi` holds;
/// `None` for a comment that does not begin with `@`.
pub open spec fn directive_of(text: Seq<char>, lo: int, hi: int) -> Option<DirectiveView> {
    let from = skip_spaces(text, lo, hi);
    let to = drop_spaces(text, from, hi);
    if from < to && text[from] == '@' {
        let known = if keyword_at(text, from, to, "@param"@) {
            param_directive(text, from + "@param"@.len(), to)
        } else if keyword_at(text, from, to, "@result"@) {
            result_directive(text, from + "@result"@.len(), to)
        } else if keyword_at(text, from, to, "@insert-param"@) {
            insert_param_directive(text, from + "@insert-param"@.len(), to)
        } else {
            None
        };
        match known {
            Some(directive) => Some(directive),
            None => Some(DirectiveView::Unrecognized(text.subrange(from, to))),
        }
    } else {
        None
    }
}

/// The place behind `word`, where it stands at `at` with a space behind it.
fn keyword_end(text: &Vec<char>, at: usize, end: usize, word: &str) -> (behind: Option<usize>)
    requires
        at <= end <= text.len(),
    ensures
        behind is Some <==> keyword_at(text@, at as int, end as int, word@),
        behind matches Some(place) ==> place == at + word@.len() && place < end,
{
    if stands_at_place(text, at, end, word) {
        let length = chars_of(word).len();
        if at + length < end && is_space_char(text[at + length]) {
            return Some(at + length);
        }
    }
    None
}

/// The text of `query` from `lo` up to `hi`, spaces aside.
fn trimmed_text<'a>(query: &'a str, text: &Vec<char>, lo: usize, hi: usize) -> (out: &'a str)
    requires
        text@ == query@,
        lo <= hi <= text.len(),
    ensures
        out@ == trimmed(text@, lo as int, hi as int),
{
    let from = skip_spaces_from(text, lo, hi);
    let to = drop_spaces_from(text, from, hi);
    query.substring_char(from, to)
}

fn read_number(query: &str, text: &Vec<char>, lo: usize, hi: usize) -> (number: Option<usize>)
    requires
        text@ == query@,
        lo <= hi <= text.len(),
    ensures
        match number {
            Some(n) => number_at(text@, lo as int, hi as int) == Some(n as int),
            None => number_at(text@, lo as int, hi as int) is None,
        },
{
    match parse_decimal(trimmed_text(query, text, lo, hi), usize::MAX as u64) {
        Some(n) => Some(n as usize),
        None => None,
    }
}

fn read_type(query: &str, text: &Vec<char>, lo: usize, hi: usize) -> (out: TsFieldType)
    requires
        text@ == query@,
        lo <= hi <= text.len(),
    ensures
        out@ == type_at(text@, lo as int, hi as int),
{
    TsFieldType::get_ts_field_from_annotation(trimmed_text(query, text, lo, hi))
}

fn read_union(query: &str, text: &Vec<char>, lo: usize, hi: usize) -> (types: Vec<TsFieldType>)
    requires
        text@ == query@,
        lo <= hi <= text.len(),
    ensures
        field_models(types@) == union_at(text@, lo as int, hi as int),
{
    let mut types: Vec<TsFieldType> = Vec::new();
    let mut at = lo;
    loop
        invariant
            text@ == query@,
            lo <= at <= hi <= text.len(),
            union_at(text@, lo as int, hi as int) == field_models(types@) + union_at(
                text@,
                at as int,
                hi as int,
            ),
        decreases hi - at,
    {
        let ghost before = types@;
        let bar = find_char(text, at, hi, '|');
        types.push(read_type(query, text, at, bar));
        proof {
            assert(field_models(types@) =~= field_models(before) + seq![
                type_at(text@, at as int, bar as int),
            ]);
        }
        if bar >= hi {
            proof {
                assert(field_models(types@) =~= union_at(text@, lo as int, hi as int));
            }
            return types;
        }
        proof {
            assert(union_at(text@, lo as int, hi as int) =~= field_models(types@) + union_at(
                text@,
                bar + 1,
                hi as int,
            ));
        }
        at = bar + 1;
    }
}

fn read_param(query: &str, text: &Vec<char>, lo: usize, hi: usize) -> (directive: Option<
    Directive,
>)
    requires
        text@ == query@,
        lo <= hi <= text.len(),
    ensures
        match directive {
            Some(d) => param_directive(text@, lo as int, hi as int) == Some(d@),
            None => param_directive(text@, lo as int, hi as int) is None,
        },
{
    let colon = find_char(text, lo, hi, ':');
    if colon >= hi {
        return None;
    }
    match read_number(query, text, lo, colon) {
        Some(index) => Some(
            Directive::Param { index, param_type: read_type(query, text, colon + 1, hi) },
        ),
        None => None,
    }
}

fn read_result(query: &str, text: &Vec<char>, lo: usize, hi: usize) -> (directive: Option<
    Directive,
>)
    requires
        text@ == query@,
        lo <= hi <= text.len(),
    ensures
        match directive {
            Some(d) => result_directive(text@, lo as int, hi as int) == Some(d@),
            None => result_directive(text@, lo as int, hi as int) is None,
        },
{
    let colon = find_char(text, lo, hi, ':');
    if colon >= hi {
        return None;
    }
    let from = skip_spaces_from(text, lo, colon);
    let to = drop_spaces_from(text, from, colon);
    if from >= to {
        return None;
    }
    Some(
        Directive::Result {
            name: String::from_str(query.substring_char(from, to)),
            types: read_union(query, text, colon + 1, hi),
        },
    )
}

fn read_insert_param(query: &str, text: &Vec<char>, lo: usize, hi: usize) -> (directive: Option<
    Directive,
>)
    requires
        text@ == query@,
        lo <= hi <= text.len(),
    ensures
        match directive {
            Some(d) => insert_param_directive(text@, lo as int, hi as int) == Some(d@),
            None => insert_param_directive(text@, lo as int, hi as int) is None,
        },
{
    let colon = find_char(text, lo, hi, ':');
    if colon >= hi {
        return None;
    }
    let comma = find_char(text, lo, colon, ',');
    if comma >= colon {
        return None;
    }
    let row = read_number(query, text, lo, comma);
    let column = read_number(query, text, comma + 1, colon);
    match (row, column) {
        (Some(row), Some(column)) => Some(
            Directive::InsertParam {
                row,
                column,
                param_type: read_type(query, text, colon + 1, hi),
            },
        ),
        _ => None,
    }
}

/// The directive that the comment in `query` from `lo` up to `hi` holds,
/// counted in characters; `text` holds the characters of `query`.
fn read_directive(query: &str, text: &Vec<char>, lo: usize, hi: usize) -> (directive: Option<
    Directive,
>)
    requires
        text@ == query@,
        lo <= hi <= text.len(),
    ensures
        match directive {
            Some(d) => directive_of(text@, lo as int, hi as int) == Some(d@),
            None => directive_of(text@, lo as int, hi as int) is None,
        },
{
    let from = skip_spaces_from(text, lo, hi);
    let to = drop_spaces_from(text, from, hi);
    if from >= to || text[from] != '@' {
        return None;
    }
    let known = if let Some(behind) = keyword_end(text, from, to, "@param") {
        read_param(query, text, behind, to)
    } else if let Some(behind) = keyword_end(text, from, to, "@result") {
        read_result(query, text, behind, to)
    } else if let Some(behind) = keyword_end(text, from, to, "@insert-param") {
        read_insert_param(query, text, behind, to)
    } else {
        None
    };
    match known {
        Some(directive) => Some(directive),
        None => Some(Directive::Unrecognized(String::from_str(query.substring_char(from, to)))),
    }
}

/// The directive that a comment holds, where `comment` is the text between
/// the marks of the comment; `None` for a comment that does not begin with
/// `@`.
pub fn parse_directive(comment: &str) -> (directive: Option<Directive>)
    ensures
        match directive {
            Some(d) => directive_of(comment@, 0, comment@.len() as int) == Some(d@),
            None => directive_of(comment@, 0, comment@.len() as int) is None,
        },
{
    let text = chars_of(comment);
    read_directive(comment, &text, 0, text.len())
}

/// The annotations of one query.
#[derive(Debug)]
pub struct Annotations {
    /// The types given to parameters, by index.
    pub params: BTreeMap<usize, TsFieldType>,
    /// The types given to columns of the result, by name.
    pub results: ColumnTypes,
    /// The types given to the parameters of an `INSERT`, by row and column.
    pub insert_params: BTreeMap<usize, BTreeMap<usize, TsFieldType>>,
    /// The directives that were not understood, in the order of the source.
    pub unrecognized: Vec<String>,
}

/// The mathematical value of [`Annotations`].
pub struct AnnotationsView {
    pub params: Map<int, FieldType>,
    pub results: Map<Seq<char>, Seq<FieldType>>,
    pub insert_params: Map<int, Map<int, FieldType>>,
    pub unrecognized: Seq<Seq<char>>,
}

impl View for Annotations {
    type V = AnnotationsView;

    open spec fn view(&self) -> AnnotationsView {
        AnnotationsView {
            params: row_model(self.params@),
            results: as_map(self.results@),
            insert_params: rows_model(self.insert_params@),
            unrecognized: self.unrecognized@.map_values(|text: String| text@),
        }
    }
}

/// No annotation at all.
pub open spec fn no_annotations() -> AnnotationsView {
    AnnotationsView {
        params: Map::empty(),
        results: Map::empty(),
        insert_params: Map::empty(),
        unrecognized: Seq::empty(),
    }
}

/// `a` with one more directive. A later directive for the same parameter
/// or column takes the place of an earlier one.
pub open spec fn with_directive(a: AnnotationsView, directive: DirectiveView) -> AnnotationsView {
    match directive {
        DirectiveView::Param { index, param_type } => AnnotationsView {
            params: a.params.insert(index, param_type),
            ..a
        },
        DirectiveView::Result { name, types } => AnnotationsView {
            results: a.results.insert(name, types),
            ..a
        },
        DirectiveView::InsertParam { row, column, param_type } => {
            let cells = if a.insert_params.contains_key(row) {
                a.insert_params[row]
            } else {
                Map::empty()
            };
            AnnotationsView {
                insert_params: a.insert_params.insert(row, cells.insert(column, param_type)),
                ..a
            }
        },
        DirectiveView::Unrecognized(text) => AnnotationsView {
            unrecognized: a.unrecognized.push(text),
            ..a
        },
    }
}

/// `a` with the directive of the comment in `text` from `lo` up to `hi`, if
/// it holds one.
pub open spec fn with_comment(a: AnnotationsView, text: Seq<char>, lo: int, hi: int) -> AnnotationsView {
    match directive_of(text, lo, hi) {
        Some(directive) => with_directive(a, directive),
        None => a,
    }
}

/// `so_far` with the directives of the comments that stand in `text` from
/// `at` on, before anything that is neither a comment nor a space. A
/// comment goes from `--` to the end of the line or from `/*` to the next
/// `*/`, or to the end of `text` where that is missing.
pub open spec fn annotations_from(text: Seq<char>, at: int, so_far: AnnotationsView) -> AnnotationsView
    decreases text.len() - at,
{
    let end = text.len() as int;
    let start = skip_spaces(text, at, end);
    if 0 <= at <= start && start + 1 < end {
        let lo = start + 2;
        if text[start] == '-' && text[start + 1] == '-' {
            let hi = find(text, lo, end, '\n');
            if lo <= hi < end {
                annotations_from(text, hi + 1, with_comment(so_far, text, lo, hi))
            } else {
                with_comment(so_far, text, lo, end)
            }
        } else if text[start] == '/' && text[start + 1] == '*' {
            let hi = find_close(text, lo);
            if lo <= hi && hi + 2 <= end {
                annotations_from(text, hi + 2, with_comment(so_far, text, lo, hi))
            } else {
                with_comment(so_far, text, lo, end)
            }
        } else {
            so_far
        }
    } else {
        so_far
    }
}

/// The annotations that a query begins with.
pub open spec fn annotations_of(query: Seq<char>) -> AnnotationsView {
    annotations_from(query, 0, no_annotations())
}

impl Annotations {
    /// The invariant of the type: that of the columns.
    pub open spec fn wf(&self) -> bool {
        self.results.wf()
    }

    /// No annotation at all.
    pub fn new() -> (out: Annotations)
        ensures
            out.wf(),
            out@ == no_annotations(),
    {
        let out = Annotations {
            params: BTreeMap::new(),
            results: ColumnTypes::new(),
            insert_params: BTreeMap::new(),
            unrecognized: Vec::new(),
        };
        proof {
            assert(out@.params =~= Map::empty());
            assert(out@.results =~= Map::empty());
            assert(out@.insert_params =~= Map::empty());
            assert(out@.unrecognized =~= Seq::empty());
        }
        out
    }

    /// Takes in one more directive.
    pub fn add(&mut self, directive: Directive)
        requires
            old(self).wf(),
        ensures
            final(self).wf(),
            final(self)@ == with_directive(old(self)@, directive@),
    {
        let ghost before = self@;
        match directive {
            Directive::Param { index, param_type } => {
                self.params.insert(index, param_type);
                proof {
                    assert(self@.params =~= before.params.insert(index as int, param_type@));
                }
            },
            Directive::Result { name, types } => {
                self.results.insert(name, types);
            },
            Directive::InsertParam { row, column, param_type } => {
                let mut cells = match self.insert_params.remove(&row) {
                    Some(cells) => cells,
                    None => BTreeMap::new(),
                };
                let ghost old_cells = cells@;
                cells.insert(column, param_type);
                let ghost new_cells = cells@;
                self.insert_params.insert(row, cells);
                proof {
                    let model_cells = if before.insert_params.contains_key(row as int) {
                        before.insert_params[row as int]
                    } else {
                        Map::empty()
                    };
                    assert(row_model(old_cells) =~= model_cells);
                    assert(row_model(new_cells) =~= model_cells.insert(
                        column as int,
                        param_type@,
                    ));
                    assert(self@.insert_params =~= before.insert_params.insert(
                        row as int,
                        row_model(new_cells),
                    ));
                }
            },
            Directive::Unrecognized(text) => {
                self.unrecognized.push(text);
                proof {
                    assert(self@.unrecognized =~= before.unrecognized.push(text@));
                }
            },
        }
    }
}

/// The annotations that `query` begins with: the directives of the comments
/// that stand before its first word.
pub fn parse_annotations(query: &str) -> (out: Annotations)
    ensures
        out.wf(),
        out@ == annotations_of(query@),
{
    let text = chars_of(query);
    let end = text.len();
    let mut out = Annotations::new();
    let mut at: usize = 0;
    loop
        invariant
            text@ == query@,
            end == text.len(),
            at <= end,
            out.wf(),
            annotations_of(query@) == annotations_from(text@, at as int, out@),
        decreases end - at,
    {
        let start = skip_spaces_from(&text, at, end);
        if end - start < 2 {
            return out;
        }
        let lo = start + 2;
        let hi = if text[start] == '-' && text[start + 1] == '-' {
            find_char(&text, lo, end, '\n')
        } else if text[start] == '/' && text[start + 1] == '*' {
            find_close_from(&text, lo)
        } else {
            return out;
        };
        let is_line = text[start] == '-';
        if let Some(directive) = read_directive(query, &text, lo, hi) {
            out.add(directive);
        }
        if hi >= end {
            return out;
        }
        at = if is_line {
            hi + 1
        } else {
            hi + 2
        };
    }
}

/// Hands the annotations of a query to its shape, where they take the place
/// of inferred types from then on, and hands back the directives that were
/// not understood.
pub fn annotate(query: &mut TsQuery, annotations: Annotations) -> (unrecognized: Vec<String>)
    requires
        old(query).wf(),
        annotations.wf(),
    ensures
        final(query).wf(),
        final(query)@ == (QueryShape {
            annotated_params: annotations@.params,
            annotated_insert_params: annotations@.insert_params,
            annotated_results: annotations.results@,
            ..old(query)@
        }),
        unrecognized == annotations.unrecognized,
{
    query.set_annotated_params(annotations.params);
    query.set_annotated_insert_params(annotations.insert_params);
    query.set_annotated_results(annotations.results);
    annotations.unrecognized
}

} // verus!
