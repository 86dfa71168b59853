//! Partition columns, as the command line declares them.
//!
//! A partition string has the form `name1:type1, name2:type2, ...`: one
//! segment for each column, in the order in which the partition directories
//! nest on storage.

use vstd::prelude::*;
use crate::error::{ErrorKind, Failure, ViewerError};
use crate::text;
use crate::utils::{
    lemma_type_names_are_plain, spec_type_from_str, spec_type_lookup, type_from_str, DataType,
};

verus! {

/// A partition column as a mathematical value: its name and its type.
pub type ColumnView = (Seq<char>, DataType);

/// The partition columns of a list, as mathematical values.
pub open spec fn spec_columns_view(columns: Seq<(String, DataType)>) -> Seq<ColumnView> {
    columns.map_values(|c: (String, DataType)| (c.0@, c.1))
}

/// The column that one segment of a partition string declares. White space
/// around the segment does not count. What is left must be two tokens with
/// one colon between them: the name, taken as it stands, and the name of a
/// known type. A segment of another shape is a failure of kind
/// `InvalidPartitionSpec` about the segment; an unknown type name is a
/// failure of kind `UnsupportedType` about that name.
pub open spec fn spec_column(segment: Seq<char>) -> Result<ColumnView, Failure> {
    let trimmed = text::spec_trim(segment);
    let tokens = text::spec_split(trimmed, ':');
    if tokens.len() != 2 {
        Err(Failure { kind: ErrorKind::InvalidPartitionSpec, detail: trimmed })
    } else {
        match spec_type_lookup(tokens[1]) {
            Ok(t) => Ok((tokens[0], t)),
            Err(e) => Err(e),
        }
    }
}

/// The columns that a list of segments declares, in the order of the
/// segments, or the failure of the first segment that has one.
pub open spec fn spec_columns(segments: Seq<Seq<char>>) -> Result<Seq<ColumnView>, Failure>
    decreases segments.len(),
{
    if segments.len() == 0 {
        Ok(Seq::empty())
    } else {
        match spec_columns(segments.drop_last()) {
            Err(e) => Err(e),
            Ok(columns) => match spec_column(segments.last()) {
                Ok(c) => Ok(columns.push(c)),
                Err(e) => Err(e),
            },
        }
    }
}

/// The partition columns that a partition string declares: those of its
/// segments between commas.
pub open spec fn spec_partitions(partitions: Seq<char>) -> Result<Seq<ColumnView>, Failure> {
    spec_columns(text::spec_split(partitions, ','))
}

/// A failure among the first segments of a list is the failure of the whole
/// list.
pub proof fn lemma_first_failure_stands(segments: Seq<Seq<char>>, n: int)
    requires
        0 <= n <= segments.len(),
        spec_columns(segments.take(n)) is Err,
    ensures
        spec_columns(segments) == spec_columns(segments.take(n)),
    decreases segments.len() - n,
{
    if n == segments.len() {
        assert(segments.take(n) =~= segments);
    } else {
        assert(segments.take(n + 1).drop_last() =~= segments.take(n));
        lemma_first_failure_stands(segments, n + 1);
    }
}

/// Reads one segment of a partition string.
pub fn parse_column(segment: &Vec<char>) -> (r: Result<(String, DataType), ViewerError>)
    ensures
        match r {
            Ok(c) => spec_column(segment@) == Ok::<ColumnView, Failure>((c.0@, c.1)),
            Err(e) => spec_column(segment@) == Err::<ColumnView, Failure>(e@),
        },
{
    let trimmed = text::trim(segment);
    let tokens = text::split(&trimmed, ':');
    if tokens.len() != 2 {
        let detail = text::to_string(&trimmed);
        Err(ViewerError { kind: ErrorKind::InvalidPartitionSpec, detail })
    } else {
        assert(text::spec_pieces(tokens@)[0] == tokens@[0]@);
        assert(text::spec_pieces(tokens@)[1] == tokens@[1]@);
        let type_token = text::to_string(&tokens[1]);
        match type_from_str(type_token.as_str()) {
            Ok(t) => Ok((text::to_string(&tokens[0]), t)),
            Err(e) => Err(e),
        }
    }
}

/// The outcome of reading a partition string as a mathematical value.
pub open spec fn spec_columns_outcome(r: Result<Vec<(String, DataType)>, ViewerError>) -> Result<
    Seq<ColumnView>,
    Failure,
> {
    match r {
        Ok(columns) => Ok(spec_columns_view(columns@)),
        Err(e) => Err(e@),
    }
}

/// Reads a partition string of the form `name1:type1, name2:type2, ...`.
/// The columns come out in the order in which the string names them. One
/// bad segment fails the whole string: there is no partial result.
pub fn parse_partitions(partitions: &str) -> (r: Result<Vec<(String, DataType)>, ViewerError>)
    ensures
        spec_columns_outcome(r) == spec_partitions(partitions@),
{
    let chars = text::to_chars(partitions);
    let segments = text::split(&chars, ',');
    let ghost all = text::spec_split(partitions@, ',');
    let mut columns: Vec<(String, DataType)> = Vec::new();
    let mut i: usize = 0;
    assert(spec_columns_view(columns@) =~= Seq::<ColumnView>::empty());
    while i < segments.len()
        invariant
            i <= segments.len(),
            text::spec_pieces(segments@) == all,
            all == text::spec_split(partitions@, ','),
            spec_columns(all.take(i as int)) == Ok::<Seq<ColumnView>, Failure>(
                spec_columns_view(columns@),
            ),
        decreases segments.len() - i,
    {
        assert(all.take(i as int + 1).drop_last() =~= all.take(i as int));
        assert(all.take(i as int + 1).last() == segments@[i as int]@);
        match parse_column(&segments[i]) {
            Ok(c) => {
                let ghost before = spec_columns_view(columns@);
                columns.push(c);
                assert(spec_columns_view(columns@) =~= before.push((c.0@, c.1)));
            },
            Err(e) => {
                proof {
                    lemma_first_failure_stands(all, i as int + 1);
                }
                return Err(e);
            },
        }
        i += 1;
    }
    assert(all.take(segments.len() as int) =~= all);
    Ok(columns)
}

/// The partition columns of a table, given the partition string of the
/// command line: none where there is no string, else what the string
/// declares.
pub open spec fn spec_get_partitions_spec(partitions: Option<String>) -> Result<
    Option<Seq<ColumnView>>,
    Failure,
> {
    match partitions {
        None => Ok(None),
        Some(p) => match spec_partitions(p@) {
            Ok(columns) => Ok(Some(columns)),
            Err(e) => Err(e),
        },
    }
}

/// The outcome of reading an optional partition string as a mathematical
/// value.
pub open spec fn spec_partitions_outcome(
    r: Result<Option<Vec<(String, DataType)>>, ViewerError>,
) -> Result<Option<Seq<ColumnView>>, Failure> {
    match r {
        Ok(Some(columns)) => Ok(Some(spec_columns_view(columns@))),
        Ok(None) => Ok(None),
        Err(e) => Err(e@),
    }
}

/// Reads the partition string of the command line, if there is one. `None`
/// stands for a table without partition columns.
pub fn get_partitions_spec(partitions: &Option<String>) -> (r: Result<
    Option<Vec<(String, DataType)>>,
    ViewerError,
>)
    ensures
        spec_partitions_outcome(r) == spec_get_partitions_spec(*partitions),
{
    match partitions {
        None => Ok(None),
        Some(p) => match parse_partitions(p.as_str()) {
            Ok(columns) => Ok(Some(columns)),
            Err(e) => Err(e),
        },
    }
}

/// Reading goes segment by segment. It succeeds exactly when every segment
/// declares a column, and then the columns are those of the segments, one
/// for one and in their order. It fails with the failure of the first
/// segment that declares none.
pub proof fn lemma_columns_go_by_segment(segments: Seq<Seq<char>>)
    ensures
        match spec_columns(segments) {
            Ok(columns) => {
                &&& columns.len() == segments.len()
                &&& forall|i: int|
                    0 <= i < segments.len() ==> spec_column(#[trigger] segments[i]) == Ok::<
                        ColumnView,
                        Failure,
                    >(columns[i])
            },
            Err(e) => exists|i: int|
                {
                    &&& 0 <= i < segments.len()
                    &&& spec_column(#[trigger] segments[i]) == Err::<ColumnView, Failure>(e)
                    &&& forall|j: int| 0 <= j < i ==> spec_column(#[trigger] segments[j]) is Ok
                },
        },
    decreases segments.len(),
{
    if segments.len() > 0 {
        let front = segments.drop_last();
        lemma_columns_go_by_segment(front);
        match spec_columns(front) {
            Ok(columns) => {
                match spec_column(segments.last()) {
                    Ok(c) => {
                        let all = columns.push(c);
                        assert(spec_columns(segments) == Ok::<Seq<ColumnView>, Failure>(all));
                        assert forall|i: int| 0 <= i < segments.len() implies spec_column(
                            #[trigger] segments[i],
                        ) == Ok::<ColumnView, Failure>(all[i]) by {
                            if i < front.len() {
                                assert(segments[i] == front[i]);
                            }
                        }
                    },
                    Err(e) => {
                        let i = segments.len() - 1;
                        assert(spec_column(segments[i]) == Err::<ColumnView, Failure>(e));
                        assert forall|j: int| 0 <= j < i implies spec_column(
                            #[trigger] segments[j],
                        ) is Ok by {
                            assert(segments[j] == front[j]);
                        }
                    },
                }
            },
            Err(e) => {
                let i = choose|i: int|
                    {
                        &&& 0 <= i < front.len()
                        &&& spec_column(#[trigger] front[i]) == Err::<ColumnView, Failure>(e)
                        &&& forall|j: int| 0 <= j < i ==> spec_column(#[trigger] front[j]) is Ok
                    };
                assert(segments[i] == front[i]);
                assert forall|j: int| 0 <= j < i implies spec_column(
                    #[trigger] segments[j],
                ) is Ok by {
                    assert(segments[j] == front[j]);
                }
            },
        }
    }
}

/// Whether a segment, white space around it set aside, is two tokens with
/// one colon between them.
pub open spec fn spec_has_two_tokens(segment: Seq<char>) -> bool {
    text::spec_split(text::spec_trim(segment), ':').len() == 2
}

/// The second token of a segment: the name of the column's type.
pub open spec fn spec_type_token(segment: Seq<char>) -> Seq<char> {
    text::spec_split(text::spec_trim(segment), ':')[1]
}

/// Whether the segment at a place names a type that is not known, while it
/// and every segment before it has the form `name:type`.
pub open spec fn spec_names_unknown_type(segments: Seq<Seq<char>>, at: int) -> bool {
    &&& 0 <= at < segments.len()
    &&& forall|j: int| 0 <= j <= at ==> spec_has_two_tokens(#[trigger] segments[j])
    &&& spec_type_from_str(spec_type_token(segments[at])) is None
}

/// A partition string that names a type which is not known, in a segment
/// before which every segment has the form `name:type`, fails with a failure
/// of kind `UnsupportedType`: it yields no columns at all, not those of the
/// segments that could be read. What follows the segment plays no part.
pub proof fn lemma_unknown_type_fails(partitions: Seq<char>)
    requires
        exists|at: int| #[trigger] spec_names_unknown_type(text::spec_split(partitions, ','), at),
    ensures
        spec_partitions(partitions) is Err,
        spec_partitions(partitions)->Err_0.kind == ErrorKind::UnsupportedType,
{
    let segments = text::spec_split(partitions, ',');
    lemma_columns_go_by_segment(segments);
    let bad = choose|at: int| #[trigger] spec_names_unknown_type(segments, at);
    assert(spec_has_two_tokens(segments[bad]));
    assert(spec_column(segments[bad]) is Err);
    match spec_columns(segments) {
        Ok(columns) => {
            assert(false);
        },
        Err(e) => {
            let i = choose|i: int|
                {
                    &&& 0 <= i < segments.len()
                    &&& spec_column(#[trigger] segments[i]) == Err::<ColumnView, Failure>(e)
                    &&& forall|j: int| 0 <= j < i ==> spec_column(#[trigger] segments[j]) is Ok
                };
            if i > bad {
                assert(spec_column(segments[bad]) is Ok);
            }
            assert(spec_has_two_tokens(segments[i]));
        },
    }
}

/// A column as the command line writes it: the name, a colon, and the name
/// of the type.
pub open spec fn spec_declaration(name: Seq<char>, type_token: Seq<char>) -> Seq<char> {
    name + seq![':'] + type_token
}

/// A list of columns as the command line writes it: the declarations, with
/// a comma between one and the next.
pub open spec fn spec_declarations(columns: Seq<(Seq<char>, Seq<char>)>) -> Seq<char>
    decreases columns.len(),
{
    if columns.len() == 0 {
        Seq::empty()
    } else if columns.len() == 1 {
        spec_declaration(columns[0].0, columns[0].1)
    } else {
        spec_declarations(columns.drop_last()) + seq![','] + spec_declaration(
            columns.last().0,
            columns.last().1,
        )
    }
}

/// A column name that can be written down as it stands: it holds neither
/// comma nor colon and does not begin with white space.
pub open spec fn spec_plain_name(name: Seq<char>) -> bool {
    &&& forall|i: int| 0 <= i < name.len() ==> name[i] != ',' && name[i] != ':'
    &&& name.len() > 0 ==> !text::spec_is_whitespace(name[0])
}

/// The columns that a list of declarations stands for.
pub open spec fn spec_declared(columns: Seq<(Seq<char>, Seq<char>)>) -> Seq<ColumnView> {
    columns.map_values(|c: (Seq<char>, Seq<char>)| (c.0, spec_type_from_str(c.1)->0))
}

/// One declaration with a plain name and a known type is read as that
/// column, and holds no comma.
pub proof fn lemma_declaration_is_read(name: Seq<char>, type_token: Seq<char>)
    requires
        spec_plain_name(name),
        spec_type_from_str(type_token) is Some,
    ensures
        spec_column(spec_declaration(name, type_token)) == Ok::<ColumnView, Failure>(
            (name, spec_type_from_str(type_token)->0),
        ),
        forall|i: int|
            0 <= i < spec_declaration(name, type_token).len() ==> spec_declaration(
                name,
                type_token,
            )[i] != ',',
{
    let d = spec_declaration(name, type_token);
    lemma_type_names_are_plain(type_token);
    assert(d.len() == name.len() + 1 + type_token.len());
    assert(d[0] == if name.len() > 0 {
        name[0]
    } else {
        ':'
    });
    assert(d.last() == type_token.last());
    text::lemma_trim_of_trimmed(d);
    text::lemma_split_joined(name, type_token, ':');
    text::lemma_split_without_separator(name, ':');
    text::lemma_split_without_separator(type_token, ':');
    assert(text::spec_split(d, ':') =~= seq![name, type_token]);
}

/// The segments of a list of declarations are the declarations.
pub proof fn lemma_declarations_split(columns: Seq<(Seq<char>, Seq<char>)>)
    requires
        columns.len() >= 1,
        forall|i: int|
            0 <= i < columns.len() ==> spec_plain_name(#[trigger] columns[i].0)
                && spec_type_from_str(columns[i].1) is Some,
    ensures
        text::spec_split(spec_declarations(columns), ',') == columns.map_values(
            |c: (Seq<char>, Seq<char>)| spec_declaration(c.0, c.1),
        ),
    decreases columns.len(),
{
    let last = spec_declaration(columns.last().0, columns.last().1);
    let written = columns.map_values(|c: (Seq<char>, Seq<char>)| spec_declaration(c.0, c.1));
    assert(spec_plain_name(columns[columns.len() - 1].0));
    lemma_declaration_is_read(columns.last().0, columns.last().1);
    text::lemma_split_without_separator(last, ',');
    if columns.len() == 1 {
        assert(text::spec_split(spec_declarations(columns), ',') =~= written);
    } else {
        let front = columns.drop_last();
        assert forall|i: int| 0 <= i < front.len() implies spec_plain_name(#[trigger] front[i].0)
            && spec_type_from_str(front[i].1) is Some by {
            assert(front[i] == columns[i]);
            assert(spec_plain_name(columns[i].0));
        }
        lemma_declarations_split(front);
        text::lemma_split_joined(spec_declarations(front), last, ',');
        assert(text::spec_split(spec_declarations(columns), ',') =~= written);
    }
}

/// Reading what was written gives back what was meant: a partition string
/// made of declarations `name:type`, with plain names and known types and
/// commas between them, is read as exactly these columns, in the order in
/// which they stand. So `a:int,b:string` is the column `a` of 32-bit
/// integers followed by the column `b` of text.
pub proof fn lemma_declared_columns_are_read(columns: Seq<(Seq<char>, Seq<char>)>)
    requires
        columns.len() >= 1,
        forall|i: int|
            0 <= i < columns.len() ==> spec_plain_name(#[trigger] columns[i].0)
                && spec_type_from_str(columns[i].1) is Some,
    ensures
        spec_partitions(spec_declarations(columns)) == Ok::<Seq<ColumnView>, Failure>(
            spec_declared(columns),
        ),
{
    let segments = columns.map_values(|c: (Seq<char>, Seq<char>)| spec_declaration(c.0, c.1));
    lemma_declarations_split(columns);
    lemma_columns_go_by_segment(segments);
    assert forall|i: int| 0 <= i < segments.len() implies spec_column(#[trigger] segments[i])
        == Ok::<ColumnView, Failure>(spec_declared(columns)[i]) by {
        assert(spec_plain_name(columns[i].0));
        lemma_declaration_is_read(columns[i].0, columns[i].1);
    }
    match spec_columns(segments) {
        Ok(read) => {
            assert forall|i: int| 0 <= i < read.len() implies read[i] == spec_declared(
                columns,
            )[i] by {
                assert(spec_column(segments[i]) == Ok::<ColumnView, Failure>(read[i]));
            }
            assert(read =~= spec_declared(columns));
        },
        Err(e) => {
            let i = choose|i: int|
                {
                    &&& 0 <= i < segments.len()
                    &&& spec_column(#[trigger] segments[i]) == Err::<ColumnView, Failure>(e)
                    &&& forall|j: int| 0 <= j < i ==> spec_column(#[trigger] segments[j]) is Ok
                };
            assert(false);
        },
    }
}

} // verus!
