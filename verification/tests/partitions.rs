use adt::error::ErrorKind;
use adt::partitions::{get_partitions_spec, parse_column, parse_partitions};
use adt::text::{split, to_chars, to_string, trim, trim_end};
use adt::utils::{DataType, TimeUnit};

fn col(name: &str, data_type: DataType) -> (String, DataType) {
    (String::from(name), data_type)
}

fn chars(s: &str) -> Vec<char> {
    s.chars().collect()
}

#[test]
fn two_columns_in_order() {
    assert_eq!(
        parse_partitions("a:int,b:string"),
        Ok(vec![col("a", DataType::Int32), col("b", DataType::Utf8)])
    );
    assert_eq!(
        parse_partitions("b:string,a:int"),
        Ok(vec![col("b", DataType::Utf8), col("a", DataType::Int32)])
    );
}

#[test]
fn one_column() {
    assert_eq!(parse_partitions("part:int"), Ok(vec![col("part", DataType::Int32)]));
}

#[test]
fn every_type_in_a_partition_string() {
    assert_eq!(
        parse_partitions(
            "a:int,b:bigint,c:float,d:double,e:string,f:date,g:timestamp,h:timestamp_ms"
        ),
        Ok(vec![
            col("a", DataType::Int32),
            col("b", DataType::Int64),
            col("c", DataType::Float32),
            col("d", DataType::Float64),
            col("e", DataType::Utf8),
            col("f", DataType::Date32),
            col("g", DataType::Timestamp(TimeUnit::Second)),
            col("h", DataType::Timestamp(TimeUnit::Millisecond)),
        ])
    );
}

#[test]
fn white_space_around_segments_does_not_count() {
    assert_eq!(
        parse_partitions(" year:int ,\tmonth:int,  day:date\n"),
        Ok(vec![
            col("year", DataType::Int32),
            col("month", DataType::Int32),
            col("day", DataType::Date32)
        ])
    );
}

#[test]
fn white_space_inside_a_segment_counts() {
    let e = parse_partitions("a: int").unwrap_err();
    assert_eq!(e.kind, ErrorKind::UnsupportedType);
    assert_eq!(e.detail, " int");
    assert_eq!(parse_partitions("a b:int"), Ok(vec![col("a b", DataType::Int32)]));
    assert_eq!(parse_partitions("a :int"), Ok(vec![col("a ", DataType::Int32)]));
}

#[test]
fn unknown_type_fails_the_whole_string() {
    let e = parse_partitions("a:unknowntype").unwrap_err();
    assert_eq!(e.kind, ErrorKind::UnsupportedType);
    assert_eq!(e.detail, "unknowntype");
    let e = parse_partitions("a:int,b:unknowntype,c:string").unwrap_err();
    assert_eq!(e.kind, ErrorKind::UnsupportedType);
    assert_eq!(e.detail, "unknowntype");
    let e = parse_partitions("a:int,b:string,c:INT").unwrap_err();
    assert_eq!(e.kind, ErrorKind::UnsupportedType);
    assert_eq!(e.detail, "INT");
}

#[test]
fn segment_without_colon_is_malformed() {
    let e = parse_partitions("a").unwrap_err();
    assert_eq!(e.kind, ErrorKind::InvalidPartitionSpec);
    assert_eq!(e.detail, "a");
    let e = parse_partitions("a:int, b int ,c:string").unwrap_err();
    assert_eq!(e.kind, ErrorKind::InvalidPartitionSpec);
    assert_eq!(e.detail, "b int");
}

#[test]
fn segment_with_two_colons_is_malformed() {
    let e = parse_partitions("a:int:x").unwrap_err();
    assert_eq!(e.kind, ErrorKind::InvalidPartitionSpec);
    assert_eq!(e.detail, "a:int:x");
}

#[test]
fn empty_segments_are_malformed() {
    for text in ["", "a:int,", ",a:int", "a:int,,b:int", "  "] {
        let e = parse_partitions(text).unwrap_err();
        assert_eq!(e.kind, ErrorKind::InvalidPartitionSpec);
        assert_eq!(e.detail, "");
    }
}

#[test]
fn the_first_failure_is_reported() {
    let e = parse_partitions("a:nope,b").unwrap_err();
    assert_eq!(e.kind, ErrorKind::UnsupportedType);
    assert_eq!(e.detail, "nope");
    let e = parse_partitions("b,a:nope").unwrap_err();
    assert_eq!(e.kind, ErrorKind::InvalidPartitionSpec);
    assert_eq!(e.detail, "b");
}

#[test]
fn empty_name_is_taken_as_it_stands() {
    assert_eq!(parse_partitions(":int"), Ok(vec![col("", DataType::Int32)]));
    let e = parse_partitions("a:").unwrap_err();
    assert_eq!(e.kind, ErrorKind::UnsupportedType);
    assert_eq!(e.detail, "");
}

#[test]
fn absent_partition_string_means_no_columns() {
    assert_eq!(get_partitions_spec(&None), Ok(None));
}

#[test]
fn present_partition_string_is_read() {
    assert_eq!(
        get_partitions_spec(&Some(String::from("a:int,b:string"))),
        Ok(Some(vec![col("a", DataType::Int32), col("b", DataType::Utf8)]))
    );
    let e = get_partitions_spec(&Some(String::from("a:unknowntype"))).unwrap_err();
    assert_eq!(e.kind, ErrorKind::UnsupportedType);
    let e = get_partitions_spec(&Some(String::new())).unwrap_err();
    assert_eq!(e.kind, ErrorKind::InvalidPartitionSpec);
}

#[test]
fn one_segment() {
    assert_eq!(parse_column(&chars("  ts:timestamp_ms ")), Ok(col("ts", DataType::Timestamp(TimeUnit::Millisecond))));
    let e = parse_column(&chars(" x ")).unwrap_err();
    assert_eq!(e.kind, ErrorKind::InvalidPartitionSpec);
    assert_eq!(e.detail, "x");
}

#[test]
fn non_ascii_names_and_white_space() {
    assert_eq!(
        parse_partitions("\u{3000}année:int\u{a0},日付:date"),
        Ok(vec![col("année", DataType::Int32), col("日付", DataType::Date32)])
    );
}

#[test]
fn splitting_text() {
    let pieces = |s: &str, sep: char| -> Vec<String> {
        split(&chars(s), sep).iter().map(to_string).collect()
    };
    assert_eq!(pieces("a,b,c", ','), vec!["a", "b", "c"]);
    assert_eq!(pieces("", ','), vec![""]);
    assert_eq!(pieces(",", ','), vec!["", ""]);
    assert_eq!(pieces("a,,b,", ','), vec!["a", "", "b", ""]);
    assert_eq!(pieces("abc", ','), vec!["abc"]);
    assert_eq!(pieces("a:b", ':'), vec!["a", "b"]);
    let std_pieces: Vec<String> = "x,,y,".split(',').map(String::from).collect();
    assert_eq!(pieces("x,,y,", ','), std_pieces);
}

#[test]
fn trimming_text() {
    for s in ["", " ", "a", "  a b  ", "\t\n x \r\n", "\u{2003}x\u{2003}", "\u{200b}x", "\u{85}y\u{1680}"] {
        assert_eq!(to_string(&trim(&chars(s))), s.trim());
        assert_eq!(to_string(&trim_end(&chars(s))), s.trim_end());
    }
    assert_eq!(to_string(&trim(&chars("  a b  "))), "a b");
    assert_eq!(to_string(&trim_end(&chars("  a b  "))), "  a b");
}

#[test]
fn characters_of_a_string() {
    assert_eq!(to_chars("héllo"), vec!['h', 'é', 'l', 'l', 'o']);
    assert_eq!(to_chars(""), Vec::<char>::new());
    assert_eq!(to_string(&vec!['a', 'ß', 'c']), "aßc");
}
