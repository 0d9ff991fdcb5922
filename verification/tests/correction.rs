use edi_amend::edi::{
    correct_edi_text, correct_lines, split_on, strip_outer_quotes, EdiError,
};

fn lines(texts: &[&str]) -> Vec<String> {
    texts.iter().map(|t| t.to_string()).collect()
}

#[test]
fn suppressed_address_segments_lower_the_trailing_count() {
    let input = lines(&["ISA*00", "N3", "N4", "SE*5*0001", "GE*1*1"]);
    let output = correct_lines(&input).unwrap();
    assert_eq!(output, lines(&["ISA*00", "SE*3*0001", "GE*1*1"]));
}

#[test]
fn no_address_segments_leaves_the_count_unchanged() {
    let input = lines(&["ISA*00", "SE*5*0001", "GE*1*1"]);
    let output = correct_lines(&input).unwrap();
    assert_eq!(output, lines(&["ISA*00", "SE*5*0001", "GE*1*1"]));
}

#[test]
fn only_exact_address_tags_are_suppressed() {
    let input = lines(&["N3*1 MAIN ST", "N4*SPRINGFIELD", "N3", "SE*9*0001"]);
    let output = correct_lines(&input).unwrap();
    assert_eq!(
        output,
        lines(&["N3*1 MAIN ST", "N4*SPRINGFIELD", "SE*8*0001"])
    );
}

#[test]
fn trailer_fields_beyond_the_count_are_preserved() {
    let input = lines(&["N3", "SE*5*0001*EXTRA*X"]);
    let output = correct_lines(&input).unwrap();
    assert_eq!(output, lines(&["SE*4*0001*EXTRA*X"]));
}

#[test]
fn count_is_reprinted_without_leading_zeros() {
    let input = lines(&["N3", "N4", "SE*0005*0001"]);
    let output = correct_lines(&input).unwrap();
    assert_eq!(output, lines(&["SE*3*0001"]));
}

#[test]
fn counting_keeps_running_after_a_trailer() {
    let input = lines(&["N3", "SE*5*0001", "N4", "SE*7*0002"]);
    let output = correct_lines(&input).unwrap();
    assert_eq!(output, lines(&["SE*4*0001", "SE*5*0002"]));
}

#[test]
fn missing_trailer_is_fatal() {
    let input = lines(&["ISA*00", "N3", "GE*1*1"]);
    assert_eq!(correct_lines(&input).unwrap_err(), EdiError::MissingTrailer);
}

#[test]
fn malformed_trailer_is_fatal() {
    let few_fields = lines(&["SE*5"]);
    assert_eq!(
        correct_lines(&few_fields).unwrap_err(),
        EdiError::MalformedTrailer
    );
    let non_numeric = lines(&["SE*x*0001"]);
    assert_eq!(
        correct_lines(&non_numeric).unwrap_err(),
        EdiError::MalformedTrailer
    );
    let empty_count = lines(&["SE**0001"]);
    assert_eq!(
        correct_lines(&empty_count).unwrap_err(),
        EdiError::MalformedTrailer
    );
}

#[test]
fn negative_count_is_fatal() {
    let input = lines(&["N3", "N4", "SE*1*0001"]);
    assert_eq!(correct_lines(&input).unwrap_err(), EdiError::NegativeCount);
    assert_eq!(
        EdiError::NegativeCount.message(),
        "segment count would become negative"
    );
}

#[test]
fn whole_text_pass_strips_quotes_and_splits_on_escapes() {
    let text = "\"ISA*00\\nN3\\nN4\\nSE*5*0001\\nGE*1*1\"";
    let output = correct_edi_text(text).unwrap();
    assert_eq!(output, lines(&["ISA*00", "SE*3*0001", "GE*1*1"]));
}

#[test]
fn strip_outer_quotes_removes_one_from_each_side() {
    assert_eq!(strip_outer_quotes("\"abc\""), "abc");
    assert_eq!(strip_outer_quotes("abc"), "abc");
    assert_eq!(strip_outer_quotes("\"abc"), "abc");
    assert_eq!(strip_outer_quotes("abc\""), "abc");
    assert_eq!(strip_outer_quotes("\"\"abc\"\""), "\"abc\"");
    assert_eq!(strip_outer_quotes("\""), "");
    assert_eq!(strip_outer_quotes(""), "");
}

#[test]
fn split_on_keeps_empty_parts() {
    assert_eq!(split_on("a*b**c", "*"), lines(&["a", "b", "", "c"]));
    assert_eq!(split_on("abc", "*"), lines(&["abc"]));
    assert_eq!(split_on("", "*"), lines(&[""]));
    assert_eq!(split_on("*a*", "*"), lines(&["", "a", ""]));
    assert_eq!(split_on("x\\ny", "\\n"), lines(&["x", "y"]));
}
