use todors::session::{parse_line, CommandKind};
use todors::text::{first_token, second_token, trim};
use todors::utils::{str_to_id, str_to_u32, ParseError};

#[test]
fn trim_removes_surrounding_whitespace() {
    assert_eq!(trim("  a b  "), "a b");
    assert_eq!(trim("\t\nword\r\n"), "word");
    assert_eq!(trim(""), "");
    assert_eq!(trim("   "), "");
    assert_eq!(trim("inner  space"), "inner  space");
    // non-ASCII whitespace is trimmed too, as char::is_whitespace draws it
    assert_eq!(trim("\u{a0}padded\u{a0}"), "padded");
    assert_eq!(trim("\u{2003}\u{3000}wide\u{2028}"), "wide");
}

#[test]
fn tokens_split_on_whitespace() {
    assert_eq!(first_token("  select 5 "), "select");
    assert_eq!(second_token("  select 5 "), "5");
    assert_eq!(first_token("list"), "list");
    assert_eq!(second_token("list"), "");
    assert_eq!(first_token(""), "");
    assert_eq!(second_token("select\t7 extra"), "7");
    assert_eq!(second_token("select\u{a0}9"), "9");
}

#[test]
fn str_to_id_accepts_decimal_indices() {
    assert_eq!(str_to_id("0"), Ok(0));
    assert_eq!(str_to_id("42"), Ok(42));
    assert_eq!(str_to_id("007"), Ok(7));
    // one optional leading + sign, as std's parse takes it
    assert_eq!(str_to_id("+7"), Ok(7));
    assert_eq!(str_to_id("+0"), Ok(0));
}

#[test]
fn str_to_id_rejects_bad_tokens() {
    assert_eq!(str_to_id(""), Err(ParseError::Empty));
    assert_eq!(str_to_id("4x"), Err(ParseError::InvalidDigit));
    assert_eq!(str_to_id("+"), Err(ParseError::InvalidDigit));
    assert_eq!(str_to_id("++1"), Err(ParseError::InvalidDigit));
    assert_eq!(str_to_id("1+"), Err(ParseError::InvalidDigit));
    assert_eq!(str_to_id("-1"), Err(ParseError::InvalidDigit));
    assert_eq!(str_to_id(" 3"), Err(ParseError::InvalidDigit));
    assert_eq!(
        str_to_id("99999999999999999999999999"),
        Err(ParseError::Overflow)
    );
}

#[test]
fn str_to_u32_handles_the_type_bound() {
    assert_eq!(str_to_u32("1695844953"), Ok(1695844953));
    assert_eq!(str_to_u32("4294967295"), Ok(u32::MAX));
    assert_eq!(str_to_u32("4294967296"), Err(ParseError::Overflow));
    assert_eq!(str_to_u32("0"), Ok(0));
    assert_eq!(str_to_u32(""), Err(ParseError::Empty));
    assert_eq!(str_to_u32("12.5"), Err(ParseError::InvalidDigit));
    assert_eq!(str_to_u32("+1695844953"), Ok(1695844953));
    assert_eq!(str_to_u32("+"), Err(ParseError::InvalidDigit));
    assert_eq!(str_to_u32("-1"), Err(ParseError::InvalidDigit));
    assert_eq!(str_to_u32("+4294967296"), Err(ParseError::Overflow));
}

#[test]
fn parse_line_classifies_commands() {
    assert_eq!(parse_line("create").kind, CommandKind::Create);
    assert_eq!(parse_line("list").kind, CommandKind::List);
    assert_eq!(parse_line("select 3").kind, CommandKind::Select);
    assert_eq!(parse_line("show").kind, CommandKind::Show);
    assert_eq!(parse_line("start").kind, CommandKind::Start);
    assert_eq!(parse_line("update").kind, CommandKind::Update);
    assert_eq!(parse_line("complete").kind, CommandKind::Complete);
    assert_eq!(parse_line("delete").kind, CommandKind::Delete);
    assert_eq!(parse_line("back").kind, CommandKind::Back);
    assert_eq!(parse_line("help").kind, CommandKind::Help);
    assert_eq!(parse_line("exit").kind, CommandKind::Exit);
}

#[test]
fn parse_line_blank_line_means_help() {
    assert_eq!(parse_line("").kind, CommandKind::Help);
    assert_eq!(parse_line("   \n").kind, CommandKind::Help);
}

#[test]
fn parse_line_is_case_sensitive_and_exact() {
    assert_eq!(parse_line("CREATE").kind, CommandKind::Unknown);
    assert_eq!(parse_line("lists").kind, CommandKind::Unknown);
    assert_eq!(parse_line("frobnicate now").kind, CommandKind::Unknown);
}

#[test]
fn parse_line_carries_the_second_token() {
    let p = parse_line("  select   12 ");
    assert_eq!(p.kind, CommandKind::Select);
    assert_eq!(p.argument, "12");
    let q = parse_line("select");
    assert_eq!(q.kind, CommandKind::Select);
    assert_eq!(q.argument, "");
}
