//! Tests of the os-release-style key/value parser.

use sp_variant::yai;

#[test]
fn parse_bad() {
    println!("\nMaking sure malformed lines are rejected");
    let lines_bad = vec![
        "NAME='",
        "NAME=\"foo'",
        "FOO BAR=baz",
        "FOO=bar\\",
        "FOO=\"meow\\\"",
    ];
    for line in &lines_bad {
        println!("- {line:?}");
        yai::parse_line(line).unwrap_err();
    }
}

#[test]
fn parse_comments() {
    println!("\nMaking sure comments and empty lines are ignored");
    let lines_comments = vec!["", "   \t  ", "  \t  # something", "#"];
    for line in &lines_comments {
        println!("- {line:?}");
        let res = yai::parse_line(line).unwrap();
        println!("  - {res:?}");
        assert_eq!(res, None);
    }
}

#[test]
fn parse_good() {
    println!("\nMaking sure well-formed lines are parsed correctly");
    let lines_ok = vec![
        ("ID=centos", ("ID", "centos")),
        ("ID='centos'", ("ID", "centos")),
        (
            "NAME='something long \"and weird'",
            ("NAME", "something long \"and weird"),
        ),
        (
            "NAME=\"something long \'and \\\\weird\\\"\\`\"",
            ("NAME", "something long 'and \\weird\"`"),
        ),
        (
            "NAME=unquoted\\\"and\\\\-escaped\\'",
            ("NAME", "unquoted\"and\\-escaped'"),
        ),
    ];
    for (line, (varname, value)) in &lines_ok {
        println!("- {line:?}");
        let (p_varname, p_value) = yai::parse_line(line).unwrap().unwrap();
        println!("  - name {p_varname:?} value {p_value:?}");
        assert_eq!(varname, &p_varname);
        assert_eq!(value, &p_value);
    }
}

#[test]
fn parse() {
    let cfg_text = "PRETTY_NAME=\"Debian GNU/Linux 11 (bullseye)\"
NAME=\"Debian GNU/Linux\"
VERSION_ID=\"11\"
VERSION=\"11 (bullseye)\"
VERSION_CODENAME=bullseye
ID=debian
HOME_URL=\"https://www.debian.org/\"
SUPPORT_URL=\"https://www.debian.org/support\"
BUG_REPORT_URL=\"https://bugs.debian.org/\"";
    let cfg_expected: Vec<(&str, Option<&str>)> = vec![
        ("ID", Some("debian")),
        ("VERSION_ID", Some("11")),
        ("VERSION", Some("11 (bullseye)")),
        ("FOO", None),
    ];
    println!("\nParsing a realistic os-release sample");
    let res = yai::parse_text(cfg_text).unwrap();
    assert_eq!(res.len(), 9);
    for (name, value) in &cfg_expected {
        let pvalue = res.get(name).map(|v| v.as_str());
        println!("- {name:?}: expected {value:?}, got {pvalue:?}");
        match value {
            Some(value) => match pvalue {
                Some(pvalue) => assert_eq!(value, &pvalue),
                None => panic!("{name}: expected {value:?} got {pvalue:?}"),
            },
            None => assert_eq!(pvalue, None),
        }
    }
}

#[test]
fn parse_edge_values() {
    // Empty values, in every quoting style.
    assert_eq!(
        yai::parse_line("A=").unwrap(),
        Some(("A".to_string(), "".to_string()))
    );
    assert_eq!(
        yai::parse_line("A=''").unwrap(),
        Some(("A".to_string(), "".to_string()))
    );
    assert_eq!(
        yai::parse_line("A=\"\"").unwrap(),
        Some(("A".to_string(), "".to_string()))
    );
    // A trailing quote without an opening one belongs to the value.
    assert_eq!(
        yai::parse_line("A=x'").unwrap(),
        Some(("A".to_string(), "x'".to_string()))
    );
    // Text after the closing quote leaves the quotes unbalanced.
    assert!(matches!(
        yai::parse_line("A=\"x\"y"),
        Err(yai::YAIError::MismatchedQuotes(_))
    ));
    // Here the stray inner quote is reported first.
    assert!(matches!(
        yai::parse_line("A='x'y"),
        Err(yai::YAIError::QuoteInQuoted(_))
    ));
}

#[test]
fn parse_last_line_wins() {
    let res = yai::parse_text("A=one\nA=two\nB=three").unwrap();
    assert_eq!(res.len(), 2);
    assert_eq!(res.get("A").map(|v| v.as_str()), Some("two"));
    assert_eq!(res.get("B").map(|v| v.as_str()), Some("three"));
}

#[test]
fn parse_error_kinds() {
    assert!(matches!(
        yai::parse_line("FOO=bar\\"),
        Err(yai::YAIError::BackslashAtEnd(l)) if l == "FOO=bar\\"
    ));
    assert!(matches!(
        yai::parse_line("FOO BAR=baz"),
        Err(yai::YAIError::BadLine(l)) if l == "FOO BAR=baz"
    ));
    assert!(matches!(
        yai::parse_line("NAME='a'b'"),
        Err(yai::YAIError::QuoteInQuoted(_))
    ));
    assert!(matches!(
        yai::parse_line("NAME='"),
        Err(yai::YAIError::MismatchedQuotes(_))
    ));
    assert!(matches!(
        yai::parse_line("NAME=\"foo'"),
        Err(yai::YAIError::MismatchedQuotes(_))
    ));
    // A failed line makes the whole text fail, even after good lines.
    assert!(matches!(
        yai::parse_text("GOOD=yes\nBAD=\"unterminated\nALSO=fine"),
        Err(yai::YAIError::MismatchedQuotes(l)) if l == "BAD=\"unterminated"
    ));
}

#[test]
fn parse_trailing_cr() {
    let res = yai::parse_text("ID=debian\r\nVERSION_ID=\"11\"\r\n").unwrap();
    assert_eq!(res.len(), 2);
    assert_eq!(res.get("ID").map(|v| v.as_str()), Some("debian"));
    assert_eq!(res.get("VERSION_ID").map(|v| v.as_str()), Some("11"));
}
