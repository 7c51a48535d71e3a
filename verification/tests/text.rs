use paas_gateway::text::{address_text, decimal_text, split_at_commas};

#[test]
fn decimal_of_small_numbers() {
    assert_eq!(decimal_text(0), "0");
    assert_eq!(decimal_text(7), "7");
    assert_eq!(decimal_text(9), "9");
    assert_eq!(decimal_text(10), "10");
    assert_eq!(decimal_text(80), "80");
}

#[test]
fn decimal_of_ports() {
    assert_eq!(decimal_text(2181), "2181");
    assert_eq!(decimal_text(3306), "3306");
    assert_eq!(decimal_text(6379), "6379");
    assert_eq!(decimal_text(9000), "9000");
    assert_eq!(decimal_text(10000), "10000");
    assert_eq!(decimal_text(65535), "65535");
}

#[test]
fn decimal_agrees_with_std_everywhere() {
    let mut n: u16 = 0;
    loop {
        assert_eq!(decimal_text(n), n.to_string());
        if n == u16::MAX {
            break;
        }
        n += 1;
    }
}

#[test]
fn address_joins_host_and_port() {
    assert_eq!(address_text("localhost", 2181), "localhost:2181");
    assert_eq!(address_text("10.0.0.7", 0), "10.0.0.7:0");
    assert_eq!(address_text("", 65535), ":65535");
}

#[test]
fn split_without_comma_is_one_piece() {
    assert_eq!(split_at_commas("redis://127.0.0.1:6379"), vec!["redis://127.0.0.1:6379"]);
    assert_eq!(split_at_commas(""), vec![""]);
}

#[test]
fn split_keeps_order_and_empty_pieces() {
    assert_eq!(split_at_commas("a,b,c"), vec!["a", "b", "c"]);
    assert_eq!(split_at_commas("a,,b"), vec!["a", "", "b"]);
    assert_eq!(split_at_commas(",a"), vec!["", "a"]);
    assert_eq!(split_at_commas("a,"), vec!["a", ""]);
    assert_eq!(split_at_commas(","), vec!["", ""]);
    assert_eq!(split_at_commas(",,"), vec!["", "", ""]);
}

#[test]
fn split_counts_characters_not_bytes() {
    assert_eq!(split_at_commas("é,ü"), vec!["é", "ü"]);
    assert_eq!(split_at_commas("日本,語"), vec!["日本", "語"]);
    assert_eq!(split_at_commas("😀,,😀😀"), vec!["😀", "", "😀😀"]);
}

#[test]
fn split_agrees_with_std() {
    let samples = [
        "",
        ",",
        "a",
        "a,b",
        "redis://h1:1,redis://h2:2,redis://h3:3",
        " , ,",
        "no commas here",
        ",lead",
        "trail,",
        "ünï,cödé,,",
    ];
    for sample in samples {
        let expected: Vec<String> = sample.split(",").map(|s| s.to_string()).collect();
        assert_eq!(split_at_commas(sample), expected);
    }
}

#[test]
fn split_pieces_join_back() {
    let sample = "redis://a:1,,redis://b:2,";
    assert_eq!(split_at_commas(sample).join(","), sample);
}
