use chrono::NaiveDate;
use public_trading::options::{
    closing_range, date_text, option_name_from_parts, option_name_from_words, option_symbols,
    parse_option_name, Date, OptionName,
};
use public_trading::public::{Instrument, InstrumentType, OptionChain, OptionType, Quote};

fn quote(symbol: &str, bid: &str, ask: &str) -> Quote {
    Quote {
        instrument: Instrument { symbol: symbol.to_string(), itype: InstrumentType::OPTION },
        outcome: "SUCCESS".to_string(),
        last: "1.00".to_string(),
        last_timestamp: "2025-02-03T19:51:05Z".to_string(),
        bid: bid.to_string(),
        bid_size: Some(1),
        bid_timestamp: "2025-11-12T19:09:55Z".to_string(),
        ask: ask.to_string(),
        ask_size: None,
        ask_timestamp: "2025-11-12T19:09:36Z".to_string(),
        volume: 3,
        open_interest: Some(9),
    }
}

fn words(text: &[&str]) -> Vec<String> {
    text.iter().map(|w| w.to_string()).collect()
}

#[test]
fn test_option_parse_from_name() {
    let name = "QCOM $138 Put Feb 20, '26";
    let parsed = parse_option_name(name).unwrap();
    let OptionName { ticker, strike, op_type, expiration } = parsed;
    let strike: f32 = strike.parse().unwrap();
    let expiration =
        NaiveDate::from_ymd_opt(expiration.year, expiration.month, expiration.day).unwrap();
    assert_eq!(ticker, "QCOM");
    assert_eq!(strike, 138f32);
    assert_eq!(op_type, OptionType::PUT);
    assert_eq!(expiration, NaiveDate::from_ymd_opt(2026, 2, 20).unwrap());
}

#[test]
fn option_name_keeps_the_strike_as_written() {
    let parsed = parse_option_name("  AAPL\t$172.50  Call  Jan 3,  '27 extra words").unwrap();
    assert_eq!(
        parsed,
        OptionName {
            ticker: "AAPL".to_string(),
            strike: "172.50".to_string(),
            op_type: OptionType::CALL,
            expiration: Date { year: 2027, month: 1, day: 3 },
        }
    );
}

#[test]
fn option_name_with_too_few_words_is_refused() {
    assert_eq!(parse_option_name("QCOM $138 Put Feb 20,"), None);
    assert_eq!(parse_option_name(""), None);
    assert_eq!(parse_option_name("   "), None);
}

#[test]
fn option_name_with_unknown_type_is_refused() {
    assert_eq!(parse_option_name("QCOM $138 Straddle Feb 20, '26"), None);
    assert_eq!(parse_option_name("QCOM $138 put Feb 20, '26"), None);
    assert!(parse_option_name("QCOM $138 PUT Feb 20, '26").is_some());
    assert!(parse_option_name("QCOM $138 CALL Feb 20, '26").is_some());
}

#[test]
fn option_name_with_bad_date_is_refused() {
    assert_eq!(parse_option_name("QCOM $138 Put Feb 30, '26"), None);
    assert_eq!(parse_option_name("QCOM $138 Put Foo 20, '26"), None);
    assert_eq!(parse_option_name("QCOM $138 Put Feb 20 '26"), None);
}

#[test]
fn option_name_with_wide_currency_sign_is_refused() {
    assert_eq!(parse_option_name("QCOM \u{20ac}138 Put Feb 20, '26"), None);
    let parsed = parse_option_name("QCOM x138 Put Feb 20, '26").unwrap();
    assert_eq!(parsed.strike, "138");
    let bare = parse_option_name("QCOM $ Put Feb 20, '26").unwrap();
    assert_eq!(bare.strike, "");
}

#[test]
fn option_name_from_words_reads_the_date_text() {
    let w = words(&["QCOM", "$138", "Put", "Feb", "20,", "'26"]);
    assert_eq!(date_text(&w), "Feb 20, '26");
    let parsed = option_name_from_words(&w).unwrap();
    assert_eq!(parsed.expiration, Date { year: 2026, month: 2, day: 20 });
    assert_eq!(option_name_from_words(&words(&["QCOM", "$138", "Put"])), None);
}

#[test]
fn option_name_from_parts_uses_the_date_given() {
    let w = words(&["T", "$1", "Call", "a", "b", "c"]);
    let parsed = option_name_from_parts(&w, Some((1999, 12, 31))).unwrap();
    assert_eq!(
        parsed,
        OptionName {
            ticker: "T".to_string(),
            strike: "1".to_string(),
            op_type: OptionType::CALL,
            expiration: Date { year: 1999, month: 12, day: 31 },
        }
    );
    assert_eq!(option_name_from_parts(&w, None), None);
    assert_eq!(option_name_from_parts(&words(&["T", "$1", "Call", "a", "b"]), Some((1999, 12, 31))), None);
    assert_eq!(option_name_from_parts(&words(&["T", "$1", "Neither", "a", "b", "c"]), Some((1999, 12, 31))), None);
}

#[test]
fn option_type_from_word() {
    assert_eq!(OptionType::from_word("Call"), Some(OptionType::CALL));
    assert_eq!(OptionType::from_word("CALL"), Some(OptionType::CALL));
    assert_eq!(OptionType::from_word("Put"), Some(OptionType::PUT));
    assert_eq!(OptionType::from_word("PUT"), Some(OptionType::PUT));
    assert_eq!(OptionType::from_word("Puts"), None);
    assert_eq!(OptionType::from_word(""), None);
}

#[test]
fn closing_range_is_the_last_quote() {
    assert_eq!(closing_range(&vec![]), (String::new(), String::new()));
    let quotes = vec![quote("A", "1.10", "1.20"), quote("B", "2.10", "2.20")];
    assert_eq!(closing_range(&quotes), ("2.10".to_string(), "2.20".to_string()));
    assert_eq!(closing_range(&quotes[..1].to_vec()), ("1.10".to_string(), "1.20".to_string()));
}

#[test]
fn option_symbols_lists_puts_then_calls() {
    let chain = OptionChain {
        base_symbol: "LMND".to_string(),
        calls: vec![quote("CA", "1", "2"), quote("CB", "1", "2")],
        puts: vec![quote("PA", "1", "2"), quote("PB", "1", "2"), quote("PC", "1", "2")],
    };
    assert_eq!(option_symbols(&chain), vec!["PA", "PB", "PC", "CA", "CB"]);
    let empty = OptionChain { base_symbol: "X".to_string(), calls: vec![], puts: vec![] };
    assert_eq!(option_symbols(&empty), Vec::<String>::new());
}
