//! Reading option positions: the display name of an option, the symbols of a
//! chain, and the prices between which a position can be closed.

use vstd::prelude::*;
use vstd::string::{StrSliceExecFns, StringExecFns};
use crate::public::{OptionChain, OptionType, Quote};
use crate::text::{same_text, split_words, texts_of, words_of};

verus! {

/// A calendar date.
#[derive(Debug, Clone, Copy, PartialEq, Eq, Structural)]
pub struct Date {
    pub year: i32,
    pub month: u32,
    pub day: u32,
}

/// What the display name of an option says, such as
/// `QCOM $138 Put Feb 20, '26`: the ticker, the strike price as it is
/// written (without the currency sign), the type and the expiration date.
#[derive(Debug, Clone, PartialEq, Eq)]
pub struct OptionName {
    pub ticker: String,
    pub strike: String,
    pub op_type: OptionType,
    pub expiration: Date,
}

/// An `OptionName` as a mathematical value.
pub ghost struct OptionNameModel {
    pub ticker: Seq<char>,
    pub strike: Seq<char>,
    pub op_type: OptionType,
    pub expiration: Date,
}

impl View for OptionName {
    type V = OptionNameModel;

    open spec fn view(&self) -> OptionNameModel {
        OptionNameModel {
            ticker: self.ticker@,
            strike: self.strike@,
            op_type: self.op_type,
            expiration: self.expiration,
        }
    }
}

/// The view of an optional `OptionName`.
pub open spec fn name_view(name: Option<OptionName>) -> Option<OptionNameModel> {
    match name {
        Some(name) => Some(name@),
        None => None,
    }
}

/// The date that `text` gives when read by the strftime pattern `format`, as
/// year, month and day, or nothing where chrono does not accept it.
pub uninterp spec fn naive_date_from(text: Seq<char>, format: Seq<char>) -> Option<
    (i32, u32, u32),
>;

/// Reads a date with `chrono::NaiveDate::parse_from_str`, and takes the
/// year, month and day of what it returns. Not proved: that the outcome is
/// `naive_date_from` of the two texts, which is to say that it depends on
/// them alone.
#[verifier::external_body]
pub(crate) fn parse_date(text: &str, format: &str) -> (date: Option<(i32, u32, u32)>)
    ensures
        date == naive_date_from(text@, format@),
{
    match chrono::NaiveDate::parse_from_str(text, format) {
        Ok(date) => Some(
            (
                chrono::Datelike::year(&date),
                chrono::Datelike::month(&date),
                chrono::Datelike::day(&date),
            ),
        ),
        Err(_) => None,
    }
}

/// The pattern of the date in a display name: `Feb 20, '26`.
pub open spec fn date_format() -> Seq<char> {
    "%b %d, '%y"@
}

/// The type that a word of a display name stands for.
pub open spec fn option_type_of(word: Seq<char>) -> Option<OptionType> {
    if word == "Call"@ || word == "CALL"@ {
        Some(OptionType::CALL)
    } else if word == "Put"@ || word == "PUT"@ {
        Some(OptionType::PUT)
    } else {
        None
    }
}

/// The text of the date in a display name: its fourth, fifth and sixth
/// words, one space between them.
pub open spec fn date_text_of(words: Seq<Seq<char>>) -> Seq<char>
    recommends
        words.len() >= 6,
{
    words[3] + " "@ + words[4] + " "@ + words[5]
}

/// The first six words can be taken apart: there are six, the second opens
/// with a character of one byte, and the third names a type.
pub open spec fn well_shaped(words: Seq<Seq<char>>) -> bool {
    &&& words.len() >= 6
    &&& words[1].len() >= 1
    &&& (words[1][0] as u32) < 0x80
    &&& option_type_of(words[2]) is Some
}

/// What the words of a display name say, given the `date` that their date
/// text was read as.
pub open spec fn option_name_from(words: Seq<Seq<char>>, date: Option<(i32, u32, u32)>) -> Option<
    OptionNameModel,
> {
    match (date, option_type_of(words[2])) {
        (Some((year, month, day)), Some(op_type)) => if well_shaped(words) {
            Some(
                OptionNameModel {
                    ticker: words[0],
                    strike: words[1].subrange(1, words[1].len() as int),
                    op_type,
                    expiration: Date { year, month, day },
                },
            )
        } else {
            None
        },
        _ => None,
    }
}

/// What the words of a display name say.
pub open spec fn option_name_of(words: Seq<Seq<char>>) -> Option<OptionNameModel> {
    if words.len() >= 6 {
        option_name_from(words, naive_date_from(date_text_of(words), date_format()))
    } else {
        None
    }
}

impl OptionType {
    /// The type that `word` stands for: `Call` or `CALL`, `Put` or `PUT`.
    pub fn from_word(word: &str) -> (op_type: Option<OptionType>)
        ensures
            op_type == option_type_of(word@),
    {
        if same_text(word, "Call") || same_text(word, "CALL") {
            Some(OptionType::CALL)
        } else if same_text(word, "Put") || same_text(word, "PUT") {
            Some(OptionType::PUT)
        } else {
            None
        }
    }
}

/// The text of the date in a display name of at least six words.
pub fn date_text(words: &Vec<String>) -> (text: String)
    requires
        words@.len() >= 6,
    ensures
        text@ == date_text_of(texts_of(words@)),
{
    let mut text = words[3].clone();
    text.append(" ");
    text.append(words[4].as_str());
    text.append(" ");
    text.append(words[5].as_str());
    text
}

/// Takes the words of a display name apart, with `date` for what their date
/// text was read as. Nothing comes back where the date was not read, where
/// there are fewer than six words, where the strike does not open with a
/// one-byte character (the currency sign), or where the third word names no
/// type.
pub fn option_name_from_parts(words: &Vec<String>, date: Option<(i32, u32, u32)>) -> (name: Option<
    OptionName,
>)
    ensures
        name_view(name) == option_name_from(texts_of(words@), date),
{
    if words.len() < 6 {
        return None;
    }
    let (year, month, day) = match date {
        Some(date) => date,
        None => {
            return None;
        },
    };
    let strike = words[1].as_str();
    let strike_len: usize = strike.unicode_len();
    if strike_len < 1 {
        return None;
    }
    let sign = strike.get_char(0);
    if (sign as u32) >= 0x80 {
        return None;
    }
    let op_type = match OptionType::from_word(words[2].as_str()) {
        Some(op_type) => op_type,
        None => {
            return None;
        },
    };
    Some(
        OptionName {
            ticker: words[0].clone(),
            strike: strike.substring_char(1, strike_len).to_owned(),
            op_type,
            expiration: Date { year, month, day },
        },
    )
}

/// Takes the words of a display name apart, reading the date with chrono.
pub fn option_name_from_words(words: &Vec<String>) -> (name: Option<OptionName>)
    ensures
        name_view(name) == option_name_of(texts_of(words@)),
{
    if words.len() < 6 {
        return None;
    }
    let text = date_text(words);
    let date = parse_date(text.as_str(), "%b %d, '%y");
    option_name_from_parts(words, date)
}

/// Reads the display name of an option, such as `QCOM $138 Put Feb 20, '26`.
pub fn parse_option_name(name: &str) -> (parsed: Option<OptionName>)
    ensures
        name_view(parsed) == option_name_of(words_of(name@)),
{
    let words = split_words(name);
    option_name_from_words(&words)
}

/// The prices between which a position can be closed, going by `quotes`: the
/// bid and the ask of the last quote, or two empty texts where there is no
/// quote.
pub open spec fn closing_range_of(quotes: Seq<Quote>) -> (Seq<char>, Seq<char>) {
    if quotes.len() == 0 {
        (Seq::empty(), Seq::empty())
    } else {
        (quotes.last().bid@, quotes.last().ask@)
    }
}

/// The bid and the ask of the last of `quotes`, or two empty texts.
pub fn closing_range(quotes: &Vec<Quote>) -> (range: (String, String))
    ensures
        (range.0@, range.1@) == closing_range_of(quotes@),
{
    let n: usize = quotes.len();
    if n == 0 {
        (String::new(), String::new())
    } else {
        (quotes[n - 1].bid.clone(), quotes[n - 1].ask.clone())
    }
}

/// `symbols` holds the symbols of `quotes`, in order, from the index `from`
/// on.
pub open spec fn holds_symbols(symbols: Seq<String>, from: int, quotes: Seq<Quote>) -> bool {
    &&& symbols.len() >= from + quotes.len()
    &&& forall|i: int|
        0 <= i < quotes.len() ==> (#[trigger] symbols[from + i])@ == quotes[i].instrument.symbol@
}

fn push_symbols(symbols: &mut Vec<String>, quotes: &Vec<Quote>)
    ensures
        final(symbols)@.len() == old(symbols)@.len() + quotes@.len(),
        forall|i: int| 0 <= i < old(symbols)@.len() ==> final(symbols)@[i] == old(symbols)@[i],
        holds_symbols(final(symbols)@, old(symbols)@.len() as int, quotes@),
{
    let ghost before = symbols@;
    let mut k: usize = 0;
    while k < quotes.len()
        invariant
            k <= quotes@.len(),
            symbols@.len() == before.len() + k,
            forall|i: int| 0 <= i < before.len() ==> symbols@[i] == before[i],
            forall|i: int|
                0 <= i < k ==> (#[trigger] symbols@[before.len() + i])@
                    == quotes@[i].instrument.symbol@,
        decreases quotes@.len() - k,
    {
        symbols.push(quotes[k].instrument.symbol.clone());
        k = k + 1;
    }
}

/// The symbols of every option of `chain`: those of the puts, in order, then
/// those of the calls.
pub fn option_symbols(chain: &OptionChain) -> (symbols: Vec<String>)
    ensures
        symbols@.len() == chain.puts@.len() + chain.calls@.len(),
        holds_symbols(symbols@, 0, chain.puts@),
        holds_symbols(symbols@, chain.puts@.len() as int, chain.calls@),
{
    let mut symbols: Vec<String> = Vec::new();
    push_symbols(&mut symbols, &chain.puts);
    push_symbols(&mut symbols, &chain.calls);
    symbols
}

} // verus!
