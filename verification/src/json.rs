//! JSON text and JSON documents: the numerals and string literals that
//! queries are written with, and the documents that responses are read as.

use vstd::prelude::*;
use vstd::string::*;

verus! {

/// The decimal digit that stands for `d`.
pub open spec fn digit_char(d: int) -> char
    recommends
        0 <= d < 10,
{
    if d == 0 {
        '0'
    } else if d == 1 {
        '1'
    } else if d == 2 {
        '2'
    } else if d == 3 {
        '3'
    } else if d == 4 {
        '4'
    } else if d == 5 {
        '5'
    } else if d == 6 {
        '6'
    } else if d == 7 {
        '7'
    } else if d == 8 {
        '8'
    } else {
        '9'
    }
}

/// The lower-case hexadecimal digit that stands for `d`.
pub open spec fn hex_digit_char(d: int) -> char
    recommends
        0 <= d < 16,
{
    if d < 10 {
        digit_char(d)
    } else if d == 10 {
        'a'
    } else if d == 11 {
        'b'
    } else if d == 12 {
        'c'
    } else if d == 13 {
        'd'
    } else if d == 14 {
        'e'
    } else {
        'f'
    }
}

/// The decimal numeral of `n`, without leading zeros.
pub open spec fn decimal_text(n: nat) -> Seq<char>
    decreases n,
{
    if n < 10 {
        seq![digit_char(n as int)]
    } else {
        decimal_text(n / 10).push(digit_char((n % 10) as int))
    }
}

/// The decimal numeral of `i`, with a minus sign where it is negative.
pub open spec fn integer_text(i: int) -> Seq<char> {
    if i < 0 {
        seq!['-'] + decimal_text((-i) as nat)
    } else {
        decimal_text(i as nat)
    }
}

/// What stands for the character `c` inside a JSON string literal: the
/// quotation mark and the backslash are escaped with a backslash, the control
/// characters below U+0020 by their short form or as `\u00` and two hex
/// digits, and every other character stands for itself.
pub open spec fn escaped_char(c: char) -> Seq<char> {
    if c == '"' {
        seq!['\\', '"']
    } else if c == '\\' {
        seq!['\\', '\\']
    } else if c == '\u{8}' {
        seq!['\\', 'b']
    } else if c == '\u{c}' {
        seq!['\\', 'f']
    } else if c == '\n' {
        seq!['\\', 'n']
    } else if c == '\r' {
        seq!['\\', 'r']
    } else if c == '\t' {
        seq!['\\', 't']
    } else if (c as int) < 0x20 {
        seq!['\\', 'u', '0', '0', hex_digit_char((c as int) / 16), hex_digit_char((c as int) % 16)]
    } else {
        seq![c]
    }
}

/// The characters of `s`, each escaped for a JSON string literal.
pub open spec fn escaped_text(s: Seq<char>) -> Seq<char>
    decreases s.len(),
{
    if s.len() == 0 {
        Seq::empty()
    } else {
        escaped_text(s.drop_last()) + escaped_char(s.last())
    }
}

/// The JSON string literal for `s`: its escaped text between quotation marks.
pub open spec fn string_literal(s: Seq<char>) -> Seq<char> {
    seq!['"'] + escaped_text(s) + seq!['"']
}

/// Calls `serde_json::to_string` on a string slice. Trusted: the call
/// succeeds, since writing a string into a byte vector cannot fail, and
/// the text it gives is the JSON string literal for `s`.
#[verifier::external_body]
fn serde_string_literal(s: &str) -> (r: Option<String>)
    ensures
        r is Some,
        r.unwrap()@ == string_literal(s@),
{
    serde_json::to_string(s).ok()
}

/// Writes `s` as a JSON string literal.
pub fn write_string(s: &str) -> (r: String)
    ensures
        r@ == string_literal(s@),
{
    serde_string_literal(s).unwrap()
}

fn digit_str(d: u64) -> (r: &'static str)
    requires
        d < 10,
    ensures
        r@ == seq![digit_char(d as int)],
{
    proof {
        reveal_strlit("0");
        reveal_strlit("1");
        reveal_strlit("2");
        reveal_strlit("3");
        reveal_strlit("4");
        reveal_strlit("5");
        reveal_strlit("6");
        reveal_strlit("7");
        reveal_strlit("8");
        reveal_strlit("9");
    }
    let r = if d == 0 {
        "0"
    } else if d == 1 {
        "1"
    } else if d == 2 {
        "2"
    } else if d == 3 {
        "3"
    } else if d == 4 {
        "4"
    } else if d == 5 {
        "5"
    } else if d == 6 {
        "6"
    } else if d == 7 {
        "7"
    } else if d == 8 {
        "8"
    } else {
        "9"
    };
    assert(r@ =~= seq![digit_char(d as int)]);
    r
}

/// Writes `n` as a decimal numeral.
pub fn write_unsigned(n: u64) -> (r: String)
    ensures
        r@ == decimal_text(n as nat),
    decreases n,
{
    if n < 10 {
        String::from_str(digit_str(n))
    } else {
        let mut r = write_unsigned(n / 10);
        r.append(digit_str(n % 10));
        r
    }
}

/// Writes `i` as a decimal numeral, with a minus sign where it is negative.
pub fn write_integer(i: i64) -> (r: String)
    ensures
        r@ == integer_text(i as int),
{
    if i < 0 {
        let magnitude: u64 = ((-(i + 1)) as u64) + 1;
        let mut r = String::from_str("-");
        proof {
            reveal_strlit("-");
            assert("-"@ =~= seq!['-']);
        }
        let digits = write_unsigned(magnitude);
        r.append(digits.as_str());
        r
    } else {
        write_unsigned(i as u64)
    }
}

/// A JSON document.
#[derive(Debug, PartialEq, Eq)]
pub enum Json {
    Null,
    Bool(bool),
    /// A number, as its numeral.
    Number(String),
    String(String),
    Array(Vec<Json>),
    /// The members of an object, each with its key.
    Object(Vec<(String, Json)>),
}

/// The value of a `Json` document.
pub ghost enum JsonView {
    Null,
    Bool(bool),
    Number(Seq<char>),
    String(Seq<char>),
    Array(Seq<JsonView>),
    Object(Seq<(Seq<char>, JsonView)>),
}

impl Json {
    /// The value of the document.
    pub open spec fn model(&self) -> JsonView
        decreases self,
    {
        match self {
            Json::Null => JsonView::Null,
            Json::Bool(b) => JsonView::Bool(*b),
            Json::Number(numeral) => JsonView::Number(numeral@),
            Json::String(s) => JsonView::String(s@),
            Json::Array(items) => JsonView::Array(
                Seq::new(
                    items.len() as nat,
                    |i: int|
                        if 0 <= i < items.len() {
                            items[i].model()
                        } else {
                            JsonView::Null
                        },
                ),
            ),
            Json::Object(members) => JsonView::Object(
                Seq::new(
                    members.len() as nat,
                    |i: int|
                        if 0 <= i < members.len() {
                            (members[i].0@, members[i].1.model())
                        } else {
                            (Seq::empty(), JsonView::Null)
                        },
                ),
            ),
        }
    }
}

impl View for Json {
    type V = JsonView;

    open spec fn view(&self) -> JsonView {
        self.model()
    }
}

/// The least index at or after `from` at which a member with `key` stands
/// in `members`, or -1 where there is none.
pub open spec fn member_position(members: Seq<(Seq<char>, JsonView)>, key: Seq<char>, from: int) -> int
    decreases members.len() - from,
{
    if from < 0 || from >= members.len() {
        -1
    } else if members[from].0 == key {
        from
    } else {
        member_position(members, key, from + 1)
    }
}

/// The first member of the object `doc` under `key`; none where `doc` is
/// no object or has no such member.
pub open spec fn member(doc: JsonView, key: Seq<char>) -> Option<JsonView> {
    match doc {
        JsonView::Object(members) => {
            let at = member_position(members, key, 0);
            if at < 0 {
                None
            } else {
                Some(members[at].1)
            }
        },
        _ => None,
    }
}

/// `serde_json::Value`, which is carried from the parser to the conversion
/// and not looked into.
#[verifier::external_type_specification]
#[verifier::external_body]
pub struct ExValue(serde_json::Value);

/// The document that a `serde_json::Value` holds.
pub uninterp spec fn value_document(value: serde_json::Value) -> JsonView;

/// The document that `serde_json::from_str` reads from `text`; none where
/// it rejects the text.
pub uninterp spec fn parsed_document(text: Seq<char>) -> Option<JsonView>;

/// Calls `serde_json::from_str` for a `serde_json::Value`. Trusted: what
/// comes back depends on the text alone; `parsed_document` is its name.
#[verifier::external_body]
fn serde_parse(text: &str) -> (r: Option<serde_json::Value>)
    ensures
        r is Some <==> parsed_document(text@) is Some,
        r is Some ==> parsed_document(text@) == Some(value_document(r.unwrap())),
{
    serde_json::from_str(text).ok()
}

/// Moves what a `serde_json::Value` holds into a `Json`, variant by variant;
/// a number becomes the numeral that `serde_json` displays it as. Trusted:
/// the result is the document that the value holds.
#[verifier::external_body]
fn serde_document(value: serde_json::Value) -> (r: Json)
    ensures
        r@ == value_document(value),
{
    match value {
        serde_json::Value::Null => Json::Null,
        serde_json::Value::Bool(b) => Json::Bool(b),
        serde_json::Value::Number(n) => Json::Number(n.to_string()),
        serde_json::Value::String(s) => Json::String(s),
        serde_json::Value::Array(items) => Json::Array(
            items.into_iter().map(serde_document).collect(),
        ),
        serde_json::Value::Object(members) => Json::Object(
            members.into_iter().map(|(key, member)| (key, serde_document(member))).collect(),
        ),
    }
}

impl Json {
    /// Reads `text` as a JSON document.
    pub fn parse(text: &str) -> (r: Option<Json>)
        ensures
            match r {
                Some(doc) => parsed_document(text@) == Some(doc@),
                None => parsed_document(text@) is None,
            },
    {
        match serde_parse(text) {
            Some(value) => Some(serde_document(value)),
            None => None,
        }
    }

    /// The first member of this object under `key`.
    pub fn get(&self, key: &str) -> (r: Option<&Json>)
        ensures
            match r {
                Some(found) => member(self@, key@) == Some(found@),
                None => member(self@, key@) is None,
            },
    {
        match self {
            Json::Object(members) => {
                let ghost views = self.model()->Object_0;
                let owned = String::from_str(key);
                let mut i: usize = 0;
                while i < members.len()
                    invariant
                        i <= members.len(),
                        owned@ == key@,
                        self.model() == JsonView::Object(views),
                        views.len() == members.len(),
                        forall|j: int|
                            0 <= j < members.len() ==> #[trigger] views[j] == (
                                members[j].0@,
                                members[j].1.model(),
                            ),
                        member_position(views, key@, 0) == member_position(views, key@, i as int),
                    decreases members.len() - i,
                {
                    assert(views[i as int].0 == members[i as int].0@);
                    if members[i].0 == owned {
                        return Some(&members[i].1);
                    }
                    i += 1;
                }
                None
            },
            _ => None,
        }
    }

    /// Takes the first member of this object under `key` out of it.
    pub fn take(self, key: &str) -> (r: Option<Json>)
        ensures
            match r {
                Some(found) => member(self@, key@) == Some(found@),
                None => member(self@, key@) is None,
            },
    {
        let ghost doc = self.model();
        match self {
            Json::Object(mut members) => {
                let ghost views = doc->Object_0;
                let owned = String::from_str(key);
                let mut i: usize = 0;
                while i < members.len()
                    invariant
                        i <= members.len(),
                        owned@ == key@,
                        doc == self.model(),
                        doc == JsonView::Object(views),
                        views.len() == members.len(),
                        forall|j: int|
                            0 <= j < members.len() ==> #[trigger] views[j] == (
                                members[j].0@,
                                members[j].1.model(),
                            ),
                        member_position(views, key@, 0) == member_position(views, key@, i as int),
                    decreases members.len() - i,
                {
                    assert(views[i as int].0 == members[i as int].0@);
                    if members[i].0 == owned {
                        let ghost expected = members[i as int].1.model();
                        let found = members.remove(i);
                        assert(found.1.model() == expected);
                        assert(views[i as int].1 == expected);
                        return Some(found.1);
                    }
                    i += 1;
                }
                None
            },
            _ => None,
        }
    }

    /// The text of this document where it is a string.
    pub fn as_str(&self) -> (r: Option<&str>)
        ensures
            match r {
                Some(text) => self@ == JsonView::String(text@),
                None => !(self@ is String),
            },
    {
        match self {
            Json::String(s) => Some(s.as_str()),
            _ => None,
        }
    }

    /// The items of this document where it is an array.
    pub fn as_array(&self) -> (r: Option<&Vec<Json>>)
        ensures
            match r {
                Some(items) => self@ is Array && self@->Array_0.len() == items.len() && forall|
                    i: int,
                |
                    0 <= i < items.len() ==> (#[trigger] self@->Array_0[i]) == items[i]@,
                None => !(self@ is Array),
            },
    {
        match self {
            Json::Array(items) => Some(items),
            _ => None,
        }
    }
}

} // verus!
