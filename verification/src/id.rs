//! The small parts of a request: protocol version, id and method name.

use crate::json::{
    decimal, digits, escaped, hex_digit, is_value_text, json_i64, json_plain_string, json_single,
    json_string, quoted, read_i64, read_plain_string, read_single, read_string, write_i64,
    write_null, write_string, JsonError,
};
use vstd::prelude::*;
use vstd::utf8::encode_utf8;

verus! {

/// `String::from` on a string slice: the string holds the same characters.
pub assume_specification<'a>[ <String as std::convert::From<&'a str>>::from ](s: &str) -> (res:
    String)
    ensures
        res@ == s@,
;

/// The conversion of a value into its own type, which returns the value unchanged.
pub assume_specification<Whole>[ <Whole as std::convert::From<Whole>>::from ](whole: Whole) -> (res:
    Whole)
    ensures
        res == whole,
;

/// The two strings hold the same characters.
pub(crate) fn same_str(a: &str, b: &str) -> (res: bool)
    ensures
        res == (a@ == b@),
{
    a.to_owned() == b.to_owned()
}

/// The version of the protocol, which is always "2.0".
#[derive(Debug, PartialEq, Eq)]
pub struct V2;

proof fn lemma_version_plain()
    ensures
        escaped("2.0"@) == "2.0"@,
{
    reveal_strlit("2.0");
    let v = "2.0"@;
    assert(v =~= seq!['2', '.', '0']);
    assert(v.drop_last() =~= seq!['2', '.']);
    assert(v.drop_last().drop_last() =~= seq!['2']);
    assert(v.drop_last().drop_last().drop_last() =~= Seq::<char>::empty());
    reveal_with_fuel(escaped, 4);
    assert(escaped(v) =~= v);
}

impl V2 {
    /// The JSON text of the version.
    pub fn serialize(&self) -> (text: String)
        ensures
            text@ == quoted("2.0"@),
            is_value_text(text@),
            json_plain_string(text@) == Some("2.0"@),
    {
        proof {
            lemma_version_plain();
        }
        write_string("2.0").unwrap()
    }

    /// Reads the version from the text of a JSON value: it has to be "2.0", without escapes.
    pub fn deserialize(text: &str) -> (res: Result<V2, JsonError>)
        ensures
            res is Ok <==> json_plain_string(text@) == Some("2.0"@),
    {
        match read_plain_string(text) {
            Ok(s) => if same_str(s, "2.0") {
                Ok(V2)
            } else {
                Err(JsonError)
            },
            Err(e) => Err(e),
        }
    }
}

impl Default for V2 {
    fn default() -> (res: V2)
        ensures
            res == V2,
    {
        V2
    }
}

/// Container for the request ID, which can be a string, number, or null.
/// Not typically used directly.
#[derive(Debug, PartialEq, Eq)]
pub enum Id {
    Num(i64),
    Str(String),
    Null,
}

/// What an id holds.
pub enum IdView {
    Num(i64),
    Str(Seq<char>),
    Null,
}

impl View for Id {
    type V = IdView;

    open spec fn view(&self) -> IdView {
        match *self {
            Id::Num(n) => IdView::Num(n),
            Id::Str(s) => IdView::Str(s@),
            Id::Null => IdView::Null,
        }
    }
}

/// The JSON text of an id.
pub open spec fn id_text(id: IdView) -> Seq<char> {
    match id {
        IdView::Num(n) => decimal(n as int),
        IdView::Str(s) => quoted(s),
        IdView::Null => "null"@,
    }
}

/// `text` is null, perhaps with spaces around it.
pub open spec fn is_null_text(text: Seq<char>) -> bool {
    json_single(encode_utf8(text)) == Some("null"@)
}

/// Whether `text` is null, perhaps with spaces around it.
pub(crate) fn reads_null(text: &str) -> (res: bool)
    ensures
        res == is_null_text(text@),
{
    match read_single(text.as_bytes()) {
        Ok(value) => same_str(value, "null"),
        Err(_) => false,
    }
}

/// The id that the text of a JSON value denotes: an integer, a string or null, and nothing else.
pub open spec fn id_of_text(text: Seq<char>) -> Option<IdView> {
    if json_i64(text) is Some {
        Some(IdView::Num(json_i64(text)->0))
    } else if json_string(text) is Some {
        Some(IdView::Str(json_string(text)->0))
    } else if is_null_text(text) {
        Some(IdView::Null)
    } else {
        None
    }
}

proof fn lemma_not_null(n: int, s: Seq<char>)
    ensures
        decimal(n) != "null"@,
        quoted(s) != "null"@,
{
    reveal_strlit("null");
    let k = if n < 0 {
        (-n) as nat
    } else {
        n as nat
    };
    assert(decimal(n).last() == digits(k).last());
    assert(digits(k).last() == hex_digit((k % 10) as int));
    assert("null"@.last() == 'l');
    assert(quoted(s)[0] == '"');
    assert("null"@[0] == 'n');
}

impl Id {
    /// The JSON text of the id.
    pub fn serialize(&self) -> (text: String)
        ensures
            text@ == id_text(self@),
            is_value_text(text@),
            is_null_text(text@) <==> self@ == IdView::Null,
            id_of_text(text@) == Some(self@),
    {
        match self {
            Id::Num(n) => {
                proof {
                    lemma_not_null(*n as int, Seq::empty());
                }
                write_i64(*n).unwrap()
            },
            Id::Str(s) => {
                proof {
                    lemma_not_null(0, s@);
                }
                write_string(s.as_str()).unwrap()
            },
            Id::Null => write_null().unwrap(),
        }
    }

    /// Reads an id from the text of a JSON value.
    pub fn deserialize(text: &str) -> (res: Result<Id, JsonError>)
        ensures
            res is Ok <==> id_of_text(text@) is Some,
            res matches Ok(id) ==> id_of_text(text@) == Some(id@),
    {
        if let Ok(n) = read_i64(text) {
            return Ok(Id::Num(n));
        }
        if let Ok(s) = read_string(text) {
            return Ok(Id::Str(s));
        }
        if reads_null(text) {
            Ok(Id::Null)
        } else {
            Err(JsonError)
        }
    }
}

impl Clone for Id {
    fn clone(&self) -> (res: Id)
        ensures
            res == *self,
    {
        match self {
            Id::Num(n) => Id::Num(*n),
            Id::Str(s) => Id::Str(s.clone()),
            Id::Null => Id::Null,
        }
    }
}

impl vstd::std_specs::convert::FromSpecImpl<i64> for Id {
    open spec fn obeys_from_spec() -> bool {
        true
    }

    open spec fn from_spec(t: i64) -> Id {
        Id::Num(t)
    }
}

impl From<i64> for Id {
    fn from(t: i64) -> (res: Id) {
        Id::Num(t)
    }
}

impl<'a> vstd::std_specs::convert::FromSpecImpl<&'a str> for Id {
    open spec fn obeys_from_spec() -> bool {
        false
    }

    open spec fn from_spec(t: &'a str) -> Id {
        arbitrary()
    }
}

impl<'a> From<&'a str> for Id {
    fn from(t: &'a str) -> (res: Id)
        ensures
            res@ == IdView::Str(t@),
    {
        Id::Str(String::from(t))
    }
}

impl vstd::std_specs::convert::FromSpecImpl<String> for Id {
    open spec fn obeys_from_spec() -> bool {
        true
    }

    open spec fn from_spec(t: String) -> Id {
        Id::Str(t)
    }
}

impl From<String> for Id {
    fn from(t: String) -> (res: Id) {
        Id::Str(t)
    }
}

impl Default for Id {
    fn default() -> (res: Id)
        ensures
            res == Id::Null,
    {
        Id::Null
    }
}

/// Method string wrapper, for extraction from a request
#[derive(Debug, PartialEq, Eq)]
pub struct Method(String);

impl View for Method {
    type V = Seq<char>;

    closed spec fn view(&self) -> Seq<char> {
        self.0@
    }
}

impl Method {
    pub(crate) fn new(name: String) -> (res: Method)
        ensures
            res@ == name@,
    {
        Method(name)
    }

    pub fn as_str(&self) -> (res: &str)
        ensures
            res@ == self@,
    {
        self.0.as_str()
    }
}

impl vstd::std_specs::convert::FromSpecImpl<Method> for String {
    open spec fn obeys_from_spec() -> bool {
        false
    }

    open spec fn from_spec(t: Method) -> String {
        arbitrary()
    }
}

impl From<Method> for String {
    fn from(t: Method) -> (res: String)
        ensures
            res@ == t@,
    {
        t.0
    }
}

} // verus!
