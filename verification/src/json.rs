//! JSON values as plain data, read and written by `serde_json`.

use crate::text::{lex_less, lex_less_is_total, lex_less_is_transitive, text_eq, text_less};
use vstd::prelude::*;

verus! {

/// A number that is no 64-bit integer, carried as `serde_json` holds it.
#[derive(Debug)]
pub struct JsonFloat {
    number: serde_json::Number,
}

/// A number of a JSON text. `UInt` holds those integers that are too large for `Int`.
#[derive(Debug)]
pub enum JsonNumber {
    Int(i64),
    UInt(u64),
    Float(JsonFloat),
}

/// A JSON value. The members of an object stand in the order of their names.
#[derive(Debug)]
pub enum Json {
    Null,
    Bool(bool),
    Number(JsonNumber),
    Text(String),
    Array(Vec<Json>),
    Object(Vec<(String, Json)>),
}

/// What a [`Json`] value says.
pub enum JsonView {
    Null,
    Bool(bool),
    Int(i64),
    UInt(u64),
    Float(JsonFloat),
    Text(Seq<char>),
    Array(Seq<JsonView>),
    Object(Seq<(Seq<char>, JsonView)>),
}

/// What a value says, from the leaves up.
pub open spec fn json_view(value: Json) -> JsonView
    decreases value,
{
    match value {
        Json::Null => JsonView::Null,
        Json::Bool(flag) => JsonView::Bool(flag),
        Json::Number(JsonNumber::Int(n)) => JsonView::Int(n),
        Json::Number(JsonNumber::UInt(n)) => JsonView::UInt(n),
        Json::Number(JsonNumber::Float(n)) => JsonView::Float(n),
        Json::Text(text) => JsonView::Text(text@),
        Json::Array(items) => JsonView::Array(
            Seq::new(
                items@.len(),
                |i: int|
                    if 0 <= i < items@.len() {
                        json_view(items@[i])
                    } else {
                        JsonView::Null
                    },
            ),
        ),
        Json::Object(members) => JsonView::Object(
            Seq::new(
                members@.len(),
                |i: int|
                    if 0 <= i < members@.len() {
                        (members@[i].0@, json_view(members@[i].1))
                    } else {
                        (Seq::empty(), JsonView::Null)
                    },
            ),
        ),
    }
}

impl View for Json {
    type V = JsonView;

    open spec fn view(&self) -> JsonView {
        json_view(*self)
    }
}

impl DeepView for Json {
    type V = JsonView;

    open spec fn deep_view(&self) -> JsonView {
        json_view(*self)
    }
}

/// An array says what its items say.
pub broadcast proof fn lemma_array_view(items: Vec<Json>)
    ensures
        #[trigger] json_view(Json::Array(items)) == JsonView::Array(items.deep_view()),
{
    assert(json_view(Json::Array(items))->Array_0 =~= items.deep_view());
}

/// An object says what its members say.
pub broadcast proof fn lemma_object_view(members: Vec<(String, Json)>)
    ensures
        #[trigger] json_view(Json::Object(members)) == JsonView::Object(members.deep_view()),
{
    assert(json_view(Json::Object(members))->Object_0 =~= members.deep_view());
}

/// The names of the members stand in order, each once.
pub open spec fn names_in_order(members: Seq<(Seq<char>, JsonView)>) -> bool {
    forall|i: int, j: int|
        #![trigger members[i], members[j]]
        0 <= i < j < members.len() ==> lex_less(members[i].0, members[j].0)
}

/// The form in which `serde_json` keeps a value: the members of every object stand in the order
/// of their names, each name once, and an integer that fits into `i64` is held as one.
pub open spec fn canonical(value: JsonView) -> bool
    decreases value,
{
    match value {
        JsonView::UInt(n) => n > i64::MAX,
        JsonView::Array(items) => forall|i: int|
            0 <= i < items.len() ==> canonical(#[trigger] items[i]),
        JsonView::Object(members) => {
            &&& names_in_order(members)
            &&& forall|i: int| 0 <= i < members.len() ==> canonical((#[trigger] members[i]).1)
        },
        _ => true,
    }
}

/// The value of the first member that has the name.
pub open spec fn member(members: Seq<(Seq<char>, JsonView)>, name: Seq<char>) -> Option<JsonView>
    decreases members.len(),
{
    if members.len() == 0 {
        None
    } else if members.first().0 == name {
        Some(members.first().1)
    } else {
        member(members.drop_first(), name)
    }
}

/// The member of that name, where the value is an object that has it.
pub open spec fn json_get(value: JsonView, name: Seq<char>) -> Option<JsonView> {
    match value {
        JsonView::Object(members) => member(members, name),
        _ => None,
    }
}

/// The integer, where the value is one that fits.
pub open spec fn json_i64(value: JsonView) -> Option<i64> {
    match value {
        JsonView::Int(n) => Some(n),
        _ => None,
    }
}

/// The text, where the value is one.
pub open spec fn json_str(value: JsonView) -> Option<Seq<char>> {
    match value {
        JsonView::Text(text) => Some(text),
        _ => None,
    }
}

/// The items, where the value is an array.
pub open spec fn json_items(value: JsonView) -> Option<Seq<JsonView>> {
    match value {
        JsonView::Array(items) => Some(items),
        _ => None,
    }
}

/// The text of a member, where the value is an object that has a text under that name.
pub open spec fn json_str_member(value: JsonView, name: Seq<char>) -> Option<Seq<char>> {
    match json_get(value, name) {
        Some(found) => json_str(found),
        None => None,
    }
}

/// The integer of a member, where the value is an object that has one under that name.
pub open spec fn json_i64_member(value: JsonView, name: Seq<char>) -> Option<i64> {
    match json_get(value, name) {
        Some(found) => json_i64(found),
        None => None,
    }
}

/// The members with a value given to a name, in place of the one it had or in the order of the
/// names.
pub open spec fn with_member(
    members: Seq<(Seq<char>, JsonView)>,
    name: Seq<char>,
    value: JsonView,
) -> Seq<(Seq<char>, JsonView)>
    decreases members.len(),
{
    if members.len() == 0 {
        seq![(name, value)]
    } else if members.first().0 == name {
        seq![(name, value)] + members.drop_first()
    } else if lex_less(name, members.first().0) {
        seq![(name, value)] + members
    } else {
        seq![members.first()] + with_member(members.drop_first(), name, value)
    }
}

/// The members with the values of the first `n` members of `over` in place of their own.
pub open spec fn overlaid(
    members: Seq<(Seq<char>, JsonView)>,
    over: Seq<(Seq<char>, JsonView)>,
    n: int,
) -> Seq<(Seq<char>, JsonView)>
    decreases n,
{
    if n <= 0 {
        members
    } else {
        with_member(overlaid(members, over, n - 1), over[n - 1].0, over[n - 1].1)
    }
}

/// Giving a value to a name keeps the names in order, changes what is found under that name, and
/// nothing else.
pub proof fn with_member_sets_one_name(
    members: Seq<(Seq<char>, JsonView)>,
    name: Seq<char>,
    value: JsonView,
    other: Seq<char>,
)
    requires
        names_in_order(members),
    ensures
        names_in_order(with_member(members, name, value)),
        member(with_member(members, name, value), name) == Some(value),
        other != name ==> member(with_member(members, name, value), other) == member(
            members,
            other,
        ),
    decreases members.len(),
{
    let after = with_member(members, name, value);
    if members.len() > 0 {
        let rest = members.drop_first();
        assert forall|i: int, j: int|
            #![trigger rest[i], rest[j]]
            0 <= i < j < rest.len() implies lex_less(rest[i].0, rest[j].0) by {
            assert(rest[i] == members[i + 1] && rest[j] == members[j + 1]);
        }
        lex_less_is_total(name, members.first().0);
        if members.first().0 == name {
            assert(after.drop_first() =~= rest);
            assert forall|i: int, j: int|
                #![trigger after[i], after[j]]
                0 <= i < j < after.len() implies lex_less(after[i].0, after[j].0) by {
                assert(after[i].0 == members[i].0 && after[j].0 == members[j].0);
            }
        } else if lex_less(name, members.first().0) {
            assert(after.drop_first() =~= members);
            assert forall|i: int, j: int|
                #![trigger after[i], after[j]]
                0 <= i < j < after.len() implies lex_less(after[i].0, after[j].0) by {
                assert(after[j] == members[j - 1]);
                if i == 0 {
                    if j > 1 {
                        assert(lex_less(members[0].0, members[j - 1].0));
                        lex_less_is_transitive(name, members[0].0, members[j - 1].0);
                    }
                } else {
                    assert(after[i] == members[i - 1]);
                }
            }
        } else {
            with_member_sets_one_name(rest, name, value, other);
            let tail = with_member(rest, name, value);
            assert(after.drop_first() =~= tail);
            lemma_names_after(rest, name, value, members.first().0);
            assert forall|i: int, j: int|
                #![trigger after[i], after[j]]
                0 <= i < j < after.len() implies lex_less(after[i].0, after[j].0) by {
                assert(after[j] == tail[j - 1]);
                if i > 0 {
                    assert(after[i] == tail[i - 1]);
                }
            }
        }
    } else {
        assert(after.drop_first() =~= members);
    }
}

/// Names that stand behind `low` stay behind it.
proof fn lemma_names_after(
    members: Seq<(Seq<char>, JsonView)>,
    name: Seq<char>,
    value: JsonView,
    low: Seq<char>,
)
    requires
        lex_less(low, name),
        forall|i: int| 0 <= i < members.len() ==> lex_less(low, (#[trigger] members[i]).0),
    ensures
        forall|i: int|
            0 <= i < with_member(members, name, value).len() ==> lex_less(
                low,
                (#[trigger] with_member(members, name, value)[i]).0,
            ),
    decreases members.len(),
{
    let after = with_member(members, name, value);
    if members.len() > 0 {
        let rest = members.drop_first();
        assert forall|i: int| 0 <= i < rest.len() implies lex_less(low, (#[trigger] rest[i]).0) by {
            assert(rest[i] == members[i + 1]);
        }
        lemma_names_after(rest, name, value, low);
        assert forall|i: int| 0 <= i < after.len() implies lex_less(low, (#[trigger] after[i]).0) by {
            if members.first().0 == name {
                if i > 0 {
                    assert(after[i] == members[i]);
                }
            } else if lex_less(name, members.first().0) {
                if i > 0 {
                    assert(after[i] == members[i - 1]);
                }
            } else if i > 0 {
                assert(after[i] == with_member(rest, name, value)[i - 1]);
            } else {
                assert(after[0] == members[0]);
            }
        }
    }
}

/// A canonical value under a name keeps the members canonical.
pub proof fn with_member_stays_canonical(
    members: Seq<(Seq<char>, JsonView)>,
    name: Seq<char>,
    value: JsonView,
)
    requires
        canonical(JsonView::Object(members)),
        canonical(value),
    ensures
        canonical(JsonView::Object(with_member(members, name, value))),
{
    with_member_sets_one_name(members, name, value, name);
    lemma_with_member_values(members, name, value);
}

proof fn lemma_with_member_values(
    members: Seq<(Seq<char>, JsonView)>,
    name: Seq<char>,
    value: JsonView,
)
    requires
        forall|i: int| 0 <= i < members.len() ==> canonical((#[trigger] members[i]).1),
        canonical(value),
    ensures
        forall|i: int|
            0 <= i < with_member(members, name, value).len() ==> canonical(
                (#[trigger] with_member(members, name, value)[i]).1,
            ),
    decreases members.len(),
{
    let after = with_member(members, name, value);
    if members.len() > 0 {
        let rest = members.drop_first();
        assert forall|i: int| 0 <= i < rest.len() implies canonical((#[trigger] rest[i]).1) by {
            assert(rest[i] == members[i + 1]);
        }
        lemma_with_member_values(rest, name, value);
        assert forall|i: int| 0 <= i < after.len() implies canonical((#[trigger] after[i]).1) by {
            if members.first().0 == name {
                if i > 0 {
                    assert(after[i] == members[i]);
                }
            } else if lex_less(name, members.first().0) {
                if i > 0 {
                    assert(after[i] == members[i - 1]);
                }
            } else if i > 0 {
                assert(after[i] == with_member(rest, name, value)[i - 1]);
            } else {
                assert(after[0] == members[0]);
            }
        }
    }
}

/// Of two lists of members laid over each other, the upper one counts.
pub proof fn upper_members_count(
    members: Seq<(Seq<char>, JsonView)>,
    over: Seq<(Seq<char>, JsonView)>,
    n: int,
    name: Seq<char>,
)
    requires
        names_in_order(members),
        names_in_order(over),
        0 <= n <= over.len(),
    ensures
        names_in_order(overlaid(members, over, n)),
        member(overlaid(members, over, n), name) == (match member(over.take(n), name) {
            Some(value) => Some(value),
            None => member(members, name),
        }),
    decreases n,
{
    if n > 0 {
        upper_members_count(members, over, n - 1, name);
        with_member_sets_one_name(
            overlaid(members, over, n - 1),
            over[n - 1].0,
            over[n - 1].1,
            name,
        );
        assert(over.take(n).drop_last() =~= over.take(n - 1));
        lemma_member_of_push(over.take(n - 1), over[n - 1], name);
        assert(over.take(n) =~= over.take(n - 1).push(over[n - 1]));
        if member(over.take(n - 1), over[n - 1].0) is Some {
            lemma_member_at(over.take(n - 1), over[n - 1].0);
            let i = choose|i: int|
                0 <= i < n - 1 && (#[trigger] over.take(n - 1)[i]).0 == over[n - 1].0;
            assert(over.take(n - 1)[i] == over[i]);
            lex_less_is_total(over[i].0, over[n - 1].0);
            assert(lex_less(over[i].0, over[n - 1].0));
        }
    }
}

proof fn lemma_member_at(members: Seq<(Seq<char>, JsonView)>, name: Seq<char>)
    ensures
        member(members, name) is Some ==> exists|i: int|
            0 <= i < members.len() && (#[trigger] members[i]).0 == name,
    decreases members.len(),
{
    if members.len() > 0 && member(members, name) is Some {
        if members.first().0 == name {
            assert(members[0].0 == name);
        } else {
            lemma_member_at(members.drop_first(), name);
            let i = choose|i: int|
                0 <= i < members.drop_first().len() && (#[trigger] members.drop_first()[i]).0
                    == name;
            assert(members[i + 1].0 == name);
        }
    }
}

/// Among members in order, what is found under a name is the value of the member that has it, and
/// nothing is found where none has it.
pub proof fn members_are_found_by_name(members: Seq<(Seq<char>, JsonView)>, name: Seq<char>)
    requires
        names_in_order(members),
    ensures
        forall|i: int|
            0 <= i < members.len() && (#[trigger] members[i]).0 == name ==> member(members, name)
                == Some(members[i].1),
        (forall|i: int| 0 <= i < members.len() ==> (#[trigger] members[i]).0 != name) ==> member(
            members,
            name,
        ) is None,
        member(members, name) is Some ==> exists|i: int|
            0 <= i < members.len() && (#[trigger] members[i]).0 == name,
    decreases members.len(),
{
    lemma_member_at(members, name);
    if members.len() > 0 {
        let rest = members.drop_first();
        assert forall|i: int, j: int|
            #![trigger rest[i], rest[j]]
            0 <= i < j < rest.len() implies lex_less(rest[i].0, rest[j].0) by {
            assert(rest[i] == members[i + 1] && rest[j] == members[j + 1]);
        }
        members_are_found_by_name(rest, name);
        assert forall|i: int|
            0 <= i < members.len() && (#[trigger] members[i]).0 == name implies member(members, name)
            == Some(members[i].1) by {
            if i > 0 {
                assert(rest[i - 1] == members[i]);
                lex_less_is_total(members[0].0, members[i].0);
                assert(lex_less(members[0].0, members[i].0));
            }
        }
    }
}

/// What is asked of a value is answered by what it is: the members of an object by their names,
/// the items of an array, an integer that fits, a text.
pub proof fn values_answer_for_what_they_are(value: JsonView, name: Seq<char>)
    ensures
        value matches JsonView::Object(members) ==> json_get(value, name) == member(members, name),
        !(value is Object) ==> json_get(value, name) is None,
        json_i64(value) == (if value is Int {
            Some(value->Int_0)
        } else {
            None
        }),
        json_str(value) == (if value is Text {
            Some(value->Text_0)
        } else {
            None
        }),
        json_items(value) == (if value is Array {
            Some(value->Array_0)
        } else {
            None
        }),
        json_str_member(value, name) is Some <==> json_get(value, name) is Some && json_get(
            value,
            name,
        )->0 is Text,
        json_str_member(value, name) matches Some(text) ==> json_get(value, name) == Some(
            JsonView::Text(text),
        ),
        json_i64_member(value, name) is Some <==> json_get(value, name) is Some && json_get(
            value,
            name,
        )->0 is Int,
        json_i64_member(value, name) matches Some(n) ==> json_get(value, name) == Some(
            JsonView::Int(n),
        ),
{
}

/// The members of a canonical value are canonical.
pub proof fn members_are_canonical(value: JsonView, name: Seq<char>)
    requires
        canonical(value),
    ensures
        json_get(value, name) matches Some(found) ==> canonical(found),
{
    if value is Object {
        lemma_member_value(value->Object_0, name);
    }
}

proof fn lemma_member_value(members: Seq<(Seq<char>, JsonView)>, name: Seq<char>)
    requires
        forall|i: int| 0 <= i < members.len() ==> canonical((#[trigger] members[i]).1),
    ensures
        member(members, name) matches Some(found) ==> canonical(found),
    decreases members.len(),
{
    if members.len() > 0 {
        let rest = members.drop_first();
        assert forall|i: int| 0 <= i < rest.len() implies canonical((#[trigger] rest[i]).1) by {
            assert(rest[i] == members[i + 1]);
        }
        lemma_member_value(rest, name);
        assert(canonical(members[0].1));
    }
}

proof fn lemma_member_of_push(
    members: Seq<(Seq<char>, JsonView)>,
    last: (Seq<char>, JsonView),
    name: Seq<char>,
)
    ensures
        member(members.push(last), name) == (match member(members, name) {
            Some(value) => Some(value),
            None => if last.0 == name {
                Some(last.1)
            } else {
                None
            },
        }),
    decreases members.len(),
{
    if members.len() > 0 {
        lemma_member_of_push(members.drop_first(), last, name);
        assert(members.push(last).drop_first() =~= members.drop_first().push(last));
    } else {
        assert(members.push(last).drop_first() =~= members);
    }
}

/// A value of `serde_json`. It is only carried: what it holds is `value_tree`.
#[verifier::external_type_specification]
#[verifier::external_body]
pub struct ExValue(serde_json::Value);

/// A number of `serde_json`. It is only carried.
#[verifier::external_type_specification]
#[verifier::external_body]
pub struct ExNumber(serde_json::Number);

/// `Clone` of a `serde_json::Number` gives the same number.
pub assume_specification[ <serde_json::Number as Clone>::clone ](number: &serde_json::Number) -> (r:
    serde_json::Number)
    ensures
        r == *number,
;

impl JsonFloat {
    /// A copy of the number.
    fn copy(&self) -> (r: JsonFloat)
        ensures
            r == *self,
    {
        JsonFloat { number: self.number.clone() }
    }
}

/// What a tree of `serde_json` holds: its leaves, arrays and objects, the members of an object in
/// the order in which the tree hands them out.
pub uninterp spec fn value_tree(value: serde_json::Value) -> JsonView;

/// What `serde_json` reads in a text: the value, or the words of its error.
pub uninterp spec fn json_of_text(text: Seq<char>) -> Result<JsonView, Seq<char>>;

/// How `serde_json` writes a value, without spaces.
pub uninterp spec fn json_text(value: JsonView) -> Seq<char>;

/// How `serde_json` shows a value for debugging.
pub uninterp spec fn json_debug(value: JsonView) -> Seq<char>;

/// Reads a text with `serde_json::from_str` into a `serde_json::Value`. The result, or the words
/// of the error, depend on the text alone. An object is kept in a sorted map, so its members come
/// in the order of their names, each once; an integer that fits into `i64` answers `as_i64`.
#[verifier::external_body]
fn parse_value(text: &str) -> (r: Result<serde_json::Value, String>)
    ensures
        match r {
            Ok(value) => {
                &&& json_of_text(text@) == Ok::<JsonView, Seq<char>>(value_tree(value))
                &&& canonical(value_tree(value))
            },
            Err(error) => json_of_text(text@) == Err::<JsonView, Seq<char>>(error@),
        },
{
    serde_json::from_str(text).map_err(|error| error.to_string())
}

/// Moves what a `serde_json::Value` holds into a value of this library, one variant for one
/// variant; a number goes by `Number::as_i64` and `Number::as_u64`, and is carried along as it is
/// where it is neither. An object is a sorted map in every value, so its members come in the
/// order of their names, each once.
#[verifier::external_body]
fn json_of_value(value: serde_json::Value) -> (r: Json)
    ensures
        r@ == value_tree(value),
        canonical(r@),
{
    match value {
        serde_json::Value::Null => Json::Null,
        serde_json::Value::Bool(b) => Json::Bool(b),
        serde_json::Value::Number(number) => Json::Number(match (number.as_i64(), number.as_u64()) {
            (Some(n), _) => JsonNumber::Int(n),
            (None, Some(n)) => JsonNumber::UInt(n),
            (None, None) => JsonNumber::Float(JsonFloat { number }),
        }),
        serde_json::Value::String(s) => Json::Text(s),
        serde_json::Value::Array(a) => Json::Array(a.into_iter().map(json_of_value).collect()),
        serde_json::Value::Object(o) => Json::Object(o.into_iter().map(|(k, v)| (k, json_of_value(v))).collect()),
    }
}

/// Moves a value of this library into a `serde_json::Value`, one variant for one variant; the
/// members of an object are collected into a `serde_json::Map`, which keeps those that stand in
/// order as they stand.
#[verifier::external_body]
fn value_of_json(json: Json) -> (r: serde_json::Value)
    requires
        canonical(json@),
    ensures
        value_tree(r) == json@,
{
    match json {
        Json::Null => serde_json::Value::Null,
        Json::Bool(b) => serde_json::Value::Bool(b),
        Json::Number(JsonNumber::Int(n)) => serde_json::Value::Number(n.into()),
        Json::Number(JsonNumber::UInt(n)) => serde_json::Value::Number(n.into()),
        Json::Number(JsonNumber::Float(n)) => serde_json::Value::Number(n.number),
        Json::Text(s) => serde_json::Value::String(s),
        Json::Array(a) => serde_json::Value::Array(a.into_iter().map(value_of_json).collect()),
        Json::Object(o) => serde_json::Value::Object(o.into_iter().map(|(k, v)| (k, value_of_json(v))).collect()),
    }
}

/// Writes a value with its `to_string`, which is the text that `serde_json::to_string` gives. The
/// text depends on what the value holds alone.
#[verifier::external_body]
fn value_text(value: &serde_json::Value) -> (r: String)
    ensures
        r@ == json_text(value_tree(*value)),
{
    value.to_string()
}

/// Shows a value with its `Debug`. The text depends on what the value holds alone.
#[verifier::external_body]
fn value_debug(value: &serde_json::Value) -> (r: String)
    ensures
        r@ == json_debug(value_tree(*value)),
{
    format!("{value:?}")
}

/// What came of reading a text.
pub open spec fn parsed_view(r: Result<Json, String>) -> Result<JsonView, Seq<char>> {
    match r {
        Ok(value) => Ok(value@),
        Err(error) => Err(error@),
    }
}

/// Reads a JSON text.
pub fn parse_json(text: &str) -> (r: Result<Json, String>)
    ensures
        parsed_view(r) == json_of_text(text@),
        r matches Ok(value) ==> canonical(value@),
{
    match parse_value(text) {
        Ok(value) => Ok(Json::from_value(value)),
        Err(error) => Err(error),
    }
}

/// Gives a value to a name among sorted members.
pub fn set_member(members: &mut Vec<(String, Json)>, name: String, value: Json)
    requires
        canonical(JsonView::Object(old(members).deep_view())),
        canonical(value@),
    ensures
        final(members).deep_view() == with_member(old(members).deep_view(), name@, value@),
        canonical(JsonView::Object(final(members).deep_view())),
{
    let ghost before = members.deep_view();
    let ghost said = value@;
    let ghost called = name@;
    proof {
        with_member_stays_canonical(before, called, said);
        assert(before.take(0) + with_member(before.skip(0), called, said) =~= with_member(
            before,
            called,
            said,
        )) by {
            assert(before.skip(0) =~= before);
        }
    }
    let mut i: usize = 0;
    while i < members.len() && text_less(members[i].0.as_str(), name.as_str())
        invariant
            i <= members.len(),
            members.deep_view() == before,
            called == name@,
            with_member(before, called, said) == before.take(i as int) + with_member(
                before.skip(i as int),
                called,
                said,
            ),
        decreases members.len() - i,
    {
        proof {
            let rest = before.skip(i as int);
            assert(rest.first() == before[i as int]);
            lex_less_is_total(before[i as int].0, called);
            assert(rest.drop_first() =~= before.skip(i as int + 1));
            assert(before.take(i as int + 1) =~= before.take(i as int) + seq![before[i as int]]);
            assert(before.take(i as int) + with_member(rest, called, said) =~= before.take(
                i as int + 1,
            ) + with_member(before.skip(i as int + 1), called, said));
        }
        i = i + 1;
    }
    let ghost rest = before.skip(i as int);
    if i < members.len() {
        proof {
            assert(rest.first() == before[i as int]);
            lex_less_is_total(before[i as int].0, called);
            assert(rest.drop_first() =~= before.skip(i as int + 1));
        }
        if text_eq(members[i].0.as_str(), name.as_str()) {
            members.set(i, (name, value));
            assert(members.deep_view() =~= before.take(i as int) + with_member(rest, called, said));
            return ;
        }
    }
    members.insert(i, (name, value));
    assert(members.deep_view() =~= before.take(i as int) + with_member(rest, called, said));
}

/// Writes a value as a JSON text without spaces.
pub fn print_json(value: Json) -> (r: String)
    requires
        canonical(value@),
    ensures
        r@ == json_text(value@),
{
    value_text(&value.into_value())
}

/// Shows a value for debugging.
pub fn show_json(value: Json) -> (r: String)
    requires
        canonical(value@),
    ensures
        r@ == json_debug(value@),
{
    value_debug(&value.into_value())
}

impl Json {
    /// What a value of `serde_json` holds.
    pub fn from_value(value: serde_json::Value) -> (r: Json)
        ensures
            r@ == value_tree(value),
            canonical(r@),
    {
        json_of_value(value)
    }

    /// The value of `serde_json` that holds the same.
    pub fn into_value(self) -> (r: serde_json::Value)
        requires
            canonical(self@),
        ensures
            value_tree(r) == self@,
    {
        value_of_json(self)
    }

    /// A copy of the value.
    pub fn copy(&self) -> (r: Json)
        ensures
            r@ == self@,
        decreases self,
    {
        broadcast use {lemma_array_view, lemma_object_view};

        match self {
            Json::Null => Json::Null,
            Json::Bool(flag) => Json::Bool(*flag),
            Json::Number(JsonNumber::Int(n)) => Json::Number(JsonNumber::Int(*n)),
            Json::Number(JsonNumber::UInt(n)) => Json::Number(JsonNumber::UInt(*n)),
            Json::Number(JsonNumber::Float(n)) => Json::Number(JsonNumber::Float(n.copy())),
            Json::Text(text) => Json::Text(text.clone()),
            Json::Array(items) => {
                let mut copies: Vec<Json> = Vec::new();
                let mut i: usize = 0;
                while i < items.len()
                    invariant
                        i <= items.len(),
                        copies.len() == i,
                        *self == Json::Array(*items),
                        forall|j: int| 0 <= j < i ==> copies@[j]@ == (#[trigger] items@[j])@,
                    decreases items.len() - i,
                {
                    assert(decreases_to!(*self => items@[i as int])) by {
                        assert(decreases_to!(*self => self->Array_0));
                        assert(decreases_to!(self->Array_0 => (self->Array_0)@));
                        assert(decreases_to!(items@ => items@[i as int]));
                    }
                    copies.push(items[i].copy());
                    i = i + 1;
                }
                assert(copies.deep_view() =~= items.deep_view());
                Json::Array(copies)
            },
            Json::Object(members) => {
                let mut copies: Vec<(String, Json)> = Vec::new();
                let mut i: usize = 0;
                while i < members.len()
                    invariant
                        i <= members.len(),
                        copies.len() == i,
                        *self == Json::Object(*members),
                        forall|j: int|
                            0 <= j < i ==> copies@[j].0@ == (#[trigger] members@[j]).0@
                                && copies@[j].1@ == members@[j].1@,
                    decreases members.len() - i,
                {
                    let member = &members[i];
                    assert(decreases_to!(*self => member.1)) by {
                        assert(decreases_to!(*self => self->Object_0));
                        assert(decreases_to!(self->Object_0 => (self->Object_0)@));
                        assert(decreases_to!(members@ => members@[i as int]));
                        assert(decreases_to!(members@[i as int] => members@[i as int].1));
                    }
                    copies.push((member.0.clone(), member.1.copy()));
                    i = i + 1;
                }
                assert(copies.deep_view() =~= members.deep_view());
                Json::Object(copies)
            },
        }
    }

    /// The member of that name, where the value is an object that has it.
    pub fn get(&self, name: &str) -> (r: Option<&Json>)
        ensures
            r.deep_view() == json_get(self@, name@),
    {
        broadcast use lemma_object_view;

        match self {
            Json::Object(members) => {
                let ghost said = members.deep_view();
                let mut i: usize = 0;
                assert(said.skip(0) =~= said);
                while i < members.len()
                    invariant
                        i <= members.len(),
                        said == members.deep_view(),
                        self@ == JsonView::Object(said),
                        member(said, name@) == member(said.skip(i as int), name@),
                    decreases members.len() - i,
                {
                    assert(said.skip(i as int).first() == said[i as int]);
                    assert(said.skip(i as int).drop_first() =~= said.skip(i + 1));
                    if text_eq(members[i].0.as_str(), name) {
                        return Some(&members[i].1);
                    }
                    i = i + 1;
                }
                None
            },
            _ => None,
        }
    }

    /// The integer, where the value is one that fits.
    pub fn as_i64(&self) -> (r: Option<i64>)
        ensures
            r == json_i64(self@),
    {
        match self {
            Json::Number(JsonNumber::Int(n)) => Some(*n),
            _ => None,
        }
    }

    /// The text, where the value is one.
    pub fn as_str(&self) -> (r: Option<&str>)
        ensures
            r.deep_view() == json_str(self@),
    {
        match self {
            Json::Text(text) => Some(text.as_str()),
            _ => None,
        }
    }

    /// The items, where the value is an array.
    pub fn as_array(&self) -> (r: Option<&Vec<Json>>)
        ensures
            r.deep_view() == json_items(self@),
    {
        broadcast use lemma_array_view;

        match self {
            Json::Array(items) => Some(items),
            _ => None,
        }
    }

    /// The text of a member.
    pub fn str_member(&self, name: &str) -> (r: Option<String>)
        ensures
            r.deep_view() == json_str_member(self@, name@),
    {
        match self.get(name) {
            Some(found) => match found.as_str() {
                Some(text) => Some(text.to_string()),
                None => None,
            },
            None => None,
        }
    }

    /// The integer of a member.
    pub fn i64_member(&self, name: &str) -> (r: Option<i64>)
        ensures
            r == json_i64_member(self@, name@),
    {
        match self.get(name) {
            Some(found) => found.as_i64(),
            None => None,
        }
    }
}

} // verus!
