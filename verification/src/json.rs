use vstd::prelude::*;

verus! {

/// A member of a JSON object in the model: its name and its value.
pub struct Member {
    pub key: Seq<char>,
    pub value: Json,
}

/// The mathematical model of a JSON document.
pub enum Json {
    Null,
    Bool(bool),
    Integer(int),
    Decimal(Seq<char>),
    String(Seq<char>),
    Array(Seq<Json>),
    Object(Seq<Member>),
}

/// A JSON document as the library builds and reads it.
///
/// Integers are held exactly; a number with a fraction or an exponent is held
/// as the text that denotes it. An object keeps its members in order.
#[derive(Debug)]
pub enum JsonValue {
    Null,
    Bool(bool),
    Integer(i128),
    Decimal(String),
    String(String),
    Array(Vec<JsonValue>),
    Object(Vec<(String, JsonValue)>),
}

impl View for JsonValue {
    type V = Json;

    open spec fn view(&self) -> Json
        decreases self,
    {
        match self {
            JsonValue::Null => Json::Null,
            JsonValue::Bool(b) => Json::Bool(*b),
            JsonValue::Integer(n) => Json::Integer(*n as int),
            JsonValue::Decimal(t) => Json::Decimal(t@),
            JsonValue::String(s) => Json::String(s@),
            JsonValue::Array(items) => Json::Array(
                Seq::new(
                    items@.len(),
                    |i: int|
                        if 0 <= i < items@.len() {
                            items@[i].view()
                        } else {
                            Json::Null
                        },
                ),
            ),
            JsonValue::Object(members) => Json::Object(
                Seq::new(
                    members@.len(),
                    |i: int|
                        if 0 <= i < members@.len() {
                            Member { key: members@[i].0@, value: members@[i].1.view() }
                        } else {
                            Member { key: Seq::empty(), value: Json::Null }
                        },
                ),
            ),
        }
    }
}

/// The value of the first member named `key` among `members`, or `null` when
/// there is none.
pub open spec fn member_value(members: Seq<Member>, key: Seq<char>) -> Json
    decreases members.len(),
{
    if members.len() == 0 {
        Json::Null
    } else if members[0].key == key {
        members[0].value
    } else {
        member_value(members.drop_first(), key)
    }
}

/// Indexing a document by a member name: the member's value when the document
/// is an object that has it, `null` otherwise.
pub open spec fn json_field(doc: Json, key: Seq<char>) -> Json {
    match doc {
        Json::Object(members) => member_value(members, key),
        _ => Json::Null,
    }
}

/// The text a document holds when it is a string, and the empty text otherwise.
pub open spec fn string_content(doc: Json) -> Seq<char> {
    match doc {
        Json::String(s) => s,
        _ => Seq::empty(),
    }
}

/// The texts of the elements of an array (each read as by `string_content`),
/// and no text when the document is not an array.
pub open spec fn string_array_content(doc: Json) -> Seq<Seq<char>> {
    match doc {
        Json::Array(items) => items.map_values(|item: Json| string_content(item)),
        _ => Seq::empty(),
    }
}

impl JsonValue {
    /// A string document holding `s`.
    pub fn string(s: &str) -> (r: JsonValue)
        ensures
            r@ == Json::String(s@),
    {
        JsonValue::String(String::from_str(s))
    }

    /// Whether the document is `null`.
    pub fn is_null(&self) -> (r: bool)
        ensures
            r <==> self@ is Null,
    {
        match self {
            JsonValue::Null => true,
            _ => false,
        }
    }

    /// A copy of the document.
    #[verifier::loop_isolation(false)]
    pub fn duplicate(&self) -> (r: JsonValue)
        ensures
            r@ == self@,
        decreases self,
    {
        match self {
            JsonValue::Null => JsonValue::Null,
            JsonValue::Bool(b) => JsonValue::Bool(*b),
            JsonValue::Integer(n) => JsonValue::Integer(*n),
            JsonValue::Decimal(t) => JsonValue::Decimal(t.clone()),
            JsonValue::String(s) => JsonValue::String(s.clone()),
            JsonValue::Array(items) => {
                let mut out: Vec<JsonValue> = Vec::new();
                let mut i: usize = 0;
                while i < items.len()
                    invariant
                        i <= items@.len(),
                        out@.len() == i,
                        forall|j: int| 0 <= j < i ==> #[trigger] out@[j]@ == items@[j]@,
                    decreases items@.len() - i,
                {
                    assert(decreases_to!(self => items@[i as int]));
                    let item = items[i].duplicate();
                    out.push(item);
                    i = i + 1;
                }
                let r = JsonValue::Array(out);
                assert(r@ == self@) by {
                    let a = r@->Array_0;
                    let b = self@->Array_0;
                    assert forall|j: int| 0 <= j < a.len() implies a[j] == b[j] by {
                        assert(out@[j]@ == items@[j]@);
                    }
                    assert(a =~= b);
                }
                r
            },
            JsonValue::Object(members) => {
                let mut out: Vec<(String, JsonValue)> = Vec::new();
                let mut i: usize = 0;
                while i < members.len()
                    invariant
                        i <= members@.len(),
                        out@.len() == i,
                        forall|j: int|
                            0 <= j < i ==> #[trigger] out@[j].0@ == members@[j].0@ && out@[j].1@
                                == members@[j].1@,
                    decreases members@.len() - i,
                {
                    assert(decreases_to!(self => members@[i as int].1));
                    let key = members[i].0.clone();
                    let value = members[i].1.duplicate();
                    out.push((key, value));
                    i = i + 1;
                }
                let r = JsonValue::Object(out);
                assert(r@ == self@) by {
                    let a = r@->Object_0;
                    let b = self@->Object_0;
                    assert forall|j: int| 0 <= j < a.len() implies a[j] == b[j] by {
                        assert(out@[j].0@ == members@[j].0@);
                        assert(out@[j].1@ == members@[j].1@);
                    }
                    assert(a =~= b);
                }
                r
            },
        }
    }

    /// The value of the member named `key` (the first such member) when the
    /// document is an object that has one, and `null` otherwise.
    pub fn field(&self, key: &str) -> (r: JsonValue)
        ensures
            r@ == json_field(self@, key@),
    {
        match self {
            JsonValue::Object(members) => {
                let ghost model = self@->Object_0;
                let wanted = String::from_str(key);
                let mut i: usize = 0;
                assert(model.skip(0) =~= model);
                while i < members.len()
                    invariant
                        i <= members@.len(),
                        model.len() == members@.len(),
                        forall|j: int|
                            0 <= j < members@.len() ==> (#[trigger] model[j]).key == members@[j].0@
                                && model[j].value == members@[j].1@,
                        member_value(model, key@) == member_value(model.skip(i as int), key@),
                        wanted@ == key@,
                        self@ == Json::Object(model),
                    decreases members@.len() - i,
                {
                    assert(model.skip(i as int)[0] == model[i as int]);
                    if members[i].0 == wanted {
                        assert(member_value(model.skip(i as int), key@) == model[i as int].value);
                        return members[i].1.duplicate();
                    }
                    assert(model.skip(i as int).drop_first() =~= model.skip(i + 1));
                    i = i + 1;
                }
                JsonValue::Null
            },
            _ => JsonValue::Null,
        }
    }
}

} // verus!

verus! {

/// Indexing an object finds a member wherever it stands: the value of the
/// first member named `key`, at any position.
pub proof fn lemma_field_finds_first_member(members: Seq<Member>, key: Seq<char>, i: int)
    requires
        0 <= i < members.len(),
        members[i].key == key,
        forall|j: int| 0 <= j < i ==> (#[trigger] members[j]).key != key,
    ensures
        json_field(Json::Object(members), key) == members[i].value,
    decreases i,
{
    if i > 0 {
        let rest = members.drop_first();
        assert(members[0].key != key);
        assert forall|j: int| 0 <= j < i - 1 implies (#[trigger] rest[j]).key != key by {
            assert(rest[j] == members[j + 1]);
        }
        assert(rest[i - 1] == members[i]);
        lemma_field_finds_first_member(rest, key, i - 1);
    }
}

/// Indexing an object by a name none of its members has gives `null`.
pub proof fn lemma_field_absent_is_null(members: Seq<Member>, key: Seq<char>)
    requires
        forall|j: int| 0 <= j < members.len() ==> (#[trigger] members[j]).key != key,
    ensures
        json_field(Json::Object(members), key) == Json::Null,
    decreases members.len(),
{
    if members.len() > 0 {
        let rest = members.drop_first();
        assert(members[0].key != key);
        assert forall|j: int| 0 <= j < rest.len() implies (#[trigger] rest[j]).key != key by {
            assert(rest[j] == members[j + 1]);
        }
        lemma_field_absent_is_null(rest, key);
    }
}

} // verus!
