use vstd::prelude::*;
use crate::json::{Json, JsonValue, Member, json_field, member_value};

verus! {

/// The JSON-RPC 2.0 request, numbered 1, that calls `method` with `params`.
pub open spec fn rpc_request(method: Seq<char>, params: Json) -> Json {
    Json::Object(
        seq![
            Member { key: "id"@, value: Json::Integer(1) },
            Member { key: "jsonrpc"@, value: Json::String("2.0"@) },
            Member { key: "method"@, value: Json::String(method) },
            Member { key: "params"@, value: params },
        ],
    )
}

/// The models of a sequence of documents.
pub open spec fn views(items: Seq<JsonValue>) -> Seq<Json> {
    items.map_values(|item: JsonValue| item@)
}

/// An array document of `items`, in order.
pub fn array_of(items: Vec<JsonValue>) -> (r: JsonValue)
    ensures
        r@ == Json::Array(views(items@)),
{
    let ghost model = items@;
    let r = JsonValue::Array(items);
    assert(r@->Array_0 =~= views(model));
    r
}

/// The model of an object whose members are `names` paired with `values`.
pub open spec fn members_of(names: Seq<Seq<char>>, values: Seq<Json>) -> Seq<Member> {
    Seq::new(names.len(), |i: int| Member { key: names[i], value: values[i] })
}

/// An object document of `members`, in order.
pub fn object_of(members: Vec<(String, JsonValue)>) -> (r: JsonValue)
    ensures
        r@ == Json::Object(
            members_of(
                members@.map_values(|m: (String, JsonValue)| m.0@),
                members@.map_values(|m: (String, JsonValue)| m.1@),
            ),
        ),
{
    let ghost model = members@;
    let r = JsonValue::Object(members);
    assert(r@->Object_0 =~= members_of(
        model.map_values(|m: (String, JsonValue)| m.0@),
        model.map_values(|m: (String, JsonValue)| m.1@),
    ));
    r
}

/// The JSON-RPC request that calls `method` with (a copy of) `params`.
pub fn generate_request_params(method: &str, params: &JsonValue) -> (r: JsonValue)
    ensures
        r@ == rpc_request(method@, params@),
{
    let mut members: Vec<(String, JsonValue)> = Vec::new();
    members.push((String::from_str("id"), JsonValue::Integer(1)));
    members.push((String::from_str("jsonrpc"), JsonValue::string("2.0")));
    members.push((String::from_str("method"), JsonValue::string(method)));
    members.push((String::from_str("params"), params.duplicate()));
    let r = object_of(members);
    assert(r@->Object_0 =~= rpc_request(method@, params@)->Object_0);
    r
}

/// A request reads back what it was built from: its `id` is 1, its `jsonrpc`
/// is `"2.0"`, and its `method` and `params` are those it was given.
pub proof fn lemma_request_reads_back(method: Seq<char>, params: Json)
    ensures
        rpc_request(method, params)->Object_0.len() == 4,
        json_field(rpc_request(method, params), "id"@) == Json::Integer(1),
        json_field(rpc_request(method, params), "jsonrpc"@) == Json::String("2.0"@),
        json_field(rpc_request(method, params), "method"@) == Json::String(method),
        json_field(rpc_request(method, params), "params"@) == params,
{
    reveal_strlit("id");
    reveal_strlit("jsonrpc");
    reveal_strlit("method");
    reveal_strlit("params");
    let m = rpc_request(method, params)->Object_0;
    assert(m.drop_first()[0] == m[1]);
    assert(m.drop_first().drop_first()[0] == m[2]);
    assert(m.drop_first().drop_first().drop_first()[0] == m[3]);
    assert("id"@.len() == 2 && "jsonrpc"@.len() == 7 && "method"@.len() == 6);
    assert("params"@.len() == 6 && "params"@[0] == 'p' && "method"@[0] == 'm');
    assert("jsonrpc"@ != "id"@);
    assert("method"@ != "id"@ && "method"@ != "jsonrpc"@);
    assert("params"@ != "id"@ && "params"@ != "jsonrpc"@ && "params"@ != "method"@);
    let m1 = m.drop_first();
    let m2 = m1.drop_first();
    let m3 = m2.drop_first();
    assert(member_value(m, "jsonrpc"@) == member_value(m1, "jsonrpc"@));
    assert(member_value(m, "method"@) == member_value(m1, "method"@));
    assert(member_value(m1, "method"@) == member_value(m2, "method"@));
    assert(member_value(m, "params"@) == member_value(m1, "params"@));
    assert(member_value(m1, "params"@) == member_value(m2, "params"@));
    assert(member_value(m2, "params"@) == member_value(m3, "params"@));
}

} // verus!
