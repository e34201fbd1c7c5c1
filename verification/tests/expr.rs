use faunadb::expr::{Expr, IndexPermission, Level, Object, Ref};
use faunadb::json::{write_integer, write_string, write_unsigned};

#[test]
fn literals_are_written_as_json() {
    assert_eq!(Expr::Null.to_json(), "null");
    assert_eq!(Expr::Boolean(true).to_json(), "true");
    assert_eq!(Expr::Boolean(false).to_json(), "false");
    assert_eq!(Expr::Int(-42).to_json(), "-42");
    assert_eq!(Expr::UInt(7).to_json(), "7");
    assert_eq!(Expr::String(String::from("cats")).to_json(), "\"cats\"");
}

#[test]
fn numerals_have_no_leading_zeros() {
    assert_eq!(write_unsigned(0), "0");
    assert_eq!(write_unsigned(9), "9");
    assert_eq!(write_unsigned(10), "10");
    assert_eq!(write_unsigned(1205), "1205");
    assert_eq!(write_unsigned(u64::MAX), "18446744073709551615");
}

#[test]
fn integers_carry_their_sign() {
    assert_eq!(write_integer(0), "0");
    assert_eq!(write_integer(-1), "-1");
    assert_eq!(write_integer(i64::MAX), "9223372036854775807");
    assert_eq!(write_integer(i64::MIN), "-9223372036854775808");
}

#[test]
fn string_literals_are_quoted_and_escaped() {
    assert_eq!(write_string(""), "\"\"");
    assert_eq!(write_string("plain"), "\"plain\"");
    assert_eq!(write_string("a\"b"), "\"a\\\"b\"");
    assert_eq!(write_string("a\\b"), "\"a\\\\b\"");
    assert_eq!(write_string("\u{8}\u{c}\n\r\t"), "\"\\b\\f\\n\\r\\t\"");
    assert_eq!(write_string("\u{1}\u{1f}"), "\"\\u0001\\u001f\"");
    assert_eq!(write_string("/\u{7f}\u{e9}"), "\"/\u{7f}\u{e9}\"");
}

#[test]
fn arrays_are_written_in_order() {
    assert_eq!(Expr::Array(vec![]).to_json(), "[]");
    assert_eq!(Expr::Array(vec![Expr::Int(1)]).to_json(), "[1]");
    let items = vec![Expr::Int(1), Expr::Null, Expr::from(String::from("x"))];
    assert_eq!(Expr::from(items).to_json(), "[1,null,\"x\"]");
}

#[test]
fn objects_are_wrapped_and_keep_insertion_order() {
    let mut object = Object::new();
    assert_eq!(object.len(), 0);
    object.insert("b", Expr::Int(1)).insert("a", Expr::Boolean(true));
    assert_eq!(object.len(), 2);
    assert_eq!(Expr::from(object).to_json(), "{\"object\":{\"b\":1,\"a\":true}}");
    assert_eq!(Expr::Object(Object::new()).to_json(), "{\"object\":{}}");
}

#[test]
fn inserting_a_bound_key_overwrites_in_place() {
    let mut object = Object::new();
    object.insert("first", Expr::Int(1));
    object.insert("second", Expr::Int(2));
    object.insert("first", Expr::Int(3));
    assert_eq!(object.len(), 2);
    assert_eq!(Expr::from(object).to_json(), "{\"object\":{\"first\":3,\"second\":2}}");
}

#[test]
fn references_name_their_collection() {
    assert_eq!(
        Ref::class("cats").to_json(),
        "{\"@ref\":{\"id\":\"cats\",\"class\":{\"@ref\":{\"id\":\"classes\"}}}}"
    );
    assert_eq!(
        Expr::from(Ref::database("zoo")).to_json(),
        "{\"@ref\":{\"id\":\"zoo\",\"class\":{\"@ref\":{\"id\":\"databases\"}}}}"
    );
    assert_eq!(
        Expr::from(Ref::index("by_name")).to_json(),
        "{\"@ref\":{\"id\":\"by_name\",\"class\":{\"@ref\":{\"id\":\"indexes\"}}}}"
    );
}

#[test]
fn calls_are_single_key_objects() {
    let call = Expr::call("get", Expr::from(Ref::class("cats")));
    assert_eq!(
        call.to_json(),
        "{\"get\":{\"@ref\":{\"id\":\"cats\",\"class\":{\"@ref\":{\"id\":\"classes\"}}}}}"
    );
}

#[test]
fn nested_expressions_are_written_whole() {
    let mut inner = Object::new();
    inner.insert("tags", Expr::Array(vec![Expr::from(String::from("a\n")), Expr::UInt(2)]));
    let mut outer = Object::new();
    outer.insert("inner", Expr::from(inner)).insert("none", Expr::Null);
    assert_eq!(
        Expr::from(outer).to_json(),
        "{\"object\":{\"inner\":{\"object\":{\"tags\":[\"a\\n\",2]}},\"none\":null}}"
    );
}

#[test]
fn clones_are_written_alike() {
    let mut object = Object::new();
    object.insert("ref", Expr::from(Ref::index("all"))).insert("n", Expr::Int(-5));
    let expr = Expr::Array(vec![Expr::from(object), Expr::call("count", Expr::Null)]);
    let copy = expr.clone();
    assert_eq!(expr.to_json(), copy.to_json());
    assert_eq!(copy.to_json(), "[{\"object\":{\"ref\":{\"@ref\":{\"id\":\"all\",\"class\":{\"@ref\":{\"id\":\"indexes\"}}}},\"n\":-5}},{\"count\":null}]");
}

#[test]
fn permissions_are_written_as_objects() {
    let mut permission = IndexPermission::default();
    assert_eq!(permission.to_expr().to_json(), "{\"object\":{}}");
    permission.read(Level::public());
    assert_eq!(permission.to_expr().to_json(), "{\"object\":{\"read\":\"public\"}}");
    permission.read(Level::reference(Ref::class("owners")));
    assert_eq!(
        permission.to_expr().to_json(),
        "{\"object\":{\"read\":{\"@ref\":{\"id\":\"owners\",\"class\":{\"@ref\":{\"id\":\"classes\"}}}}}}"
    );
}
