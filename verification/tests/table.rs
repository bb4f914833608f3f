use modality_barectf_plugin::attr::{clone_attrs, extend_from, Attr, AttrVal};
use modality_barectf_plugin::table::{find, put_attr, put_attrs};
use modality_barectf_plugin::text::{decimal, join};

fn table_attr(key: &str, val: i64) -> Attr {
    (key.to_string(), AttrVal::Integer(val))
}

#[test]
fn decimal_renders_without_leading_zeros() {
    assert_eq!(decimal(0), "0");
    assert_eq!(decimal(7), "7");
    assert_eq!(decimal(10), "10");
    assert_eq!(decimal(109), "109");
    assert_eq!(decimal(1234567890), "1234567890");
    assert_eq!(decimal(usize::MAX), usize::MAX.to_string());
}

#[test]
fn join_concatenates() {
    assert_eq!(join("environment.", "app"), "environment.app");
    assert_eq!(join("", ""), "");
    assert_eq!(join("a", ""), "a");
}

#[test]
fn find_gives_the_first_entry_of_a_name() {
    let table = vec![("a".to_string(), 1u128), ("b".to_string(), 2), ("a".to_string(), 3)];
    assert_eq!(find(&table, &"a".to_string()), Some(1));
    assert_eq!(find(&table, &"b".to_string()), Some(2));
    assert_eq!(find(&table, &"c".to_string()), None);
    let empty: Vec<(String, u128)> = vec![];
    assert_eq!(find(&empty, &"a".to_string()), None);
}

#[test]
fn put_attr_replaces_in_place_or_appends() {
    let mut attrs = vec![table_attr("x", 1), table_attr("y", 2)];
    put_attr(&mut attrs, "x".to_string(), AttrVal::Integer(10));
    assert_eq!(attrs, vec![table_attr("x", 10), table_attr("y", 2)]);
    put_attr(&mut attrs, "z".to_string(), AttrVal::Integer(3));
    assert_eq!(attrs, vec![table_attr("x", 10), table_attr("y", 2), table_attr("z", 3)]);
}

#[test]
fn put_attrs_keeps_each_key_once() {
    let mut attrs = Vec::new();
    put_attrs(
        &mut attrs,
        &vec![table_attr("a", 1), table_attr("b", 2), table_attr("a", 3), table_attr("c", 4)],
    );
    assert_eq!(attrs, vec![table_attr("a", 3), table_attr("b", 2), table_attr("c", 4)]);
}

#[test]
fn clone_and_extend_copy_attributes() {
    let attrs = vec![table_attr("a", 1), ("s".to_string(), AttrVal::String("t".to_string()))];
    assert_eq!(clone_attrs(&attrs), attrs);
    let mut out = vec![table_attr("first", 0)];
    extend_from(&mut out, &attrs);
    assert_eq!(
        out,
        vec![table_attr("first", 0), table_attr("a", 1), ("s".to_string(), AttrVal::String("t".to_string()))]
    );
    assert_eq!(AttrVal::F64(5).clone(), AttrVal::F64(5));
}
