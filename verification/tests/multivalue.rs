use luago::multivalue::GoMultiValue;
use luago::value::GoLuaValue;

#[test]
fn drain_yields_insertion_order() {
    let values = vec![
        GoLuaValue::Integer(1),
        GoLuaValue::Integer(2),
        GoLuaValue::Integer(3),
    ];
    let mv = GoMultiValue::instantiate(values);
    let out = mv.drain();
    assert_eq!(out.len(), 3);
    assert!(matches!(out[0], GoLuaValue::Integer(1)));
    assert!(matches!(out[1], GoLuaValue::Integer(2)));
    assert!(matches!(out[2], GoLuaValue::Integer(3)));
}

#[test]
fn drain_yields_mixed_order() {
    let values = vec![
        GoLuaValue::Boolean(true),
        GoLuaValue::Nil,
        GoLuaValue::Integer(9),
    ];
    let mv = GoMultiValue::instantiate(values);
    let out = mv.drain();
    assert_eq!(out.len(), 3);
    assert!(matches!(out[0], GoLuaValue::Boolean(true)));
    assert!(matches!(out[1], GoLuaValue::Nil));
    assert!(matches!(out[2], GoLuaValue::Integer(9)));
}

#[test]
fn empty_container_drains_empty() {
    let mv = GoMultiValue::empty();
    assert_eq!(mv.len(), 0);
    let out = mv.drain();
    assert!(out.is_empty());
}

#[test]
fn push_appends_in_order() {
    let mut mv = GoMultiValue::empty();
    mv.push(GoLuaValue::Integer(10));
    mv.push(GoLuaValue::Integer(20));
    assert_eq!(mv.len(), 2);
    let out = mv.drain();
    assert!(matches!(out[0], GoLuaValue::Integer(10)));
    assert!(matches!(out[1], GoLuaValue::Integer(20)));
}

#[test]
fn engine_round_trip_keeps_order() {
    let engine_values = mlua::MultiValue::from_vec(vec![
        mlua::Value::Integer(7),
        mlua::Value::Boolean(false),
        mlua::Value::Integer(8),
    ]);
    let mv = GoMultiValue::from_engine(engine_values);
    assert_eq!(mv.len(), 3);
    let back = mv.into_engine();
    let raw = back.into_vec();
    assert!(raw[0] == mlua::Value::Integer(7));
    assert!(raw[1] == mlua::Value::Boolean(false));
    assert!(raw[2] == mlua::Value::Integer(8));
}
