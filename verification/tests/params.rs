use rpc_router::{
    FromValue, IntoParams, ParamsForCreate, ParamsForUpdate, ParamsIded, ParamsList, RpcError,
};
use serde_json::Value;

fn object(members: Vec<(&str, Value)>) -> Value {
    let mut map = serde_json::Map::new();
    for (name, value) in members {
        map.insert(name.to_string(), value);
    }
    Value::Object(map)
}

#[test]
fn ided_takes_integer_id() {
    let params = ParamsIded::from_value(object(vec![("id", Value::from(42))])).unwrap();
    assert_eq!(params.id, 42);
}

#[test]
fn ided_passes_over_unknown_members() {
    let payload = object(vec![("name", Value::from("x")), ("id", Value::from(-3))]);
    assert_eq!(ParamsIded::from_value(payload).unwrap().id, -3);
}

#[test]
fn ided_refuses_string_id() {
    let err = ParamsIded::from_value(object(vec![("id", Value::from("abc"))])).err().unwrap();
    assert!(err.to_string().contains("invalid type"));
}

#[test]
fn ided_refuses_id_beyond_i64() {
    let payload = object(vec![("id", Value::from(u64::MAX))]);
    assert!(ParamsIded::from_value(payload).is_err());
    let payload = object(vec![("id", Value::from(i64::MAX))]);
    assert_eq!(ParamsIded::from_value(payload).unwrap().id, i64::MAX);
    let payload = object(vec![("id", Value::from(i64::MIN))]);
    assert_eq!(ParamsIded::from_value(payload).unwrap().id, i64::MIN);
}

#[test]
fn ided_refuses_fraction() {
    let payload = object(vec![("id", Value::from(1.5f64))]);
    assert!(ParamsIded::from_value(payload).is_err());
}

#[test]
fn ided_names_the_missing_member() {
    let err = ParamsIded::from_value(object(vec![])).err().unwrap();
    assert_eq!(err.to_string(), "missing field `id`");
    let err = ParamsIded::from_value(object(vec![("ID", Value::from(1))])).err().unwrap();
    assert_eq!(err.to_string(), "missing field `id`");
}

#[test]
fn ided_refuses_what_is_no_object() {
    let err = ParamsIded::from_value(Value::from(7)).err().unwrap();
    assert!(err.to_string().starts_with("invalid type: integer `7`"));
    let err = ParamsIded::from_value(Value::from("abc")).err().unwrap();
    assert!(err.to_string().starts_with("invalid type: string \"abc\""));
    let err = ParamsIded::from_value(Value::Null).err().unwrap();
    assert!(err.to_string().starts_with("invalid type: null"));
    let err = ParamsIded::from_value(Value::from(true)).err().unwrap();
    assert!(err.to_string().starts_with("invalid type: boolean `true`"));
}

#[test]
fn ided_takes_id_by_position() {
    assert_eq!(ParamsIded::from_value(Value::from(vec![42])).unwrap().id, 42);
    let err = ParamsIded::from_value(Value::Array(vec![])).err().unwrap();
    assert_eq!(err.to_string(), "invalid length 0, expected struct ParamsIded with 1 element");
    let err = ParamsIded::from_value(Value::from(vec![1, 2])).err().unwrap();
    assert_eq!(err.to_string(), "invalid length 2, expected fewer elements in array");
    let err = ParamsIded::from_value(Value::from(vec!["x"])).err().unwrap();
    assert!(err.to_string().starts_with("invalid type: string \"x\""));
    let err = ParamsIded::from_value(Value::from(vec!["x", "y"])).err().unwrap();
    assert!(err.to_string().starts_with("invalid type: string \"x\""));
}

#[test]
fn ided_passes_over_member_that_looks_like_raw_text() {
    let mut raw = serde_json::Map::new();
    raw.insert("$serde_json::private::RawValue".to_string(), Value::from("2"));
    let payload = object(vec![("id", Value::from(1)), ("x", Value::Object(raw.clone()))]);
    assert_eq!(ParamsIded::from_value(payload).unwrap().id, 1);
    raw.insert("zz".to_string(), Value::from(1));
    let payload = object(vec![("id", Value::from(5)), ("x", Value::Object(raw.clone()))]);
    assert_eq!(ParamsIded::from_value(payload).unwrap().id, 5);
    let payload = object(vec![("x", Value::Object(raw.clone()))]);
    let err = ParamsIded::from_value(payload).err().unwrap();
    assert_eq!(err.to_string(), "missing field `id`");
    let payload = object(vec![("data", Value::Object(raw.clone()))]);
    let params = ParamsForCreate::<Value>::from_value(payload).unwrap();
    assert_eq!(params.data, Value::Object(raw.clone()));
    let payload = object(vec![("x", Value::Object(raw))]);
    let params = ParamsList::<i64>::from_value(payload).unwrap();
    assert!(params.filter.is_none() && params.list_options.is_none());
}

#[test]
fn ided_needs_a_payload() {
    let res = ParamsIded::into_params::<()>(None);
    assert!(matches!(res, Err(RpcError::MissingParams)));
    let res = ParamsIded::into_params::<()>(Some(object(vec![("id", Value::from(5))])));
    assert!(matches!(res, Ok(ParamsIded { id: 5 })));
    let res = ParamsIded::into_params::<()>(Some(object(vec![("id", Value::Null)])));
    assert!(matches!(res, Err(RpcError::ParamsParsingError(_))));
}

#[test]
fn create_takes_data() {
    let payload = object(vec![("data", object(vec![("id", Value::from(9))]))]);
    let params = ParamsForCreate::<ParamsIded>::from_value(payload).unwrap();
    assert_eq!(params.data.id, 9);
    let err = ParamsForCreate::<ParamsIded>::from_value(object(vec![])).err().unwrap();
    assert_eq!(err.to_string(), "missing field `data`");
    assert!(matches!(
        ParamsForCreate::<Value>::into_params::<()>(None),
        Err(RpcError::MissingParams)
    ));
}

#[test]
fn create_keeps_untyped_data() {
    let data = object(vec![("title", Value::from("t"))]);
    let payload = object(vec![("data", data.clone())]);
    let params = ParamsForCreate::<Value>::from_value(payload).unwrap();
    assert_eq!(params.data, data);
}

#[test]
fn update_takes_id_and_data() {
    let payload = object(vec![("id", Value::from(3)), ("data", Value::from(11))]);
    let params = ParamsForUpdate::<i64>::from_value(payload).unwrap();
    assert_eq!((params.id, params.data), (3, 11));
}

#[test]
fn update_reports_members_in_the_order_of_their_names() {
    let payload = object(vec![("id", Value::from("x")), ("data", Value::from("y"))]);
    let err = ParamsForUpdate::<i64>::from_value(payload).err().unwrap();
    assert!(err.to_string().contains("\"y\""));
    let payload = object(vec![("id", Value::from("x")), ("data", Value::from(1))]);
    let err = ParamsForUpdate::<i64>::from_value(payload).err().unwrap();
    assert!(err.to_string().contains("\"x\""));
}

#[test]
fn update_reports_wrong_member_before_missing_member() {
    let payload = object(vec![("data", Value::from("y"))]);
    let err = ParamsForUpdate::<i64>::from_value(payload).err().unwrap();
    assert!(err.to_string().contains("\"y\""));
    let payload = object(vec![("id", Value::from("x"))]);
    let err = ParamsForUpdate::<i64>::from_value(payload).err().unwrap();
    assert!(err.to_string().contains("\"x\""));
}

#[test]
fn update_reports_missing_id_before_missing_data() {
    let err = ParamsForUpdate::<i64>::from_value(object(vec![])).err().unwrap();
    assert_eq!(err.to_string(), "missing field `id`");
    let payload = object(vec![("data", Value::from(1))]);
    let err = ParamsForUpdate::<i64>::from_value(payload).err().unwrap();
    assert_eq!(err.to_string(), "missing field `id`");
    let payload = object(vec![("id", Value::from(1))]);
    let err = ParamsForUpdate::<i64>::from_value(payload).err().unwrap();
    assert_eq!(err.to_string(), "missing field `data`");
    assert!(matches!(
        ParamsForUpdate::<i64>::into_params::<()>(None),
        Err(RpcError::MissingParams)
    ));
}

#[test]
fn update_refuses_what_is_no_object() {
    assert!(ParamsForUpdate::<i64>::from_value(Value::from("abc")).is_err());
    assert!(ParamsForUpdate::<i64>::from_value(Value::Null).is_err());
    assert!(ParamsForUpdate::<i64>::from_value(Value::from(1)).is_err());
}

#[test]
fn update_takes_id_and_data_by_position() {
    let params = ParamsForUpdate::<i64>::from_value(Value::from(vec![1, 2])).unwrap();
    assert_eq!((params.id, params.data), (1, 2));
    let err = ParamsForUpdate::<i64>::from_value(Value::from(vec![1])).err().unwrap();
    assert_eq!(
        err.to_string(),
        "invalid length 1, expected struct ParamsForUpdate with 2 elements"
    );
    let err = ParamsForUpdate::<i64>::from_value(Value::Array(vec![])).err().unwrap();
    assert_eq!(
        err.to_string(),
        "invalid length 0, expected struct ParamsForUpdate with 2 elements"
    );
    let err = ParamsForUpdate::<i64>::from_value(Value::from(vec![1, 2, 3])).err().unwrap();
    assert_eq!(err.to_string(), "invalid length 3, expected fewer elements in array");
    let err = ParamsForUpdate::<i64>::from_value(Value::from(vec!["x", "y"])).err().unwrap();
    assert!(err.to_string().contains("\"x\""));
    let both = Value::Array(vec![Value::from(1), Value::from("y")]);
    let err = ParamsForUpdate::<i64>::from_value(both).err().unwrap();
    assert!(err.to_string().contains("\"y\""));
}

#[test]
fn create_refuses_what_is_no_object() {
    let err = ParamsForCreate::<Value>::from_value(Value::from(1)).err().unwrap();
    assert!(err.to_string().starts_with("invalid type: integer `1`"));
    assert!(ParamsForCreate::<Value>::from_value(Value::Null).is_err());
    assert!(ParamsForCreate::<Value>::from_value(Value::from("data")).is_err());
}

#[test]
fn create_takes_data_by_position() {
    let params = ParamsForCreate::<Value>::from_value(Value::Array(vec![Value::Null])).unwrap();
    assert_eq!(params.data, Value::Null);
    let params = ParamsForCreate::<i64>::from_value(Value::from(vec![8])).unwrap();
    assert_eq!(params.data, 8);
    let err = ParamsForCreate::<i64>::from_value(Value::Array(vec![])).err().unwrap();
    assert_eq!(
        err.to_string(),
        "invalid length 0, expected struct ParamsForCreate with 1 element"
    );
    let err = ParamsForCreate::<i64>::from_value(Value::from(vec![8, 9])).err().unwrap();
    assert_eq!(err.to_string(), "invalid length 2, expected fewer elements in array");
}

#[test]
fn list_refuses_what_is_no_object() {
    let err = ParamsList::<i64>::from_value(Value::from("abc")).err().unwrap();
    assert!(err.to_string().starts_with("invalid type: string \"abc\""));
    let err = ParamsList::<i64>::from_value(Value::Null).err().unwrap();
    assert!(err.to_string().starts_with("invalid type: null"));
    assert!(ParamsList::<i64>::from_value(Value::from(3)).is_err());
    assert!(ParamsList::<i64>::from_value(Value::from(false)).is_err());
    let res = ParamsList::<i64>::into_params::<()>(Some(Value::Null));
    assert!(matches!(res, Err(RpcError::ParamsParsingError(_))));
    let res = ParamsList::<i64>::into_params::<()>(Some(Value::from("abc")));
    assert!(matches!(res, Err(RpcError::ParamsParsingError(_))));
}

#[test]
fn list_takes_filter_and_options_by_position() {
    let options = object(vec![("limit", Value::from(10))]);
    let payload = Value::Array(vec![Value::from(4), options]);
    let params = ParamsList::<i64>::from_value(payload).unwrap();
    assert_eq!(params.filter, Some(4));
    assert_eq!(params.list_options.unwrap().limit, Some(10));
    let payload = Value::Array(vec![Value::Null, Value::Null]);
    let params = ParamsList::<i64>::from_value(payload).unwrap();
    assert!(params.filter.is_none() && params.list_options.is_none());
    let err = ParamsList::<i64>::from_value(Value::Array(vec![])).err().unwrap();
    assert_eq!(err.to_string(), "invalid length 0, expected struct ParamsList with 2 elements");
    let err = ParamsList::<i64>::from_value(Value::Array(vec![Value::Null])).err().unwrap();
    assert_eq!(err.to_string(), "invalid length 1, expected struct ParamsList with 2 elements");
    let three = Value::Array(vec![Value::Null, Value::Null, Value::Null]);
    let err = ParamsList::<i64>::from_value(three).err().unwrap();
    assert_eq!(err.to_string(), "invalid length 3, expected fewer elements in array");
    let payload = Value::Array(vec![Value::from("f"), Value::from(1)]);
    let err = ParamsList::<i64>::from_value(payload).err().unwrap();
    assert!(err.to_string().contains("\"f\""));
}

#[test]
fn list_without_payload_is_the_default() {
    let params = ParamsList::<Value>::into_params::<()>(None).ok().unwrap();
    assert!(params.filter.is_none());
    assert!(params.list_options.is_none());
    let params = ParamsList::<Value>::default();
    assert!(params.filter.is_none());
    assert!(params.list_options.is_none());
}

#[test]
fn list_members_may_be_left_out_or_null() {
    let params = ParamsList::<i64>::from_value(object(vec![])).unwrap();
    assert!(params.filter.is_none() && params.list_options.is_none());
    let payload = object(vec![("filter", Value::Null), ("list_options", Value::Null)]);
    let params = ParamsList::<i64>::from_value(payload).unwrap();
    assert!(params.filter.is_none() && params.list_options.is_none());
}

#[test]
fn list_takes_filter_and_options() {
    let options = object(vec![("limit", Value::from(10)), ("offset", Value::from(20))]);
    let payload = object(vec![("filter", Value::from(4)), ("list_options", options)]);
    let params = ParamsList::<i64>::from_value(payload).unwrap();
    assert_eq!(params.filter, Some(4));
    let options = params.list_options.unwrap();
    assert_eq!(options.limit, Some(10));
    assert_eq!(options.offset, Some(20));
    assert!(options.order_bys.is_none());
}

#[test]
fn list_reports_filter_before_options() {
    let payload = object(vec![("filter", Value::from("f")), ("list_options", Value::from(1))]);
    let err = ParamsList::<i64>::from_value(payload).err().unwrap();
    assert!(err.to_string().contains("\"f\""));
    let payload = object(vec![("list_options", Value::from(1))]);
    assert!(ParamsList::<i64>::from_value(payload).is_err());
}
