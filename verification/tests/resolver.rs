use graph_substreams::block::{BlockHash, BlockPtr, BLOCK_NUMBER_MAX};
use graph_substreams::resolver::{
    BlockConstraint, BlockLocation, DeploymentState, ErrorPolicy, Field, ObjectOrInterface, Pos,
    QueryError, QueryExecutionError, QueryResult, StoreResolver,
};
use graph_substreams::value::{Object, Value};

fn state(latest: i32) -> DeploymentState {
    DeploymentState {
        id: "QmDeployment".to_string(),
        latest_block: BlockPtr { hash: BlockHash(vec![0x11; 32]), number: latest },
    }
}

fn not_available(latest: i32, block: i32) -> String {
    format!(
        "subgraph QmDeployment has only indexed up to block number {} and data for block number {} is therefore not yet available",
        latest, block
    )
}

fn field() -> Field {
    Field { position: Pos { line: 3, column: 7 }, name: "pool".to_string() }
}

fn object_type(name: &str) -> ObjectOrInterface {
    ObjectOrInterface { name: name.to_string() }
}

fn located(l: BlockLocation) -> Result<BlockPtr, QueryExecutionError> {
    match l {
        BlockLocation::Located(r) => r,
        BlockLocation::LookupHash(_) => panic!("unexpected lookup"),
    }
}

fn value_parse_error(r: Result<BlockPtr, QueryExecutionError>) -> (String, String) {
    match r {
        Err(QueryExecutionError::ValueParseError(a, m)) => (a, m),
        other => panic!("unexpected {:?}", other),
    }
}

fn text(v: &Value) -> &str {
    match v {
        Value::String(s) => s.as_str(),
        other => panic!("not text: {:?}", other),
    }
}

fn entries(v: &Value) -> &Vec<(String, Value)> {
    match v {
        Value::Object(o) => &o.entries,
        other => panic!("not an object: {:?}", other),
    }
}

#[test]
fn subscription_reads_latest_block() {
    let r = StoreResolver::for_subscription("QmDeployment".to_string());
    assert!(r.block_ptr.is_none());
    assert_eq!(r.block_number(), BLOCK_NUMBER_MAX);
    assert!(!r.has_non_fatal_errors);
    assert_eq!(r.error_policy, ErrorPolicy::Deny);
}

#[test]
fn resolver_at_block_reads_that_block() {
    let r = StoreResolver::at_block(
        BlockPtr { hash: BlockHash(vec![1]), number: 77 },
        true,
        ErrorPolicy::Allow,
        "QmDeployment".to_string(),
    );
    assert_eq!(r.block_number(), 77);
    assert!(r.has_non_fatal_errors);
    assert_eq!(r.error_policy, ErrorPolicy::Allow);
}

#[test]
fn latest_constraint_gives_latest_block() {
    let p = located(StoreResolver::locate_block(BlockConstraint::Latest, &state(100))).unwrap();
    assert_eq!(p.number, 100);
    assert_eq!(p.hash.0, vec![0x11; 32]);
}

#[test]
fn number_constraint_gets_unknown_hash() {
    let p = located(StoreResolver::locate_block(BlockConstraint::Number(40), &state(100))).unwrap();
    assert_eq!(p.number, 40);
    assert_eq!(p.hash.0, vec![0u8; 32]);
    let p = located(StoreResolver::locate_block(BlockConstraint::Number(100), &state(100))).unwrap();
    assert_eq!(p.number, 100);
}

#[test]
fn number_after_latest_is_refused() {
    let (a, m) = value_parse_error(located(StoreResolver::locate_block(
        BlockConstraint::Number(101),
        &state(100),
    )));
    assert_eq!(a, "block.number");
    assert_eq!(m, not_available(100, 101));
}

#[test]
fn negative_latest_is_printed_with_sign() {
    let (_, m) = value_parse_error(located(StoreResolver::locate_block(
        BlockConstraint::Number(-3),
        &state(-5),
    )));
    assert_eq!(m, not_available(-5, -3));
}

#[test]
fn smallest_latest_block_is_printed_in_full() {
    let (_, m) = value_parse_error(located(StoreResolver::locate_block(
        BlockConstraint::Min(0),
        &state(i32::MIN),
    )));
    assert_eq!(m, not_available(i32::MIN, 0));
    assert!(m.contains("-2147483648"));
}

#[test]
fn min_constraint() {
    let p = located(StoreResolver::locate_block(BlockConstraint::Min(100), &state(100))).unwrap();
    assert_eq!(p.number, 100);
    assert_eq!(p.hash.0, vec![0x11; 32]);
    let (a, m) = value_parse_error(located(StoreResolver::locate_block(
        BlockConstraint::Min(2147483647),
        &state(100),
    )));
    assert_eq!(a, "block.number_gte");
    assert_eq!(m, not_available(100, 2147483647));
}

#[test]
fn hash_constraint_asks_the_store() {
    match StoreResolver::locate_block(BlockConstraint::Hash(BlockHash(vec![9, 9])), &state(100)) {
        BlockLocation::LookupHash(h) => assert_eq!(h.0, vec![9, 9]),
        other => panic!("unexpected {:?}", other),
    }
}

#[test]
fn hash_lookup_outcomes() {
    let p = StoreResolver::locate_block_by_hash(BlockHash(vec![9]), Ok(Some(50)), &state(100)).unwrap();
    assert_eq!(p.number, 50);
    assert_eq!(p.hash.0, vec![9]);

    let (a, m) =
        value_parse_error(StoreResolver::locate_block_by_hash(BlockHash(vec![9]), Ok(None), &state(100)));
    assert_eq!(a, "block.hash");
    assert_eq!(m, "no block with that hash found");

    let (a, m) = value_parse_error(StoreResolver::locate_block_by_hash(
        BlockHash(vec![9]),
        Ok(Some(150)),
        &state(100),
    ));
    assert_eq!(a, "block.number");
    assert_eq!(m, not_available(100, 150));

    match StoreResolver::locate_block_by_hash(
        BlockHash(vec![9]),
        Err(QueryExecutionError::StoreError("down".to_string())),
        &state(100),
    ) {
        Err(QueryExecutionError::StoreError(m)) => assert_eq!(m, "down"),
        other => panic!("unexpected {:?}", other),
    }
}

#[test]
fn block_queryable_message() {
    assert!(state(10).block_queryable(10).is_ok());
    assert_eq!(state(10).block_queryable(11).unwrap_err(), not_available(10, 11));
}

fn meta_parts(r: &StoreResolver) -> (String, String, bool, Value) {
    let (prefetched, meta) =
        r.handle_meta(Some(Value::Null), &object_type("_Meta_")).unwrap();
    assert!(prefetched.is_none());
    let meta = meta.unwrap();
    let e = entries(&meta);
    assert_eq!(e.len(), 4);
    assert_eq!(e[0].0, "__typename");
    assert_eq!(text(&e[0].1), "_Meta_");
    assert_eq!(e[1].0, "deployment");
    assert_eq!(e[2].0, "hasIndexingErrors");
    assert_eq!(e[3].0, "prefetch:block");
    let has_errors = match e[2].1 {
        Value::Boolean(b) => b,
        _ => panic!("not a boolean"),
    };
    let mut blocks = match meta {
        Value::Object(Object { mut entries }) => match entries.remove(3).1 {
            Value::List(l) => l,
            _ => panic!("not a list"),
        },
        _ => unreachable!(),
    };
    assert_eq!(blocks.len(), 1);
    let block = blocks.remove(0);
    let be = entries(&block);
    assert_eq!(be.len(), 3);
    assert_eq!(be[0].0, "__typename");
    assert_eq!(text(&be[0].1), "_Block_");
    assert_eq!(be[1].0, "hash");
    assert_eq!(be[2].0, "number");
    let e = entries(&block);
    (String::new(), String::new(), has_errors, Value::Object(Object {
        entries: vec![
            ("hash".to_string(), copy(&e[1].1)),
            ("number".to_string(), copy(&e[2].1)),
        ],
    }))
}

fn copy(v: &Value) -> Value {
    match v {
        Value::Int(i) => Value::Int(*i),
        Value::String(s) => Value::String(s.clone()),
        Value::Boolean(b) => Value::Boolean(*b),
        Value::Null => Value::Null,
        _ => panic!("unexpected nested value"),
    }
}

#[test]
fn meta_for_block_with_hash() {
    let mut hash = vec![0u8; 32];
    hash[0] = 0xab;
    hash[31] = 0x0f;
    let r = StoreResolver::at_block(
        BlockPtr { hash: BlockHash(hash.clone()), number: 12 },
        true,
        ErrorPolicy::Deny,
        "QmDeployment".to_string(),
    );
    let (_, _, has_errors, block) = meta_parts(&r);
    assert!(has_errors);
    let e = entries(&block);
    assert_eq!(text(&e[0].1), format!("0x{}", hex::encode(&hash)));
    assert_eq!(text(&e[0].1), "0xab0000000000000000000000000000000000000000000000000000000000000f");
    assert_eq!(hex::decode(&text(&e[0].1)[2..]).unwrap(), hash);
    assert!(matches!(e[1].1, Value::Int(12)));
}

#[test]
fn meta_hides_unknown_hash() {
    let p = located(StoreResolver::locate_block(BlockConstraint::Number(40), &state(100))).unwrap();
    let r = StoreResolver::at_block(p, false, ErrorPolicy::Deny, "QmDeployment".to_string());
    let (_, _, has_errors, block) = meta_parts(&r);
    assert!(!has_errors);
    let e = entries(&block);
    assert!(matches!(e[0].1, Value::Null));
    assert!(matches!(e[1].1, Value::Int(40)));
}

#[test]
fn meta_for_subscription_is_null_block() {
    let r = StoreResolver::for_subscription("QmDeployment".to_string());
    let (_, _, _, block) = meta_parts(&r);
    let e = entries(&block);
    assert!(matches!(e[0].1, Value::Null));
    assert!(matches!(e[1].1, Value::Null));
    let (prefetched, meta) = r
        .handle_meta(Some(Value::Int(1)), &object_type("_Meta_"))
        .unwrap();
    assert!(prefetched.is_none());
    let meta = meta.unwrap();
    assert_eq!(text(&entries(&meta)[1].1), "QmDeployment");
}

#[test]
fn other_types_keep_prefetched_object() {
    let r = StoreResolver::for_subscription("QmDeployment".to_string());
    let (prefetched, meta) =
        r.handle_meta(Some(Value::Int(5)), &object_type("Pool")).unwrap();
    assert!(matches!(prefetched, Some(Value::Int(5))));
    assert!(meta.is_none());
}

#[test]
fn resolve_objects_needs_prefetched_data() {
    let r = StoreResolver::for_subscription("QmDeployment".to_string());
    assert!(matches!(
        r.resolve_objects(Some(Value::Boolean(true)), &field(), &object_type("Pool")),
        Ok(Value::Boolean(true))
    ));
    match r.resolve_objects(None, &field(), &object_type("Pool")) {
        Err(QueryExecutionError::ResolveEntitiesError(m)) => assert_eq!(
            m,
            "internal error resolving Pool.pool: expected prefetched result, but found nothing"
        ),
        other => panic!("unexpected {:?}", other),
    }
}

#[test]
fn resolve_object_cases() {
    let r = StoreResolver::for_subscription("QmDeployment".to_string());
    let pool = object_type("Pool");
    assert!(matches!(
        r.resolve_object(Some(Value::List(vec![Value::Int(3)])), &field(), None, &pool),
        Ok(Value::Int(3))
    ));
    assert!(matches!(
        r.resolve_object(Some(Value::List(vec![])), &field(), None, &pool),
        Ok(Value::Null)
    ));
    match r.resolve_object(
        Some(Value::List(vec![Value::Int(1), Value::Int(2)])),
        &field(),
        Some("token"),
        &pool,
    ) {
        Err(QueryExecutionError::AmbiguousDerivedFromResult(p, f, t, d)) => {
            assert_eq!(p, Pos { line: 3, column: 7 });
            assert_eq!(f, "pool");
            assert_eq!(t, "Pool");
            assert_eq!(d, "token");
        }
        other => panic!("unexpected {:?}", other),
    }
    match r.resolve_object(Some(Value::Int(1)), &field(), None, &pool) {
        Err(QueryExecutionError::ResolveEntitiesError(m)) => assert_eq!(
            m,
            "internal error resolving Pool.pool: expected prefetched result, but found nothing"
        ),
        other => panic!("unexpected {:?}", other),
    }
    match r.resolve_object(None, &field(), None, &object_type("_Meta_")) {
        Ok(meta) => assert_eq!(entries(&meta).len(), 4),
        other => panic!("unexpected {:?}", other),
    }
}

fn data() -> Object {
    Object {
        entries: vec![
            ("_meta".to_string(), Value::Int(1)),
            ("pools".to_string(), Value::List(vec![])),
        ],
    }
}

fn resolver(has_errors: bool, policy: ErrorPolicy) -> StoreResolver {
    StoreResolver::at_block(
        BlockPtr { hash: BlockHash(vec![1; 32]), number: 1 },
        has_errors,
        policy,
        "QmDeployment".to_string(),
    )
}

#[test]
fn post_process_without_indexing_errors_changes_nothing() {
    let mut q = QueryResult { data: Some(data()), errors: vec![] };
    resolver(false, ErrorPolicy::Deny).post_process(&mut q);
    assert!(q.errors.is_empty());
    assert_eq!(q.data.unwrap().entries.len(), 2);
}

#[test]
fn post_process_keeps_failed_queries() {
    let mut q = QueryResult {
        data: Some(data()),
        errors: vec![QueryError::ExecutionError(QueryExecutionError::StoreError("x".to_string()))],
    };
    resolver(true, ErrorPolicy::Deny).post_process(&mut q);
    assert_eq!(q.errors.len(), 1);
    assert!(matches!(q.errors[0], QueryError::ExecutionError(_)));
    assert_eq!(q.data.unwrap().entries.len(), 2);
}

#[test]
fn post_process_deny_keeps_only_meta() {
    let mut q = QueryResult { data: Some(data()), errors: vec![] };
    let r = resolver(true, ErrorPolicy::Deny);
    r.post_process(&mut q);
    assert_eq!(q.errors.len(), 1);
    assert!(matches!(q.errors[0], QueryError::IndexingError));
    let d = q.data.as_ref().unwrap();
    assert_eq!(d.entries.len(), 1);
    assert_eq!(d.entries[0].0, "_meta");
    assert!(matches!(d.entries[0].1, Value::Int(1)));
    // A second pass changes nothing.
    r.post_process(&mut q);
    assert_eq!(q.errors.len(), 1);
    assert_eq!(q.data.unwrap().entries.len(), 1);
}

#[test]
fn post_process_deny_without_meta_drops_data() {
    let mut q = QueryResult {
        data: Some(Object { entries: vec![("pools".to_string(), Value::Null)] }),
        errors: vec![],
    };
    resolver(true, ErrorPolicy::Deny).post_process(&mut q);
    assert!(q.data.is_none());
    assert!(matches!(q.errors[0], QueryError::IndexingError));
}

#[test]
fn post_process_allow_keeps_data() {
    let mut q = QueryResult { data: Some(data()), errors: vec![] };
    resolver(true, ErrorPolicy::Allow).post_process(&mut q);
    assert_eq!(q.errors.len(), 1);
    assert!(matches!(q.errors[0], QueryError::IndexingError));
    assert_eq!(q.data.unwrap().entries.len(), 2);
}

#[test]
fn object_remove_takes_first_matching_entry() {
    let mut o = data();
    let removed = o.remove(&"pools".to_string()).unwrap();
    assert_eq!(removed.0, "pools");
    assert_eq!(o.entries.len(), 1);
    assert!(o.remove(&"absent".to_string()).is_none());
    assert_eq!(o.position(&"_meta".to_string()), Some(0));
    assert!(Object::new().entries.is_empty());
}
