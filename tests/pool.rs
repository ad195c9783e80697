use ag_iso_stack::{
    encode_object, NumberVariable, Object, ObjectId, ObjectPool, ObjectPointer, ParseError, PoolError,
    SoftKeyMask,
};

fn number(id: u16, value: u32) -> Object {
    Object::NumberVariable(NumberVariable { id: ObjectId::from(id), value })
}

fn bytes_of(objects: &[Object]) -> Vec<u8> {
    let mut out = Vec::new();
    for o in objects {
        out.extend(encode_object(o).unwrap());
    }
    out
}

#[test]
fn scenario_duplicate_id() {
    let objects = vec![number(5, 1), number(5, 2)];
    assert_eq!(ObjectPool::from_objects(objects.clone()).unwrap_err(), PoolError::DuplicateId(ObjectId::from(5u16)));
    let data = bytes_of(&objects);
    assert_eq!(ObjectPool::decode(&data).unwrap_err(), PoolError::DuplicateId(ObjectId::from(5u16)));
}

#[test]
fn scenario_dangling_reference() {
    let objects = vec![
        Object::SoftKeyMask(SoftKeyMask {
            id: ObjectId::from(1u16),
            background_colour: 0,
            objects: vec![ObjectId::from(0x0099u16)],
            macro_refs: vec![],
        }),
        number(2, 0),
    ];
    let data = bytes_of(&objects);
    let pool = ObjectPool::decode(&data).unwrap();
    assert_eq!(pool.len(), 2);
    assert_eq!(pool.validate_references(), vec![ObjectId::from(0x0099u16)]);
}

#[test]
fn validation_is_idempotent() {
    let objects = vec![
        Object::ObjectPointer(ObjectPointer { id: ObjectId::from(1u16), value: ObjectId::from(7u16) }),
        Object::ObjectPointer(ObjectPointer { id: ObjectId::from(2u16), value: ObjectId::from(1u16) }),
        Object::ObjectPointer(ObjectPointer { id: ObjectId::from(3u16), value: ObjectId::from(8u16) }),
    ];
    let pool = ObjectPool::from_objects(objects).unwrap();
    let first = pool.validate_references();
    let second = pool.validate_references();
    assert_eq!(first, second);
    assert_eq!(first, vec![ObjectId::from(7u16), ObjectId::from(8u16)]);
}

#[test]
fn validation_reports_each_dangling_id_once_and_skips_null() {
    let objects = vec![
        Object::SoftKeyMask(SoftKeyMask {
            id: ObjectId::from(1u16),
            background_colour: 0,
            objects: vec![ObjectId::from(9u16), ObjectId::null(), ObjectId::from(1u16), ObjectId::from(9u16)],
            macro_refs: vec![],
        }),
        Object::ObjectPointer(ObjectPointer { id: ObjectId::from(2u16), value: ObjectId::null() }),
    ];
    let pool = ObjectPool::from_objects(objects).unwrap();
    assert_eq!(pool.validate_references(), vec![ObjectId::from(9u16)]);
}

#[test]
fn forward_references_resolve() {
    let objects = vec![
        Object::ObjectPointer(ObjectPointer { id: ObjectId::from(1u16), value: ObjectId::from(2u16) }),
        number(2, 0),
    ];
    let pool = ObjectPool::from_objects(objects).unwrap();
    assert!(pool.validate_references().is_empty());
}

#[test]
fn lookup() {
    let pool = ObjectPool::from_objects(vec![number(5, 10), number(6, 11)]).unwrap();
    assert_eq!(pool.get(ObjectId::from(6u16)).unwrap(), &number(6, 11));
    assert_eq!(pool.get(ObjectId::from(7u16)).unwrap_err(), PoolError::NotFound(ObjectId::from(7u16)));
    assert_eq!(pool.get(ObjectId::null()).unwrap_err(), PoolError::NotFound(ObjectId::null()));
}

#[test]
fn null_ids_may_repeat() {
    let mut pool = ObjectPool::new();
    pool.add(number(0xFFFF, 1)).unwrap();
    pool.add(number(0xFFFF, 2)).unwrap();
    pool.add(number(3, 3)).unwrap();
    assert_eq!(pool.add(number(3, 4)).unwrap_err(), PoolError::DuplicateId(ObjectId::from(3u16)));
    assert_eq!(pool.len(), 3);
    assert_eq!(pool.get(ObjectId::null()).unwrap_err(), PoolError::NotFound(ObjectId::null()));
}

#[test]
fn pool_round_trip_keeps_order() {
    let objects = vec![number(9, 1), number(3, 2), number(7, 3)];
    let data = bytes_of(&objects);
    let pool = ObjectPool::decode(&data).unwrap();
    assert_eq!(pool.objects().to_vec(), objects);
    assert_eq!(pool.encode().unwrap(), data);
    let ids: Vec<ObjectId> = pool.objects().iter().map(|o| o.id()).collect();
    assert_eq!(ids, vec![ObjectId::from(9u16), ObjectId::from(3u16), ObjectId::from(7u16)]);
}

#[test]
fn pool_decode_reports_offset() {
    let mut data = bytes_of(&[number(1, 1)]);
    data.extend_from_slice(&[0x02, 0x00, 60]);
    assert_eq!(
        ObjectPool::decode(&data).unwrap_err(),
        PoolError::Parse { offset: 7, error: ParseError::UnknownObjectType }
    );
    let mut short = bytes_of(&[number(1, 1)]);
    short.extend_from_slice(&[0x02, 0x00, 21, 0x00]);
    assert_eq!(
        ObjectPool::decode(&short).unwrap_err(),
        PoolError::Parse { offset: 7, error: ParseError::DataEmpty }
    );
}

#[test]
fn empty_pool() {
    let pool = ObjectPool::decode(&[]).unwrap();
    assert_eq!(pool.len(), 0);
    assert!(pool.encode().unwrap().is_empty());
    assert!(pool.validate_references().is_empty());
}
