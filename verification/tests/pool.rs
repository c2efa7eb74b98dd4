use object_pool::Pool;
use object_pool::Reusable;

#[test]
fn detach() {
    let pool = Pool::new(1, || Vec::new());
    let (pool, mut object) = pool.try_pull().unwrap().detach();
    object.push(1);
    Reusable::new(&pool, object);
    assert_eq!(pool.try_pull().unwrap().get()[0], 1);
}

#[test]
fn detach_then_attach() {
    let pool = Pool::new(1, || Vec::new());
    let (pool, mut object) = pool.try_pull().unwrap().detach();
    object.push(1);
    pool.attach(object);
    assert_eq!(pool.try_pull().unwrap().get()[0], 1);
}

#[test]
fn pull() {
    let pool = Pool::<Vec<u8>>::new(1, || Vec::new());

    let object1 = pool.try_pull();
    let object2 = pool.try_pull();
    let object3 = pool.pull(|| Vec::new());

    assert!(object1.is_some());
    assert!(object2.is_none());
    drop(object1);
    drop(object2);
    drop(object3);
    assert_eq!(pool.len(), 2);
}

#[test]
fn e2e() {
    let pool = Pool::new(10, || Vec::new());
    let mut objects = Vec::new();

    for i in 0..10 {
        let mut object = pool.try_pull().unwrap();
        object.get_mut().push(i);
        objects.push(object);
    }

    assert!(pool.try_pull().is_none());
    drop(objects);
    assert!(pool.try_pull().is_some());

    for i in (10..0).rev() {
        let mut object = pool.try_pull().unwrap();
        assert_eq!(object.get_mut().pop(), Some(i));
    }
}
