use minirt::vec::Vec;
use minirt::vec::VecAppend;

#[test]
fn testDestructor() {
    let mut v = Vec::<Vec<i32>>::new();
    for i in 0..100 {
        let mut vj = Vec::<i32>::new();
        for j in 0..100 {
            vj.pushBack(j * i);
        }
        v.pushBack(vj);
    }
}

#[test]
fn testIter() {
    let mut v = Vec::new();
    for i in 0..4 {
        v.pushBack(i);
        assert!(*v.get(i) == i);
    }

    let mut counter = 0;
    for i in v.asArray() {
        if *i != counter {
            panic!("invalid {} != {}", i, counter)
        }
        counter += 1;
    }
}

#[test]
fn testPopDestructor() {
    let mut v = Vec::<Vec<i32>>::new();
    for i in 0..100 {
        let mut vj = Vec::<i32>::new();
        for j in 0..100 {
            vj.pushBack(j * i);
        }
        v.pushBack(vj);
    }

    assert!(v.len() == 100);
    for _ in 0..100 {
        v.pop();
    }
    assert!(v.len() == 0);
}

#[test]
fn testPopDestructorPush() {
    let mut v = Vec::<Vec<i32>>::new();
    for i in 0..100 {
        let mut vj = Vec::<i32>::new();
        for j in 0..100 {
            vj.pushBack(j * i);
        }
        v.pushBack(vj);
    }

    for _ in 0..100 {
        v.pop();
    }

    assert!(v.len() == 0);

    for i in 0..100 {
        let mut vj = Vec::<i32>::new();
        for j in 0..100 {
            vj.pushBack(j * i);
        }
        v.pushBack(vj);
    }

    assert!(v.len() == 100);
}

#[test]
fn testPushOrder() {
    let mut v = Vec::new();
    for i in 0..50usize {
        v.pushBack(i * 3);
    }
    assert_eq!(v.len(), 50);
    for i in 0..50usize {
        assert_eq!(*v.get(i), i * 3);
    }
}

#[test]
fn testPopSemantics() {
    let mut empty = Vec::<u8>::new();
    assert!(empty.pop().is_none());
    assert_eq!(empty.len(), 0);

    let mut v = Vec::new();
    v.pushBack(10u8);
    v.pushBack(20u8);
    let p = v.pop();
    assert_eq!(p, Some(20u8));
    assert_eq!(v.len(), 1);
    assert_eq!(*v.get(0), 10);
}

#[test]
fn testCapacityGrowth() {
    let mut v = Vec::new();
    assert_eq!(v.capacity(), 0);
    for i in 0..100usize {
        v.pushBack(i);
        assert!(v.capacity() >= v.len());
    }
    assert_eq!(v.capacity(), 128);
    for i in 0..100usize {
        assert_eq!(*v.get(i), i);
    }
}

#[test]
fn testWithCapacity() {
    let mut v = Vec::withCapacity(8);
    assert_eq!(v.capacity(), 8);
    assert_eq!(v.len(), 0);
    for i in 0..8u32 {
        v.pushBack(i);
    }
    assert_eq!(v.capacity(), 8);
    v.pushBack(8);
    assert_eq!(v.capacity(), 16);
}

#[test]
fn testSmallCapacityGrowsToSixteen() {
    let mut v = Vec::withCapacity(1);
    v.pushBack(1u8);
    assert_eq!(v.capacity(), 1);
    v.pushBack(2u8);
    assert_eq!(v.capacity(), 16);
    assert_eq!(v.asArray(), &[1u8, 2]);

    let mut w = Vec::withCapacity(7);
    for i in 0..8u8 {
        w.pushBack(i);
    }
    assert_eq!(w.capacity(), 16);
}

#[test]
fn testLast() {
    let mut v = Vec::new();
    assert!(v.last().is_none());
    v.pushBack(5i32);
    v.pushBack(6i32);
    assert_eq!(*v.last().unwrap(), 6);
}

#[test]
fn testAppendSlice() {
    let mut v = Vec::new();
    v.pushBack(1u8);
    v.append(&[2u8, 3, 4]);
    assert_eq!(v.len(), 4);
    assert_eq!(v.asArray(), &[1u8, 2, 3, 4]);
}

#[test]
fn testClone() {
    let mut v = Vec::new();
    v.pushBack(1u16);
    v.pushBack(2u16);
    let c = v.clone();
    v.pushBack(3u16);
    assert_eq!(c.len(), 2);
    assert_eq!(*c.get(0), 1);
    assert_eq!(*c.get(1), 2);
    assert_eq!(v.len(), 3);
}

#[test]
fn testGetMut() {
    let mut v = Vec::new();
    v.pushBack(1u8);
    v.pushBack(2u8);
    *v.getMut(0) = 9;
    assert_eq!(*v.get(0), 9);
    assert_eq!(*v.get(1), 2);
}

#[test]
fn testMutArray() {
    let mut v = Vec::new();
    v.pushBack(1u8);
    v.pushBack(2u8);
    let s = v.asMutArray();
    s[1] = 7;
    assert_eq!(*v.get(1), 7);
}
