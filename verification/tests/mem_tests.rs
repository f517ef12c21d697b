use minirt::mem::Box;
use minirt::mem::Unique;
use minirt::vec::Vec;

#[test]
fn testDrop() {
    let _b0 = Box::new(1234);
    let _b1 = Box::new(1234345);
    let mut v = Vec::new();
    for i in 0..100 {
        v.pushBack(i);
    }
    let _bv = Box::new(v);
}

#[test]
fn testDropVecVec() {
    let _b0 = Box::new(1234);
    let _b1 = Box::new(1234345);
    let mut v = Vec::new();
    for _ in 0..100 {
        let mut vj = Vec::new();
        for j in 0..100 {
            vj.pushBack(j);
        }
        v.pushBack(vj);
    }
    let _bv = Box::new(v);
}

#[test]
fn testBoxUnbox() {
    let b = Box::new(1234);
    let _v = b.unbox();
}

#[test]
fn testBoxUnboxVecVec() {
    let _b0 = Box::new(1234);
    let _b1 = Box::new(1234345);
    let mut v = Vec::new();
    for _ in 0..100 {
        let mut vj = Vec::new();
        for j in 0..100 {
            vj.pushBack(j);
        }
        v.pushBack(vj);
    }
    let v2 = Box::new(v);
    let _v3 = v2.unbox();
}

#[test]
fn testBoxFromToRaw() {
    let b = Box::new(1234);
    let r = b.intoRaw();
    let _b = Box::fromRaw(r);
}

#[test]
fn testUnboxValue() {
    let b = Box::new(77i32);
    assert_eq!(*b.asRef(), 77);
    assert_eq!(b.unbox(), 77);
}

#[test]
fn testRawRoundTripValue() {
    let b = Box::new(4321i64);
    let mut h = b.intoRaw();
    assert_eq!(*h.getPtr(), 4321);
    *h.getMutPtr() = 5678;
    let b2 = Box::fromRaw(h);
    assert_eq!(b2.unbox(), 5678);
}

#[test]
fn testUniqueHolds() {
    let u = Unique::new(9u8);
    assert_eq!(*u.getPtr(), 9);
}
