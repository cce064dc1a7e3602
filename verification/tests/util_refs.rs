use dynosaur::util::{Ref, RefMut};

#[test]
fn ref_gives_back_the_value() {
    let r = Ref::new(41u32);
    assert_eq!(*r, 41);
}

#[test]
fn ref_mut_reads_and_writes() {
    let mut r = RefMut::new(vec![1u8, 2]);
    assert_eq!(*r, vec![1, 2]);
    r.push(3);
    assert_eq!(*r, vec![1, 2, 3]);
    *r = vec![7];
    assert_eq!(r.len(), 1);
    assert_eq!(r[0], 7);
}

#[test]
fn ref_mut_shows_the_last_write() {
    let mut r = RefMut::new(0u32);
    assert_eq!(*r, 0);
    for v in [5u32, 9, 2] {
        *r = v;
    }
    assert_eq!(*r, 2);
}
