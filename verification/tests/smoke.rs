use alias::{one, slice};

#[derive(Copy, Clone, Eq, PartialEq, Debug)]
struct X<'a> {
    x: u8,
    y: u64,
    z: i8,
    w: &'a u32,
}

#[test]
fn smoke_one() {
    let a = 1;
    let b = 2;
    let val = X { x: 0xAA, y: !0, z: 0x77, w: &a };
    let val2 = X { x: 0x33, y: !0, z: 0x55, w: &b };
    let mut x = Some(val);

    {
        let mut y = one(&mut x);

        let held = y.alias().get();
        y.set(held);
        assert_eq!(y.get(), Some(val));
        assert_eq!(y.alias().get(), Some(val));

        let changed = Some(X { x: 1, ..y.get().unwrap() });
        y.alias().set(changed);
        assert_eq!(y.get(), Some(X { x: 1, ..val }));
        assert_eq!(y.alias().get(), Some(X { x: 1, ..val }));

        y.alias().set(None);
        assert!(y.get().is_none());
        assert!(y.alias().get().is_none());

        y.set(Some(val2));
        assert_eq!(y.get(), Some(val2));
        assert_eq!(y.alias().get(), Some(val2));
    }

    assert_eq!(x, Some(val2));
}

#[test]
fn smoke_slice() {
    let a = 1;
    let b = 2;
    let val = X { x: 0xAA, y: !0, z: 0x77, w: &a };
    let val2 = X { x: 0x33, y: !0, z: 0x55, w: &b };

    let mut x = [Some(val), Some(val2), None];

    {
        let mut y = slice(&mut x);
        assert_eq!(y.len(), 3);

        let held = y.alias().cell(0).unwrap().get();
        y.cell(0).unwrap().set(held);
        assert_eq!(y.cell(0).unwrap().get(), Some(val));
        assert_eq!(y.alias().cell(0).unwrap().get(), Some(val));

        y.cell(1).unwrap().set(None);
        assert!(y.cell(1).unwrap().get().is_none());
        assert!(y.alias().cell(1).unwrap().get().is_none());

        y.alias().cell(2).unwrap().set(Some(val2));
        assert_eq!(y.cell(2).unwrap().get(), Some(val2));
        assert_eq!(y.alias().cell(2).unwrap().get(), Some(val2));
    }
    assert_eq!(x, [Some(val), None, Some(val2)]);
}
